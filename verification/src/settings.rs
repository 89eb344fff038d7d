//! Simulation settings: the team and player rosters, grid size, tick rate,
//! turn length and initial layout policy, with the validation that rejects a
//! malformed configuration before a run can start.

use vstd::prelude::*;
use crate::pixel::{Pixel, spec_black, spec_white, black, white};

verus! {

pub type TeamId = u8;

pub type PlayerId = u8;

/// One team: an id, a display name, its member players, and its RGBA color.
#[derive(Clone, Debug)]
pub struct Team {
    pub id: TeamId,
    pub name: String,
    pub players: Vec<PlayerId>,
    pub color: Pixel,
}

/// One player: an id, a display name, and the id of the team it plays for.
#[derive(Clone, Debug)]
pub struct Player {
    pub id: PlayerId,
    pub name: String,
    pub team: TeamId,
}

/// The initial layout policy used to populate the grid when a run starts.
#[derive(PartialEq, Eq, Structural, Copy, Clone, Debug)]
pub enum SimLayout {
    Random,
    Horiz5050,
    Vert5050,
    Rand5050,
    Empty,
}

/// Error of parsing a layout policy from its display name.
#[derive(PartialEq, Eq, Structural, Copy, Clone, Debug)]
pub enum LayoutError {
    UnknownLayout,
}

/// The display name of each layout policy.
pub open spec fn spec_layout_name(layout: SimLayout) -> Seq<char> {
    match layout {
        SimLayout::Random => "Random"@,
        SimLayout::Horiz5050 => "50/50 Horizontal"@,
        SimLayout::Vert5050 => "50/50 Vertical"@,
        SimLayout::Rand5050 => "50/50 Random"@,
        SimLayout::Empty => "Empty"@,
    }
}

/// Which layout policy a display name denotes, if any.
pub open spec fn spec_parse_layout(name: Seq<char>) -> Result<SimLayout, LayoutError> {
    if name == spec_layout_name(SimLayout::Random) {
        Ok(SimLayout::Random)
    } else if name == spec_layout_name(SimLayout::Horiz5050) {
        Ok(SimLayout::Horiz5050)
    } else if name == spec_layout_name(SimLayout::Vert5050) {
        Ok(SimLayout::Vert5050)
    } else if name == spec_layout_name(SimLayout::Rand5050) {
        Ok(SimLayout::Rand5050)
    } else if name == spec_layout_name(SimLayout::Empty) {
        Ok(SimLayout::Empty)
    } else {
        Err(LayoutError::UnknownLayout)
    }
}

/// The display name of a layout policy.
pub fn layout_name(layout: SimLayout) -> (r: String)
    ensures
        r@ == spec_layout_name(layout),
{
    match layout {
        SimLayout::Random => "Random".to_owned(),
        SimLayout::Horiz5050 => "50/50 Horizontal".to_owned(),
        SimLayout::Vert5050 => "50/50 Vertical".to_owned(),
        SimLayout::Rand5050 => "50/50 Random".to_owned(),
        SimLayout::Empty => "Empty".to_owned(),
    }
}

/// Parses a layout policy from its display name; an unknown name is a
/// configuration error.
pub fn parse_layout(name: &str) -> (r: Result<SimLayout, LayoutError>)
    ensures
        r == spec_parse_layout(name@),
{
    let v = name.to_owned();
    if v == "Random".to_owned() {
        Ok(SimLayout::Random)
    } else if v == "50/50 Horizontal".to_owned() {
        Ok(SimLayout::Horiz5050)
    } else if v == "50/50 Vertical".to_owned() {
        Ok(SimLayout::Vert5050)
    } else if v == "50/50 Random".to_owned() {
        Ok(SimLayout::Rand5050)
    } else if v == "Empty".to_owned() {
        Ok(SimLayout::Empty)
    } else {
        Err(LayoutError::UnknownLayout)
    }
}

/// Round trip: parsing a layout's own display name gives that layout back.
pub proof fn lemma_layout_name_round_trip(layout: SimLayout)
    ensures
        spec_parse_layout(spec_layout_name(layout)) == Ok::<SimLayout, LayoutError>(layout),
{
    reveal_strlit("Random");
    reveal_strlit("50/50 Horizontal");
    reveal_strlit("50/50 Vertical");
    reveal_strlit("50/50 Random");
    reveal_strlit("Empty");
    assert(spec_layout_name(SimLayout::Random).len() == 6);
    assert(spec_layout_name(SimLayout::Horiz5050).len() == 16);
    assert(spec_layout_name(SimLayout::Vert5050).len() == 14);
    assert(spec_layout_name(SimLayout::Rand5050).len() == 12);
    assert(spec_layout_name(SimLayout::Empty).len() == 5);
}

/// Simulation settings, supplied once when a run starts and immutable for
/// the run's duration. `size` is the grid's width and height and must be a
/// power of two; `timestep` is the tick rate in Hz; `steps_per_turn` is how
/// many ticks one player's turn lasts.
#[derive(Clone, Debug)]
pub struct SimSettings {
    pub teams: Vec<Team>,
    pub players: Vec<Player>,
    pub size: u32,
    pub timestep: u32,
    pub steps_per_turn: u32,
    pub layout: SimLayout,
    pub use_compute: bool,
}

impl Default for SimSettings {
    /// The out-of-the-box settings: empty rosters (the configuration UI
    /// fills them in), a 32-cell grid, ten ticks per second, a hundred ticks
    /// per turn, random layout, CPU backend.
    fn default() -> (s: SimSettings)
        ensures
            s.teams@.len() == 0,
            s.players@.len() == 0,
            s.size == 32,
            s.timestep == 10,
            s.steps_per_turn == 100,
            s.layout == SimLayout::Random,
            !s.use_compute,
    {
        SimSettings {
            teams: Vec::new(),
            players: Vec::new(),
            size: 32,
            timestep: 10,
            steps_per_turn: 100,
            layout: SimLayout::Random,
            use_compute: false,
        }
    }
}

/// Why a settings struct was rejected.
#[derive(PartialEq, Eq, Structural, Copy, Clone, Debug)]
pub enum SettingsError {
    /// The grid size is not a power of two.
    SizeNotPowerOfTwo,
    /// The grid size is over the largest supported image edge.
    SizeTooLarge,
    /// The tick rate is zero.
    ZeroTimestep,
    /// A turn would last zero ticks.
    ZeroStepsPerTurn,
    /// The team roster is empty.
    NoTeams,
    /// The team roster is larger than the team id space.
    TooManyTeams,
    /// The player roster is empty.
    NoPlayers,
    /// The player roster is larger than the player id space.
    TooManyPlayers,
    /// A team uses one of the reserved sentinel colors (black or white).
    ReservedTeamColor,
    /// A split-screen layout needs at least two teams.
    TooFewTeamsForLayout,
    /// A player names a team id that is not in the roster.
    PlayerWithoutTeam,
}

/// Largest supported grid edge, in cells.
pub const MAX_SIZE: u32 = 512;

pub open spec fn spec_is_power_of_two(n: int) -> bool
    decreases n,
{
    if n <= 0 {
        false
    } else if n == 1 {
        true
    } else {
        n % 2 == 0 && spec_is_power_of_two(n / 2)
    }
}

/// Whether `n` is a power of two.
pub fn is_power_of_two(n: u32) -> (r: bool)
    ensures
        r == spec_is_power_of_two(n as int),
{
    if n == 0 {
        return false;
    }
    let mut m = n;
    while m > 1
        invariant
            m >= 1,
            spec_is_power_of_two(n as int) == spec_is_power_of_two(m as int),
        decreases m,
    {
        if m % 2 == 1 {
            return false;
        }
        m = m / 2;
    }
    true
}

/// Some team in the roster uses a reserved sentinel color.
pub open spec fn spec_has_reserved_color(teams: Seq<Team>) -> bool {
    exists|i: int|
        0 <= i < teams.len() && (teams[i].color == spec_black() || teams[i].color == spec_white())
}

/// The roster holds a team with this id.
pub open spec fn spec_team_exists(teams: Seq<Team>, id: TeamId) -> bool {
    exists|i: int| 0 <= i < teams.len() && teams[i].id == id
}

/// Every player's team id is in the team roster.
pub open spec fn spec_players_have_teams(players: Seq<Player>, teams: Seq<Team>) -> bool {
    forall|i: int| 0 <= i < players.len() ==> spec_team_exists(teams, players[i].team)
}

/// Whether the layout policy splits the grid between the first two teams.
pub open spec fn spec_layout_needs_two_teams(layout: SimLayout) -> bool {
    layout == SimLayout::Horiz5050 || layout == SimLayout::Vert5050 || layout
        == SimLayout::Rand5050
}

/// The validation verdict, checks in order; `Ok` exactly when every rule
/// holds.
pub open spec fn spec_validate(s: SimSettings) -> Result<(), SettingsError> {
    if !spec_is_power_of_two(s.size as int) {
        Err(SettingsError::SizeNotPowerOfTwo)
    } else if s.size > MAX_SIZE {
        Err(SettingsError::SizeTooLarge)
    } else if s.timestep == 0 {
        Err(SettingsError::ZeroTimestep)
    } else if s.steps_per_turn == 0 {
        Err(SettingsError::ZeroStepsPerTurn)
    } else if s.teams@.len() == 0 {
        Err(SettingsError::NoTeams)
    } else if s.teams@.len() > 256 {
        Err(SettingsError::TooManyTeams)
    } else if s.players@.len() == 0 {
        Err(SettingsError::NoPlayers)
    } else if s.players@.len() > 256 {
        Err(SettingsError::TooManyPlayers)
    } else if spec_has_reserved_color(s.teams@) {
        Err(SettingsError::ReservedTeamColor)
    } else if spec_layout_needs_two_teams(s.layout) && s.teams@.len() < 2 {
        Err(SettingsError::TooFewTeamsForLayout)
    } else if !spec_players_have_teams(s.players@, s.teams@) {
        Err(SettingsError::PlayerWithoutTeam)
    } else {
        Ok(())
    }
}

/// The settings pass validation.
pub open spec fn spec_valid(s: SimSettings) -> bool {
    spec_validate(s) == Ok::<(), SettingsError>(())
}

/// Finds the first team in the roster with this id.
pub fn find_team(teams: &Vec<Team>, id: TeamId) -> (r: Option<usize>)
    ensures
        match r {
            Some(i) => i < teams@.len() && teams@[i as int].id == id && forall|j: int|
                0 <= j < i ==> teams@[j].id != id,
            None => forall|j: int| 0 <= j < teams@.len() ==> teams@[j].id != id,
        },
{
    let mut i: usize = 0;
    let n = teams.len();
    while i < n
        invariant
            i <= n,
            n == teams@.len(),
            forall|j: int| 0 <= j < i ==> teams@[j].id != id,
        decreases n - i,
    {
        if teams[i].id == id {
            return Some(i);
        }
        i += 1;
    }
    None
}

/// Index of the first team with this id, or -1 when the roster has none.
pub open spec fn spec_find_team(teams: Seq<Team>, id: TeamId) -> int
    decreases teams.len(),
{
    if teams.len() == 0 {
        -1
    } else if teams[0].id == id {
        0
    } else {
        let rest = spec_find_team(teams.drop_first(), id);
        if rest < 0 {
            -1
        } else {
            rest + 1
        }
    }
}

/// A linear scan that stops at the first match computes `spec_find_team`.
pub proof fn lemma_find_team_first_match(teams: Seq<Team>, id: TeamId, i: int)
    requires
        0 <= i < teams.len(),
        teams[i].id == id,
        forall|j: int| 0 <= j < i ==> teams[j].id != id,
    ensures
        spec_find_team(teams, id) == i,
    decreases i,
{
    if i > 0 {
        lemma_find_team_first_match(teams.drop_first(), id, i - 1);
    }
}

/// The color of the team the player at this roster index plays for.
pub open spec fn spec_player_color(s: SimSettings, player: int) -> Pixel
    recommends
        0 <= player < s.players@.len(),
        spec_team_exists(s.teams@, s.players@[player].team),
{
    s.teams@[spec_find_team(s.teams@, s.players@[player].team)].color
}

impl SimSettings {
    /// Looks up the color of the team that the player at roster index
    /// `player` plays for.
    pub fn get_player_color(&self, player: usize) -> (c: Pixel)
        requires
            player < self.players@.len(),
            spec_team_exists(self.teams@, self.players@[player as int].team),
        ensures
            c == spec_player_color(*self, player as int),
    {
        let id = self.players[player].team;
        match find_team(&self.teams, id) {
            Some(i) => {
                proof {
                    lemma_find_team_first_match(self.teams@, id, i as int);
                }
                self.teams[i].color
            },
            None => {
                proof {
                    let w = choose|w: int|
                        0 <= w < self.teams@.len() && self.teams@[w].id == id;
                    assert(false);
                }
                black()
            },
        }
    }

    /// Validates the settings; `Ok` exactly when a run may start with them.
    #[verifier::loop_isolation(false)]
    pub fn validate(&self) -> (r: Result<(), SettingsError>)
        ensures
            r == spec_validate(*self),
    {
        if !is_power_of_two(self.size) {
            return Err(SettingsError::SizeNotPowerOfTwo);
        }
        if self.size > MAX_SIZE {
            return Err(SettingsError::SizeTooLarge);
        }
        if self.timestep == 0 {
            return Err(SettingsError::ZeroTimestep);
        }
        if self.steps_per_turn == 0 {
            return Err(SettingsError::ZeroStepsPerTurn);
        }
        if self.teams.len() == 0 {
            return Err(SettingsError::NoTeams);
        }
        if self.teams.len() > 256 {
            return Err(SettingsError::TooManyTeams);
        }
        if self.players.len() == 0 {
            return Err(SettingsError::NoPlayers);
        }
        if self.players.len() > 256 {
            return Err(SettingsError::TooManyPlayers);
        }
        let nt = self.teams.len();
        let mut i: usize = 0;
        while i < nt
            invariant
                i <= nt,
                nt == self.teams@.len(),
                forall|j: int|
                    0 <= j < i ==> self.teams@[j].color != spec_black() && self.teams@[j].color
                        != spec_white(),
            decreases nt - i,
        {
            let c = self.teams[i].color;
            if c == black() || c == white() {
                proof {
                    assert(self.teams@[i as int].color == spec_black() || self.teams@[i as int].color
                        == spec_white());
                    assert(spec_has_reserved_color(self.teams@));
                }
                return Err(SettingsError::ReservedTeamColor);
            }
            i += 1;
        }
        let needs_two = matches!(
            self.layout,
            SimLayout::Horiz5050 | SimLayout::Vert5050 | SimLayout::Rand5050
        );
        if needs_two && self.teams.len() < 2 {
            return Err(SettingsError::TooFewTeamsForLayout);
        }
        let np = self.players.len();
        let mut p: usize = 0;
        while p < np
            invariant
                p <= np,
                np == self.players@.len(),
                forall|j: int|
                    0 <= j < p ==> spec_team_exists(self.teams@, self.players@[j].team),
            decreases np - p,
        {
            if find_team(&self.teams, self.players[p].team).is_none() {
                proof {
                    assert(!spec_team_exists(self.teams@, self.players@[p as int].team));
                    assert(!spec_players_have_teams(self.players@, self.teams@));
                }
                return Err(SettingsError::PlayerWithoutTeam);
            }
            p += 1;
        }
        Ok(())
    }

    /// Recommended stamp edge, in pixels, for a grid of the given size.
    pub fn stamp_size_from_sim_size(size: u32) -> (r: u32)
        ensures
            size <= 32 ==> r == 8,
            33 <= size <= 64 ==> r == 16,
            size >= 65 ==> r == 32,
    {
        if size <= 32 {
            8
        } else if size <= 64 {
            16
        } else {
            32
        }
    }
}

} // verus!
