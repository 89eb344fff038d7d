//! The simulation lifecycle state machine: `Closed → Init → Paused ⇄
//! Running`, with turn counting, the per-turn capture-commit, and the
//! double-buffered grid hand-off.

use vstd::prelude::*;
use crate::pixel::{Pixel, spec_black, spec_white, black, white};
use crate::grid::{Grid, StampData, spec_stamped_at};
use crate::executor::{spec_next_cells, next_generation};
use crate::settings::{
    SimSettings,
    SimLayout,
    SettingsError,
    spec_validate,
    spec_valid,
    spec_player_color,
    spec_team_exists,
    spec_players_have_teams,
};
use crate::rng::{random_below, random_flag};

verus! {

/// The lifecycle state. `Init` is transient: `start` allocates and populates
/// the buffers and comes to rest in `Paused`.
#[derive(PartialEq, Eq, Structural, Copy, Clone, Debug)]
pub enum SimState {
    Closed,
    Init,
    Paused,
    Running,
}

/// Per-run gameplay state: the selected stamp, the tick count within the
/// current turn, and the acting player's roster index.
#[derive(Clone, Debug)]
pub struct SimGameplayState {
    pub current_stamp: Option<String>,
    pub num_steps: u32,
    pub current_player: usize,
}

/// The three grid buffers of a run: two generation buffers that ping-pong
/// each tick (exactly one is "current") and a preview buffer holding a
/// speculative stamp overlay that is never authoritative.
pub struct SimBuffers {
    pub grid_a: Grid,
    pub grid_b: Grid,
    pub preview: Grid,
    pub current_is_a: bool,
}

impl SimBuffers {
    /// All three buffers are square grids of the configured size.
    pub open spec fn wf(self, size: int) -> bool {
        &&& self.grid_a.wf() && self.grid_a.width == size && self.grid_a.height == size
        &&& self.grid_b.wf() && self.grid_b.width == size && self.grid_b.height == size
        &&& self.preview.wf() && self.preview.width == size && self.preview.height == size
    }

    /// The generation buffer currently exposed for reading.
    pub open spec fn spec_current(self) -> Grid {
        if self.current_is_a {
            self.grid_a
        } else {
            self.grid_b
        }
    }

    /// The generation buffer the next tick will write.
    pub open spec fn spec_write(self) -> Grid {
        if self.current_is_a {
            self.grid_b
        } else {
            self.grid_a
        }
    }

    /// Reads the current generation buffer.
    pub fn current(&self) -> (g: &Grid)
        ensures
            *g == self.spec_current(),
    {
        if self.current_is_a {
            &self.grid_a
        } else {
            &self.grid_b
        }
    }
}

/// The pixel a committed cell holds: a white (contested) cell takes the
/// acting player's color channels; every other cell keeps its color.
pub open spec fn spec_commit_pixel(p: Pixel, color: Pixel) -> Pixel {
    if p == spec_white() {
        Pixel { r: color.r, g: color.g, b: color.b, a: p.a }
    } else {
        p
    }
}

/// The whole buffer after a capture-commit.
pub open spec fn spec_commit_cells(cells: Seq<Pixel>, color: Pixel) -> Seq<Pixel> {
    Seq::new(cells.len(), |i: int| spec_commit_pixel(cells[i], color))
}

/// Repaints every white (contested) cell of the grid to the acting player's
/// color, leaving all other cells byte-for-byte unchanged.
fn commit_grid(grid: &mut Grid, color: Pixel)
    requires
        old(grid).wf(),
    ensures
        final(grid).wf(),
        final(grid).width == old(grid).width,
        final(grid).height == old(grid).height,
        final(grid).cells@ == spec_commit_cells(old(grid).cells@, color),
{
    let ghost g0 = *grid;
    let area = grid.cells.len();
    let mut cells: Vec<Pixel> = Vec::new();
    let mut i: usize = 0;
    while i < area
        invariant
            *grid == g0,
            area == g0.cells@.len(),
            i <= area,
            cells@.len() == i,
            forall|j: int| 0 <= j < i ==> cells@[j] == spec_commit_pixel(g0.cells@[j], color),
        decreases area - i,
    {
        let p = grid.cells[i];
        let value = if p == white() {
            Pixel { r: color.r, g: color.g, b: color.b, a: p.a }
        } else {
            p
        };
        cells.push(value);
        i += 1;
    }
    grid.cells = cells;
    proof {
        assert(grid.cells@ =~= spec_commit_cells(g0.cells@, color));
    }
}

/// Whether one cell's pixel is admissible under the settings' layout policy.
/// The split layouts give the top (or left) half to the first team and the
/// other half to the second; the random layouts only constrain the palette.
pub open spec fn spec_layout_cell_ok(s: SimSettings, i: int, p: Pixel) -> bool {
    let size = s.size as int;
    let x = i % size;
    let y = i / size;
    match s.layout {
        SimLayout::Empty => p == spec_black(),
        SimLayout::Horiz5050 => p == spec_painted(
            if y < size / 2 {
                s.teams@[0].color
            } else {
                s.teams@[1].color
            },
        ),
        SimLayout::Vert5050 => p == spec_painted(
            if x < size / 2 {
                s.teams@[0].color
            } else {
                s.teams@[1].color
            },
        ),
        SimLayout::Rand5050 => p == spec_painted(s.teams@[0].color) || p == spec_painted(
            s.teams@[1].color,
        ),
        SimLayout::Random => p == spec_white() || p == spec_black() || exists|t: int|
            0 <= t < s.teams@.len() && p == spec_painted(#[trigger] s.teams@[t].color),
    }
}

/// Every cell of the buffer is admissible under the layout policy.
pub open spec fn spec_layout_ok(s: SimSettings, cells: Seq<Pixel>) -> bool {
    forall|i: int| 0 <= i < cells.len() ==> spec_layout_cell_ok(s, i, #[trigger] cells[i])
}

/// A color as the populate step stores it: the channels kept, fully opaque.
pub open spec fn spec_painted(c: Pixel) -> Pixel {
    Pixel { r: c.r, g: c.g, b: c.b, a: 255 }
}

/// Stores a color fully opaque.
fn painted(c: Pixel) -> (p: Pixel)
    ensures
        p == spec_painted(c),
{
    Pixel { r: c.r, g: c.g, b: c.b, a: 255 }
}

/// Builds the initial generation buffer per the settings' layout policy.
#[verifier::loop_isolation(false)]
fn populate_grid(settings: &SimSettings) -> (g: Grid)
    requires
        spec_valid(*settings),
    ensures
        g.wf(),
        g.width == settings.size,
        g.height == settings.size,
        spec_layout_ok(*settings, g.cells@),
{
    let size = settings.size as usize;
    proof {
        assert(settings.size <= crate::settings::MAX_SIZE);
        assert((size as int) * (size as int) <= 512 * 512) by (nonlinear_arith)
            requires
                0 <= size <= 512,
        ;
    }
    let area = size * size;
    let mut cells: Vec<Pixel> = Vec::new();
    let mut i: usize = 0;
    while i < area
        invariant
            i <= area,
            cells@.len() == i,
            forall|j: int| 0 <= j < i ==> spec_layout_cell_ok(*settings, j, #[trigger] cells@[j]),
        decreases area - i,
    {
        let x = i % size;
        let y = i / size;
        let value = match settings.layout {
            SimLayout::Empty => black(),
            SimLayout::Horiz5050 => {
                if y < size / 2 {
                    painted(settings.teams[0].color)
                } else {
                    painted(settings.teams[1].color)
                }
            },
            SimLayout::Vert5050 => {
                if x < size / 2 {
                    painted(settings.teams[0].color)
                } else {
                    painted(settings.teams[1].color)
                }
            },
            SimLayout::Rand5050 => {
                if random_flag() {
                    painted(settings.teams[0].color)
                } else {
                    painted(settings.teams[1].color)
                }
            },
            SimLayout::Random => {
                let pick = random_below(settings.teams.len() + 2);
                if pick == 0 {
                    white()
                } else if pick == 1 {
                    black()
                } else {
                    painted(settings.teams[pick - 2].color)
                }
            },
        };
        cells.push(value);
        i += 1;
    }
    Grid { width: size, height: size, cells }
}

/// The whole simulation: lifecycle state, settings, gameplay counters and
/// the grid buffers (allocated while a run is open, freed when closed).
pub struct Simulation {
    pub state: SimState,
    pub settings: SimSettings,
    pub gameplay: SimGameplayState,
    pub buffers: Option<SimBuffers>,
}

/// The counters the turn machine watches: whether the simulation is ticking,
/// the tick count within the turn, and the acting player.
pub struct TurnView {
    pub running: bool,
    pub steps: int,
    pub player: int,
}

/// How one tick moves the turn counters: outside `Running` nothing moves;
/// a tick that reaches the turn length pauses, resets the counter and hands
/// the turn to the next player round-robin; any other tick just counts.
pub open spec fn spec_turn_step(m: TurnView, steps_per_turn: int, num_players: int) -> TurnView {
    if !m.running {
        m
    } else if m.steps + 1 >= steps_per_turn {
        TurnView { running: false, steps: 0, player: (m.player + 1) % num_players }
    } else {
        TurnView { running: true, steps: m.steps + 1, player: m.player }
    }
}

/// The turn machine after `k` ticks.
pub open spec fn spec_turn_step_n(m: TurnView, steps_per_turn: int, num_players: int, k: nat) -> TurnView
    decreases k,
{
    if k == 0 {
        m
    } else {
        spec_turn_step(
            spec_turn_step_n(m, steps_per_turn, num_players, (k - 1) as nat),
            steps_per_turn,
            num_players,
        )
    }
}

/// Turn rollover: from the start of a turn (`Running` with a zero counter),
/// the machine is still running with counter `j` after any `j < steps_per_turn`
/// ticks, and after exactly `steps_per_turn` ticks it is paused with the
/// counter reset and the acting player advanced by one, modulo the player
/// count.
pub proof fn lemma_turn_rollover(m: TurnView, steps_per_turn: int, num_players: int)
    requires
        m.running,
        m.steps == 0,
        1 <= steps_per_turn,
        1 <= num_players,
        0 <= m.player < num_players,
    ensures
        forall|j: int|
            0 <= j < steps_per_turn ==> #[trigger] spec_turn_step_n(
                m,
                steps_per_turn,
                num_players,
                j as nat,
            ) == (TurnView { running: true, steps: j, player: m.player }),
        spec_turn_step_n(m, steps_per_turn, num_players, steps_per_turn as nat) == (TurnView {
            running: false,
            steps: 0,
            player: (m.player + 1) % num_players,
        }),
{
    assert forall|j: int| 0 <= j < steps_per_turn implies #[trigger] spec_turn_step_n(
        m,
        steps_per_turn,
        num_players,
        j as nat,
    ) == (TurnView { running: true, steps: j, player: m.player }) by {
        lemma_turn_counts(m, steps_per_turn, num_players, j);
    }
    lemma_turn_counts(m, steps_per_turn, num_players, steps_per_turn - 1);
}

/// Induction step for `lemma_turn_rollover`.
proof fn lemma_turn_counts(m: TurnView, steps_per_turn: int, num_players: int, j: int)
    requires
        m.running,
        m.steps == 0,
        1 <= steps_per_turn,
        0 <= j < steps_per_turn,
    ensures
        spec_turn_step_n(m, steps_per_turn, num_players, j as nat) == (TurnView {
            running: true,
            steps: j,
            player: m.player,
        }),
    decreases j,
{
    if j > 0 {
        lemma_turn_counts(m, steps_per_turn, num_players, j - 1);
    }
}

impl Simulation {
    /// The turn counters of this simulation.
    pub open spec fn turn_view(self) -> TurnView {
        TurnView {
            running: self.state == SimState::Running,
            steps: self.gameplay.num_steps as int,
            player: self.gameplay.current_player as int,
        }
    }

    /// The buffers of an open run.
    pub open spec fn spec_bufs(self) -> SimBuffers {
        self.buffers->Some_0
    }

    /// The generation buffer currently exposed for reading.
    pub open spec fn spec_current_grid(self) -> Grid {
        self.spec_bufs().spec_current()
    }

    /// Well-formedness: buffers exist exactly while a run is open; while one
    /// is, the settings are valid, the buffers match the configured size,
    /// the acting player is a roster index, and while `Running` the turn
    /// counter has not reached the turn length.
    pub open spec fn wf(self) -> bool {
        match self.buffers {
            None => self.state == SimState::Closed,
            Some(b) => {
                &&& self.state != SimState::Closed && self.state != SimState::Init
                &&& spec_valid(self.settings)
                &&& b.wf(self.settings.size as int)
                &&& self.gameplay.current_player < self.settings.players@.len()
                &&& (self.state == SimState::Running ==> self.gameplay.num_steps
                    < self.settings.steps_per_turn)
            },
        }
    }

    /// A fresh simulation: closed, no buffers, the given settings on file.
    pub fn new(settings: SimSettings) -> (s: Simulation)
        ensures
            s.wf(),
            s.state == SimState::Closed,
            s.buffers is None,
            s.settings == settings,
            s.gameplay.current_stamp is None,
            s.gameplay.num_steps == 0,
            s.gameplay.current_player == 0,
    {
        Simulation {
            state: SimState::Closed,
            settings,
            gameplay: SimGameplayState { current_stamp: None, num_steps: 0, current_player: 0 },
            buffers: None,
        }
    }

    /// Starts a run: validates the settings, allocates the three buffers,
    /// populates the initial layout, resets the gameplay counters and comes
    /// to rest in `Paused`. Invalid settings are rejected with the exact
    /// validation error and nothing changes.
    pub fn start(&mut self, settings: SimSettings) -> (r: Result<(), SettingsError>)
        requires
            old(self).wf(),
            old(self).state == SimState::Closed,
        ensures
            final(self).wf(),
            spec_validate(settings) matches Err(e) ==> r == Err::<(), SettingsError>(e)
                && *final(self) == *old(self),
            spec_validate(settings) is Ok ==> r is Ok && spec_started(settings, *final(self)),
    {
        match settings.validate() {
            Err(e) => Err(e),
            Ok(()) => {
                let base = populate_grid(&settings);
                let copy_b = base.duplicate();
                let copy_p = base.duplicate();
                self.buffers = Some(
                    SimBuffers {
                        grid_a: base,
                        grid_b: copy_b,
                        preview: copy_p,
                        current_is_a: true,
                    },
                );
                self.gameplay = SimGameplayState {
                    current_stamp: None,
                    num_steps: 0,
                    current_player: 0,
                };
                self.settings = settings;
                self.state = SimState::Paused;
                Ok(())
            },
        }
    }

    /// Closes the run: drops the buffers and returns to `Closed`. Settings
    /// and gameplay are kept; they reset on the next start.
    pub fn close(&mut self)
        ensures
            final(self).wf(),
            final(self).state == SimState::Closed,
            final(self).buffers is None,
            final(self).settings == old(self).settings,
            final(self).gameplay == old(self).gameplay,
    {
        self.state = SimState::Closed;
        self.buffers = None;
    }

    /// One fixed-timestep tick. Outside `Running` this is a no-op. While
    /// `Running` it advances the grid one generation (splitting the work
    /// into `num_chunks` chunks, which never affects the result) and counts
    /// the tick; the tick that reaches the turn length commits the turn:
    /// every white (contested) cell of the new generation is repainted to
    /// the acting player's color, the committed buffer is copied into both
    /// generation buffers and the preview, the player index advances
    /// round-robin, and the run pauses.
    pub fn tick(&mut self, num_chunks: usize)
        requires
            old(self).wf(),
            1 <= num_chunks,
        ensures
            final(self).wf(),
            old(self).state != SimState::Running ==> *final(self) == *old(self),
            old(self).state == SimState::Running ==> spec_ticked(*old(self), *final(self)),
    {
        if !matches!(self.state, SimState::Running) {
            return ;
        }
        proof {
            assert(spec_players_have_teams(self.settings.players@, self.settings.teams@));
            assert(spec_team_exists(
                self.settings.teams@,
                self.settings.players@[self.gameplay.current_player as int].team,
            ));
        }
        let color = self.settings.get_player_color(self.gameplay.current_player);
        let steps = self.gameplay.num_steps + 1;
        let rollover = steps >= self.settings.steps_per_turn;
        match &mut self.buffers {
            Some(b) => {
                let next = if b.current_is_a {
                    next_generation(&b.grid_a, color, num_chunks)
                } else {
                    next_generation(&b.grid_b, color, num_chunks)
                };
                if b.current_is_a {
                    b.grid_b = next;
                    b.current_is_a = false;
                } else {
                    b.grid_a = next;
                    b.current_is_a = true;
                }
                if rollover {
                    if b.current_is_a {
                        commit_grid(&mut b.grid_a, color);
                        b.grid_b = b.grid_a.duplicate();
                        b.preview = b.grid_a.duplicate();
                    } else {
                        commit_grid(&mut b.grid_b, color);
                        b.grid_a = b.grid_b.duplicate();
                        b.preview = b.grid_b.duplicate();
                    }
                }
            },
            None => {
                proof {
                    assert(false);
                }
            },
        }
        if rollover {
            self.gameplay.num_steps = 0;
            self.gameplay.current_player = (self.gameplay.current_player + 1)
                % self.settings.players.len();
            self.state = SimState::Paused;
        } else {
            self.gameplay.num_steps = steps;
        }
    }

    /// Commits a stamp while paused: the stamp's opaque pixels are painted
    /// over the current generation, the result becomes the new baseline in
    /// both generation buffers and the preview, the per-turn counter resets,
    /// and the run starts ticking. Outside `Paused` the request is a no-op.
    pub fn stamp_committed(&mut self, stamp: &StampData, x0: usize, y0: usize)
        requires
            old(self).wf(),
            stamp.wf(),
        ensures
            final(self).wf(),
            old(self).state != SimState::Paused ==> *final(self) == *old(self),
            old(self).state == SimState::Paused ==> spec_stamp_committed(
                *old(self),
                *stamp,
                x0 as int,
                y0 as int,
                *final(self),
            ),
    {
        if !matches!(self.state, SimState::Paused) {
            return ;
        }
        match &mut self.buffers {
            Some(b) => {
                let mut base = if b.current_is_a {
                    b.grid_a.duplicate()
                } else {
                    b.grid_b.duplicate()
                };
                base.apply_stamp(stamp, x0, y0);
                b.grid_b = base.duplicate();
                b.preview = base.duplicate();
                b.grid_a = base;
                b.current_is_a = true;
            },
            None => {
                proof {
                    assert(false);
                }
            },
        }
        self.gameplay.num_steps = 0;
        self.state = SimState::Running;
    }

    /// Overlays a stamp onto the preview buffer (hover feedback) while
    /// paused: the preview becomes the current generation with the stamp
    /// painted on; the generation buffers stay untouched. Outside `Paused`
    /// the request is a no-op.
    pub fn preview_stamp(&mut self, stamp: &StampData, x0: usize, y0: usize)
        requires
            old(self).wf(),
            stamp.wf(),
        ensures
            final(self).wf(),
            old(self).state != SimState::Paused ==> *final(self) == *old(self),
            old(self).state == SimState::Paused ==> {
                &&& final(self).state == old(self).state
                &&& final(self).settings == old(self).settings
                &&& final(self).gameplay == old(self).gameplay
                &&& final(self).buffers is Some
                &&& final(self).spec_bufs().grid_a == old(self).spec_bufs().grid_a
                &&& final(self).spec_bufs().grid_b == old(self).spec_bufs().grid_b
                &&& final(self).spec_bufs().current_is_a == old(self).spec_bufs().current_is_a
                &&& final(self).spec_bufs().preview.width == old(self).spec_bufs().preview.width
                &&& final(self).spec_bufs().preview.height
                    == old(self).spec_bufs().preview.height
                &&& forall|x: int, y: int|
                    old(self).spec_current_grid().in_bounds(x, y)
                        ==> final(self).spec_bufs().preview.spec_at(x, y) == spec_stamped_at(
                        old(self).spec_current_grid(),
                        *stamp,
                        x0 as int,
                        y0 as int,
                        x,
                        y,
                    )
            },
    {
        if !matches!(self.state, SimState::Paused) {
            return ;
        }
        match &mut self.buffers {
            Some(b) => {
                let mut overlay = if b.current_is_a {
                    b.grid_a.duplicate()
                } else {
                    b.grid_b.duplicate()
                };
                overlay.apply_stamp(stamp, x0, y0);
                b.preview = overlay;
            },
            None => {
                proof {
                    assert(false);
                }
            },
        }
    }

    /// The current lifecycle state.
    pub fn state(&self) -> (s: SimState)
        ensures
            s == self.state,
    {
        self.state
    }

    /// The generation buffer currently exposed for reading.
    pub fn current_grid(&self) -> (g: &Grid)
        requires
            self.wf(),
            self.state != SimState::Closed,
        ensures
            *g == self.spec_current_grid(),
    {
        let b = self.buffers.as_ref().unwrap();
        b.current()
    }

    /// The preview buffer, for hover-feedback rendering.
    pub fn preview_grid(&self) -> (g: &Grid)
        requires
            self.wf(),
            self.state != SimState::Closed,
        ensures
            *g == self.spec_bufs().preview,
    {
        let b = self.buffers.as_ref().unwrap();
        &b.preview
    }

    /// The acting player's roster index.
    pub fn current_player(&self) -> (p: usize)
        ensures
            p == self.gameplay.current_player,
    {
        self.gameplay.current_player
    }

    /// Ticks elapsed within the current turn.
    pub fn num_steps(&self) -> (n: u32)
        ensures
            n == self.gameplay.num_steps,
    {
        self.gameplay.num_steps
    }

    /// Selects (or clears) the stamp a player will place next.
    pub fn set_stamp(&mut self, stamp: Option<String>)
        requires
            old(self).wf(),
        ensures
            final(self).wf(),
            final(self).state == old(self).state,
            final(self).settings == old(self).settings,
            final(self).buffers == old(self).buffers,
            final(self).gameplay.current_stamp == stamp,
            final(self).gameplay.num_steps == old(self).gameplay.num_steps,
            final(self).gameplay.current_player == old(self).gameplay.current_player,
    {
        self.gameplay.current_stamp = stamp;
    }

    /// The currently selected stamp name.
    pub fn selected_stamp(&self) -> (s: &Option<String>)
        ensures
            *s == self.gameplay.current_stamp,
    {
        &self.gameplay.current_stamp
    }
}

/// One inbound command to the lifecycle machine, consumed synchronously.
pub enum SimCommand {
    /// Start a run with these settings.
    Start(SimSettings),
    /// A player commits a stamp at the given top-left grid position.
    StampCommitted { stamp: StampData, x: usize, y: usize },
    /// Abandon the run.
    Close,
}

impl Simulation {
    /// Feeds one inbound command through the machine: `Start` drives
    /// `Closed → Init → Paused`, `StampCommitted` drives `Paused → Running`,
    /// and `Close` drops the run from any state.
    pub fn apply(&mut self, cmd: SimCommand) -> (r: Result<(), SettingsError>)
        requires
            old(self).wf(),
            cmd matches SimCommand::Start(_) ==> old(self).state == SimState::Closed,
            cmd matches SimCommand::StampCommitted { stamp, .. } ==> stamp.wf(),
        ensures
            final(self).wf(),
            cmd matches SimCommand::Start(settings) ==> {
                &&& (spec_validate(settings) matches Err(e) ==> r == Err::<(), SettingsError>(e)
                    && *final(self) == *old(self))
                &&& (spec_validate(settings) is Ok ==> r is Ok && spec_started(
                    settings,
                    *final(self),
                ))
            },
            cmd matches SimCommand::StampCommitted { stamp, x, y } ==> r is Ok && (if old(self).state
                == SimState::Paused {
                spec_stamp_committed(*old(self), stamp, x as int, y as int, *final(self))
            } else {
                *final(self) == *old(self)
            }),
            cmd is Close ==> r is Ok && final(self).state == SimState::Closed
                && final(self).buffers is None,
    {
        match cmd {
            SimCommand::Start(settings) => self.start(settings),
            SimCommand::StampCommitted { stamp, x, y } => {
                self.stamp_committed(&stamp, x, y);
                Ok(())
            },
            SimCommand::Close => {
                self.close();
                Ok(())
            },
        }
    }
}

/// What `start` establishes on success.
pub open spec fn spec_started(settings: SimSettings, post: Simulation) -> bool {
    &&& post.state == SimState::Paused
    &&& post.settings == settings
    &&& post.gameplay.current_stamp is None
    &&& post.gameplay.num_steps == 0
    &&& post.gameplay.current_player == 0
    &&& post.buffers is Some
    &&& post.spec_bufs().wf(settings.size as int)
    &&& post.spec_bufs().current_is_a
    &&& spec_layout_ok(settings, post.spec_bufs().grid_a.cells@)
    &&& post.spec_bufs().grid_b.cells@ == post.spec_bufs().grid_a.cells@
    &&& post.spec_bufs().preview.cells@ == post.spec_bufs().grid_a.cells@
}

/// What one `Running` tick establishes: the grid advances one generation of
/// the rule (independently of the chunk count), the turn counters move as
/// the turn machine says, and on the rollover tick the capture-commit runs
/// and all three buffers hold the committed generation.
pub open spec fn spec_ticked(pre: Simulation, post: Simulation) -> bool {
    let steps_per_turn = pre.settings.steps_per_turn as int;
    let num_players = pre.settings.players@.len() as int;
    let color = spec_player_color(pre.settings, pre.gameplay.current_player as int);
    let nxt = spec_next_cells(pre.spec_current_grid(), color);
    &&& post.settings == pre.settings
    &&& post.gameplay.current_stamp == pre.gameplay.current_stamp
    &&& post.turn_view() == spec_turn_step(pre.turn_view(), steps_per_turn, num_players)
    &&& post.buffers is Some
    &&& post.spec_bufs().wf(pre.settings.size as int)
    &&& post.spec_bufs().current_is_a == !pre.spec_bufs().current_is_a
    &&& if pre.gameplay.num_steps + 1 < steps_per_turn {
        &&& post.state == SimState::Running
        &&& post.spec_current_grid().cells@ == nxt
        &&& post.spec_bufs().spec_write() == pre.spec_current_grid()
        &&& post.spec_bufs().preview == pre.spec_bufs().preview
    } else {
        let committed = spec_commit_cells(nxt, color);
        &&& post.state == SimState::Paused
        &&& post.spec_current_grid().cells@ == committed
        &&& post.spec_bufs().grid_a.cells@ == committed
        &&& post.spec_bufs().grid_b.cells@ == committed
        &&& post.spec_bufs().preview.cells@ == committed
    }
}

/// What committing a stamp while paused establishes: the stamped current
/// generation becomes the baseline in all three buffers, the turn counter
/// resets, and the run is ticking.
pub open spec fn spec_stamp_committed(
    pre: Simulation,
    stamp: StampData,
    x0: int,
    y0: int,
    post: Simulation,
) -> bool {
    &&& post.state == SimState::Running
    &&& post.settings == pre.settings
    &&& post.gameplay.num_steps == 0
    &&& post.gameplay.current_player == pre.gameplay.current_player
    &&& post.gameplay.current_stamp == pre.gameplay.current_stamp
    &&& post.buffers is Some
    &&& post.spec_bufs().wf(pre.settings.size as int)
    &&& post.spec_bufs().current_is_a
    &&& post.spec_bufs().grid_b.cells@ == post.spec_bufs().grid_a.cells@
    &&& post.spec_bufs().preview.cells@ == post.spec_bufs().grid_a.cells@
    &&& forall|x: int, y: int|
        pre.spec_current_grid().in_bounds(x, y) ==> post.spec_bufs().grid_a.spec_at(x, y)
            == spec_stamped_at(pre.spec_current_grid(), stamp, x0, y0, x, y)
}

} // verus!
