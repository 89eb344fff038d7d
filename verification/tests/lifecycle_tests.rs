use territory_sim::grid::StampData;
use territory_sim::lifecycle::{SimCommand, SimState, Simulation};
use territory_sim::pixel::{Pixel, black, white};
use territory_sim::settings::{
    layout_name, parse_layout, LayoutError, Player, SettingsError, SimLayout, SimSettings, Team,
};

fn red() -> Pixel {
    Pixel { r: 255, g: 0, b: 0, a: 255 }
}

fn blue() -> Pixel {
    Pixel { r: 0, g: 0, b: 255, a: 255 }
}

fn team(id: u8, name: &str, color: Pixel) -> Team {
    Team { id, name: name.to_string(), players: vec![id], color }
}

fn settings(size: u32, steps_per_turn: u32, layout: SimLayout) -> SimSettings {
    SimSettings {
        teams: vec![team(0, "Red", red()), team(1, "Blue", blue())],
        players: vec![
            Player { id: 0, name: "Player 1".to_string(), team: 0 },
            Player { id: 1, name: "Player 2".to_string(), team: 1 },
        ],
        size,
        timestep: 10,
        steps_per_turn,
        layout,
        use_compute: false,
    }
}

fn single_white_stamp() -> StampData {
    StampData { width: 1, height: 1, pixels: vec![white()] }
}

/// Lifecycle: from `Closed`, a valid start comes to rest in `Paused` with a
/// buffer matching the layout policy (all-black for `Empty`).
#[test]
fn start_with_empty_layout_gives_paused_black_grid() {
    let mut sim = Simulation::new(settings(8, 5, SimLayout::Empty));
    assert_eq!(sim.state(), SimState::Closed);
    let r = sim.start(settings(8, 5, SimLayout::Empty));
    assert!(r.is_ok());
    assert_eq!(sim.state(), SimState::Paused);
    assert_eq!(sim.current_player(), 0);
    assert_eq!(sim.num_steps(), 0);
    let g = sim.current_grid();
    assert_eq!(g.width, 8);
    assert_eq!(g.height, 8);
    for p in &g.cells {
        assert_eq!(*p, black());
    }
}

#[test]
fn start_with_invalid_settings_rejects_and_stays_closed() {
    let mut sim = Simulation::new(settings(8, 5, SimLayout::Empty));
    let mut bad = settings(33, 5, SimLayout::Empty);
    assert_eq!(sim.start(bad.clone()), Err(SettingsError::SizeNotPowerOfTwo));
    assert_eq!(sim.state(), SimState::Closed);
    bad = settings(1024, 5, SimLayout::Empty);
    assert_eq!(sim.start(bad), Err(SettingsError::SizeTooLarge));
    assert_eq!(sim.state(), SimState::Closed);
}

#[test]
fn validation_reports_each_error() {
    assert_eq!(settings(16, 3, SimLayout::Empty).validate(), Ok(()));
    let mut s = settings(0, 3, SimLayout::Empty);
    assert_eq!(s.validate(), Err(SettingsError::SizeNotPowerOfTwo));
    s = settings(16, 3, SimLayout::Empty);
    s.timestep = 0;
    assert_eq!(s.validate(), Err(SettingsError::ZeroTimestep));
    s = settings(16, 0, SimLayout::Empty);
    assert_eq!(s.validate(), Err(SettingsError::ZeroStepsPerTurn));
    s = settings(16, 3, SimLayout::Empty);
    s.teams = vec![];
    assert_eq!(s.validate(), Err(SettingsError::NoTeams));
    s = settings(16, 3, SimLayout::Empty);
    s.players = vec![];
    assert_eq!(s.validate(), Err(SettingsError::NoPlayers));
    s = settings(16, 3, SimLayout::Empty);
    s.teams[1].color = black();
    assert_eq!(s.validate(), Err(SettingsError::ReservedTeamColor));
    s = settings(16, 3, SimLayout::Empty);
    s.teams[0].color = white();
    assert_eq!(s.validate(), Err(SettingsError::ReservedTeamColor));
    s = settings(16, 3, SimLayout::Horiz5050);
    s.teams.pop();
    s.players.pop();
    assert_eq!(s.validate(), Err(SettingsError::TooFewTeamsForLayout));
    s = settings(16, 3, SimLayout::Empty);
    s.players[1].team = 9;
    assert_eq!(s.validate(), Err(SettingsError::PlayerWithoutTeam));
    s = settings(16, 3, SimLayout::Empty);
    s.teams = (0..257).map(|i| team((i % 256) as u8, "T", red())).collect();
    assert_eq!(s.validate(), Err(SettingsError::TooManyTeams));
    s = settings(16, 3, SimLayout::Empty);
    s.players = (0..257)
        .map(|i| Player { id: (i % 256) as u8, name: "P".to_string(), team: 0 })
        .collect();
    assert_eq!(s.validate(), Err(SettingsError::TooManyPlayers));
}

#[test]
fn layout_names_parse_and_round_trip() {
    for layout in [
        SimLayout::Random,
        SimLayout::Horiz5050,
        SimLayout::Vert5050,
        SimLayout::Rand5050,
        SimLayout::Empty,
    ] {
        let name = layout_name(layout);
        assert_eq!(parse_layout(&name), Ok(layout));
    }
    assert_eq!(parse_layout("50/50 Horizontal"), Ok(SimLayout::Horiz5050));
    assert_eq!(parse_layout("No such layout"), Err(LayoutError::UnknownLayout));
    assert_eq!(parse_layout("random"), Err(LayoutError::UnknownLayout));
}

#[test]
fn split_layouts_give_each_half_to_one_team() {
    let mut sim = Simulation::new(settings(8, 5, SimLayout::Empty));
    sim.start(settings(8, 5, SimLayout::Horiz5050)).unwrap();
    {
        let g = sim.current_grid();
        for y in 0..8 {
            for x in 0..8 {
                let expected = if y < 4 { red() } else { blue() };
                assert_eq!(g.at(x, y), expected, "horizontal split at ({x},{y})");
            }
        }
    }
    sim.close();
    sim.start(settings(8, 5, SimLayout::Vert5050)).unwrap();
    let g = sim.current_grid();
    for y in 0..8 {
        for x in 0..8 {
            let expected = if x < 4 { red() } else { blue() };
            assert_eq!(g.at(x, y), expected, "vertical split at ({x},{y})");
        }
    }
}

#[test]
fn random_layouts_stay_within_their_palettes() {
    let mut sim = Simulation::new(settings(16, 5, SimLayout::Empty));
    sim.start(settings(16, 5, SimLayout::Random)).unwrap();
    for p in &sim.current_grid().cells {
        assert!(
            *p == black() || *p == white() || *p == red() || *p == blue(),
            "unexpected pixel {p:?} in Random layout"
        );
    }
    sim.close();
    sim.start(settings(16, 5, SimLayout::Rand5050)).unwrap();
    for p in &sim.current_grid().cells {
        assert!(*p == red() || *p == blue(), "unexpected pixel {p:?} in Rand5050 layout");
    }
}

/// Scenario: a 4x4 empty board, three steps per turn. A single contested
/// cell is stamped at (1,1); it has no neighbors, so it dies on the first
/// tick and causes no births. After exactly three ticks the turn commits:
/// nothing is left white, the board is black again, the run is paused and
/// the acting player has advanced to the second player.
#[test]
fn single_stamp_scenario_on_empty_board() {
    let mut sim = Simulation::new(settings(4, 3, SimLayout::Empty));
    sim.start(settings(4, 3, SimLayout::Empty)).unwrap();
    for p in &sim.current_grid().cells {
        assert_eq!(*p, black());
    }
    let stamp = single_white_stamp();
    sim.stamp_committed(&stamp, 1, 1);
    assert_eq!(sim.state(), SimState::Running);
    assert_eq!(sim.current_grid().at(1, 1), white());
    for _ in 0..3 {
        assert_eq!(sim.state(), SimState::Running);
        sim.tick(2);
    }
    assert_eq!(sim.state(), SimState::Paused);
    assert_eq!(sim.current_player(), 1);
    assert_eq!(sim.num_steps(), 0);
    for p in &sim.current_grid().cells {
        assert_ne!(*p, white());
        assert_eq!(*p, black());
    }
}

/// Turn rollover: with ten steps per turn and two players, the run stays
/// `Running` through nine ticks and returns to `Paused` on the tenth, with
/// every contested cell repainted to the then-acting player's color and the
/// player index advanced by one modulo the player count.
#[test]
fn turn_rollover_after_exactly_ten_ticks() {
    let mut sim = Simulation::new(settings(8, 10, SimLayout::Empty));
    sim.start(settings(8, 10, SimLayout::Empty)).unwrap();
    let stamp = StampData { width: 3, height: 1, pixels: vec![white(), white(), white()] };
    sim.stamp_committed(&stamp, 2, 3);
    // Oracle: advance the stamped board ten generations by hand.
    let mut oracle = sim.current_grid().duplicate();
    for i in 1..=9u32 {
        sim.tick(1);
        oracle = territory_sim::executor::next_generation(&oracle, red(), 1);
        assert_eq!(sim.state(), SimState::Running, "tick {i}");
        assert_eq!(sim.num_steps(), i);
        assert_eq!(sim.current_player(), 0);
        assert_eq!(sim.current_grid().cells, oracle.cells, "generation {i}");
    }
    sim.tick(1);
    oracle = territory_sim::executor::next_generation(&oracle, red(), 1);
    assert_eq!(sim.state(), SimState::Paused);
    assert_eq!(sim.num_steps(), 0);
    assert_eq!(sim.current_player(), 1);
    // Every contested (white) cell of the tenth generation was repainted to
    // player 0's (Red's) color; everything else is unchanged.
    let g = sim.current_grid();
    let mut painted = 0;
    for (i, p) in g.cells.iter().enumerate() {
        if oracle.cells[i] == white() {
            assert_eq!(*p, red(), "cell {i} was contested and must be red");
            painted += 1;
        } else {
            assert_eq!(*p, oracle.cells[i], "cell {i} must be untouched by the commit");
        }
        assert_ne!(*p, white());
    }
    assert!(painted > 0, "the pattern should still hold contested cells at the commit");
    // The committed board is the baseline everywhere.
    assert_eq!(sim.preview_grid().cells, g.cells);
}

#[test]
fn second_turn_commits_with_second_players_color() {
    let mut sim = Simulation::new(settings(8, 1, SimLayout::Empty));
    sim.start(settings(8, 1, SimLayout::Empty)).unwrap();
    let blinker = StampData { width: 3, height: 1, pixels: vec![white(), white(), white()] };
    sim.stamp_committed(&blinker, 2, 3);
    sim.tick(1);
    assert_eq!(sim.state(), SimState::Paused);
    assert_eq!(sim.current_player(), 1);
    // Player 1 (Blue) stamps the same shape again; the next commit paints
    // blue.
    sim.stamp_committed(&blinker, 2, 3);
    sim.tick(1);
    assert_eq!(sim.state(), SimState::Paused);
    assert_eq!(sim.current_player(), 0);
    let g = sim.current_grid();
    let mut saw_blue = false;
    for p in &g.cells {
        assert_ne!(*p, white());
        if *p == blue() {
            saw_blue = true;
        }
    }
    assert!(saw_blue);
}

#[test]
fn preview_stamp_overlays_without_touching_generations() {
    let mut sim = Simulation::new(settings(4, 3, SimLayout::Empty));
    sim.start(settings(4, 3, SimLayout::Empty)).unwrap();
    let stamp = single_white_stamp();
    sim.preview_stamp(&stamp, 2, 2);
    assert_eq!(sim.preview_grid().at(2, 2), white());
    assert_eq!(sim.current_grid().at(2, 2), black());
    assert_eq!(sim.state(), SimState::Paused);
}

#[test]
fn transparent_and_cropped_stamp_pixels_paint_nothing() {
    let mut sim = Simulation::new(settings(4, 3, SimLayout::Empty));
    sim.start(settings(4, 3, SimLayout::Empty)).unwrap();
    let stamp = StampData {
        width: 2,
        height: 1,
        pixels: vec![Pixel { r: 9, g: 9, b: 9, a: 0 }, Pixel { r: 10, g: 20, b: 30, a: 7 }],
    };
    // The transparent pixel leaves (3,3) alone; the opaque one falls off the
    // grid and is cropped.
    sim.stamp_committed(&stamp, 3, 3);
    let g = sim.current_grid();
    for p in &g.cells {
        assert_eq!(*p, black());
    }
}

#[test]
fn stamped_pixels_are_stored_fully_opaque() {
    let mut sim = Simulation::new(settings(4, 3, SimLayout::Empty));
    sim.start(settings(4, 3, SimLayout::Empty)).unwrap();
    let stamp = StampData {
        width: 1,
        height: 1,
        pixels: vec![Pixel { r: 10, g: 20, b: 30, a: 7 }],
    };
    sim.stamp_committed(&stamp, 0, 0);
    assert_eq!(sim.current_grid().at(0, 0), Pixel { r: 10, g: 20, b: 30, a: 255 });
}

#[test]
fn tick_outside_running_and_stamp_outside_paused_are_no_ops() {
    let mut sim = Simulation::new(settings(4, 3, SimLayout::Empty));
    sim.tick(1);
    assert_eq!(sim.state(), SimState::Closed);
    sim.start(settings(4, 3, SimLayout::Empty)).unwrap();
    sim.tick(1);
    assert_eq!(sim.state(), SimState::Paused);
    assert_eq!(sim.num_steps(), 0);
    let stamp = single_white_stamp();
    sim.stamp_committed(&stamp, 1, 1);
    assert_eq!(sim.state(), SimState::Running);
    // A second commit while running changes nothing.
    sim.stamp_committed(&stamp, 2, 2);
    assert_eq!(sim.current_grid().at(2, 2), black());
}

#[test]
fn close_drops_the_run_from_any_state() {
    let mut sim = Simulation::new(settings(4, 3, SimLayout::Empty));
    sim.start(settings(4, 3, SimLayout::Empty)).unwrap();
    sim.stamp_committed(&single_white_stamp(), 1, 1);
    assert_eq!(sim.state(), SimState::Running);
    sim.close();
    assert_eq!(sim.state(), SimState::Closed);
    // A fresh start is possible after closing.
    assert!(sim.start(settings(4, 3, SimLayout::Empty)).is_ok());
    assert_eq!(sim.state(), SimState::Paused);
}

#[test]
fn commands_drive_the_machine() {
    let mut sim = Simulation::new(settings(4, 3, SimLayout::Empty));
    assert!(sim.apply(SimCommand::Start(settings(4, 3, SimLayout::Empty))).is_ok());
    assert_eq!(sim.state(), SimState::Paused);
    assert!(
        sim.apply(SimCommand::StampCommitted { stamp: single_white_stamp(), x: 1, y: 1 }).is_ok()
    );
    assert_eq!(sim.state(), SimState::Running);
    assert!(sim.apply(SimCommand::Close).is_ok());
    assert_eq!(sim.state(), SimState::Closed);
}

#[test]
fn player_colors_follow_team_membership() {
    let s = settings(8, 5, SimLayout::Empty);
    assert_eq!(s.get_player_color(0), red());
    assert_eq!(s.get_player_color(1), blue());
}

#[test]
fn stamp_sizes_scale_with_grid_size() {
    assert_eq!(SimSettings::stamp_size_from_sim_size(16), 8);
    assert_eq!(SimSettings::stamp_size_from_sim_size(32), 8);
    assert_eq!(SimSettings::stamp_size_from_sim_size(33), 16);
    assert_eq!(SimSettings::stamp_size_from_sim_size(64), 16);
    assert_eq!(SimSettings::stamp_size_from_sim_size(65), 32);
    assert_eq!(SimSettings::stamp_size_from_sim_size(512), 32);
}

#[test]
fn default_settings_match_the_documented_values() {
    let s = SimSettings::default();
    assert!(s.teams.is_empty());
    assert!(s.players.is_empty());
    assert_eq!(s.size, 32);
    assert_eq!(s.timestep, 10);
    assert_eq!(s.steps_per_turn, 100);
    assert_eq!(s.layout, SimLayout::Random);
    assert!(!s.use_compute);
    // Defaults alone cannot start a run: the rosters are empty.
    assert_eq!(s.validate(), Err(SettingsError::NoTeams));
}

#[test]
fn selected_stamp_is_stored_and_cleared() {
    let mut sim = Simulation::new(settings(4, 3, SimLayout::Empty));
    assert_eq!(*sim.selected_stamp(), None);
    sim.set_stamp(Some("Star".to_string()));
    assert_eq!(sim.selected_stamp().as_deref(), Some("Star"));
    sim.set_stamp(None);
    assert_eq!(*sim.selected_stamp(), None);
}
