use onchain_map::ledger::{EntryFault, LedgerError, RawEntry, Tables};
use onchain_map::map::generate_random_map_with_seed;
use onchain_map::state::{
    menu_button_event, App, AppState, InputEvent, MenuButtonAction, Player, World,
};

fn raw(address: &str, score: &str) -> RawEntry {
    RawEntry { address: Some(address.to_string()), score: Some(score.to_string()) }
}

fn no_move() -> InputEvent {
    InputEvent::Move { up: false, down: false, left: false, right: false }
}

fn app_in_finished(seed: u32) -> App {
    let mut app = App::new();
    app.set_map_randomness(seed);
    app.tick(&Vec::new());
    assert_eq!(app.state, AppState::Finished);
    app
}

#[test]
fn a_fresh_app_waits_in_setup() {
    let mut app = App::new();
    assert_eq!(app.state, AppState::Setup);
    assert_eq!(app.seed.read(), 0);
    assert!(app.world.is_none());
    app.tick(&Vec::new());
    assert_eq!(app.state, AppState::Setup);
}

#[test]
fn seed_zero_keeps_the_machine_in_setup() {
    let mut app = App::new();
    app.set_map_randomness(0);
    app.tick(&Vec::new());
    app.tick(&vec![InputEvent::Reset, InputEvent::ToggleLedger(true), no_move()]);
    assert_eq!(app.state, AppState::Setup);
    assert!(app.world.is_none());
}

#[test]
fn a_nonzero_seed_builds_and_finishes_in_one_pass() {
    let mut app = App::new();
    app.set_map_randomness(7);
    assert_eq!(app.state, AppState::Setup);
    app.tick(&Vec::new());
    assert_eq!(app.state, AppState::Finished);
    let world = app.world.as_ref().expect("world built");
    assert_eq!(world.grid.len(), 10_000);
    assert_eq!(world.player.pos_x, 0);
    assert_eq!(world.player.pos_y, 0);
}

#[test]
fn the_built_grid_matches_the_seeded_generator() {
    let app = app_in_finished(42);
    let expected = generate_random_map_with_seed(42);
    let world = app.world.as_ref().unwrap();
    for y in 0..100 {
        for x in 0..100 {
            assert_eq!(world.grid.get_value(x, y), expected.get_value(x, y));
        }
    }
}

#[test]
fn movement_applies_all_active_directions() {
    let mut app = app_in_finished(7);
    app.handle_event(InputEvent::Move { up: true, down: false, left: false, right: true });
    let player = &app.world.as_ref().unwrap().player;
    assert_eq!((player.pos_x, player.pos_y), (1, 1));
    app.handle_event(InputEvent::Move { up: false, down: true, left: true, right: false });
    let player = &app.world.as_ref().unwrap().player;
    assert_eq!((player.pos_x, player.pos_y), (0, 0));
}

#[test]
fn opposing_keys_cancel_out() {
    let mut app = app_in_finished(7);
    app.handle_event(InputEvent::Move { up: true, down: true, left: true, right: true });
    let player = &app.world.as_ref().unwrap().player;
    assert_eq!((player.pos_x, player.pos_y), (0, 0));
}

#[test]
fn movement_resets_the_cooldown_and_idle_input_does_not() {
    let grid = generate_random_map_with_seed(7);
    let mut app = app_in_finished(7);
    app.world = Some(World {
        grid,
        player: Player { pos_x: 3, pos_y: 4, move_cooldown: 9 },
    });
    app.handle_event(no_move());
    let player = &app.world.as_ref().unwrap().player;
    assert_eq!((player.pos_x, player.pos_y, player.move_cooldown), (3, 4, 9));
    app.handle_event(InputEvent::Move { up: true, down: false, left: false, right: false });
    let player = &app.world.as_ref().unwrap().player;
    assert_eq!((player.pos_x, player.pos_y, player.move_cooldown), (3, 5, 0));
}

#[test]
fn movement_saturates_at_the_edge_of_the_coordinate_range() {
    let grid = generate_random_map_with_seed(7);
    let mut app = app_in_finished(7);
    app.world = Some(World {
        grid,
        player: Player { pos_x: i64::MAX, pos_y: i64::MIN, move_cooldown: 0 },
    });
    app.handle_event(InputEvent::Move { up: false, down: true, left: false, right: true });
    let player = &app.world.as_ref().unwrap().player;
    assert_eq!((player.pos_x, player.pos_y), (i64::MAX, i64::MIN));
}

#[test]
fn movement_before_build_is_a_no_op() {
    let mut app = App::new();
    app.handle_event(InputEvent::Move { up: true, down: false, left: false, right: false });
    assert_eq!(app.state, AppState::Setup);
    assert!(app.world.is_none());
}

#[test]
fn reset_rebuilds_the_world_and_resets_the_player() {
    let mut app = app_in_finished(42);
    app.handle_event(InputEvent::Move { up: true, down: false, left: false, right: true });
    app.tick(&vec![InputEvent::Reset]);
    assert_eq!(app.state, AppState::Finished);
    let world = app.world.as_ref().expect("world rebuilt");
    assert_eq!(world.grid.len(), 10_000);
    assert_eq!((world.player.pos_x, world.player.pos_y), (0, 0));
    let expected = generate_random_map_with_seed(42);
    for y in 0..100 {
        for x in 0..100 {
            assert_eq!(world.grid.get_value(x, y), expected.get_value(x, y));
        }
    }
}

#[test]
fn reset_outside_finished_is_ignored() {
    let mut app = App::new();
    app.tick(&vec![InputEvent::Reset]);
    assert_eq!(app.state, AppState::Setup);
}

#[test]
fn the_ledger_opens_on_the_economic_tab() {
    let mut app = app_in_finished(7);
    assert!(app.set_economic_victory_leaderboard(vec![raw("eco", "1")]).is_ok());
    assert!(app.set_cultural_victory_leaderboard(vec![raw("cul", "2")]).is_ok());
    app.tick(&vec![InputEvent::ToggleLedger(true)]);
    assert_eq!(app.state, AppState::Ledger);
    assert_eq!(app.ledger_tab, Some(Tables::EconomicVictory));
    let rows = app.displayed_rows().expect("ledger open");
    assert_eq!(rows.len(), 1);
    assert_eq!(rows[0].address, "eco");
}

#[test]
fn tab_switch_shows_only_the_new_category() {
    let mut app = app_in_finished(7);
    assert!(app.set_economic_victory_leaderboard(vec![raw("eco", "1")]).is_ok());
    assert!(app.set_cultural_victory_leaderboard(vec![raw("cul", "2"), raw("cul2", "3")]).is_ok());
    app.tick(&vec![InputEvent::ToggleLedger(true)]);
    app.tick(&vec![InputEvent::SwitchTab(Tables::CulturalVictory)]);
    assert_eq!(app.ledger_tab, Some(Tables::CulturalVictory));
    let rows = app.displayed_rows().expect("ledger open");
    assert_eq!(rows.len(), 2);
    assert_eq!(rows[0].address, "cul");
    assert_eq!(rows[1].address, "cul2");
}

#[test]
fn hiding_the_ledger_returns_to_finished() {
    let mut app = app_in_finished(7);
    app.tick(&vec![InputEvent::ToggleLedger(true)]);
    assert_eq!(app.state, AppState::Ledger);
    app.tick(&vec![InputEvent::ToggleLedger(false)]);
    assert_eq!(app.state, AppState::Finished);
    assert!(app.ledger_tab.is_none());
    assert!(app.displayed_rows().is_none());
}

#[test]
fn last_toggle_request_of_a_tick_wins() {
    let mut app = app_in_finished(7);
    app.tick(&vec![InputEvent::ToggleLedger(true), InputEvent::ToggleLedger(false)]);
    assert_eq!(app.state, AppState::Finished);
}

#[test]
fn leaderboard_updates_are_accepted_in_any_state() {
    let mut app = App::new();
    assert!(app.set_diplomatic_victory_leaderboard(vec![raw("dip", "8")]).is_ok());
    assert_eq!(app.ledger.get(Tables::DiplomaticVictory).len(), 1);
    assert_eq!(app.state, AppState::Setup);
}

#[test]
fn a_malformed_update_through_the_app_changes_nothing() {
    let mut app = App::new();
    assert!(app.set_economic_victory_leaderboard(vec![raw("keep", "1")]).is_ok());
    let bad = RawEntry { address: None, score: Some("2".to_string()) };
    let result = app.set_economic_victory_leaderboard(vec![bad]);
    assert_eq!(
        result,
        Err(LedgerError { category: Tables::EconomicVictory, fault: EntryFault::MissingAddress })
    );
    let board = app.ledger.get(Tables::EconomicVictory);
    assert_eq!(board.len(), 1);
    assert_eq!(board[0].address, "keep");
}

#[test]
fn build_is_entered_and_left_within_one_pass() {
    let mut app = App::new();
    app.set_map_randomness(7);
    assert_eq!(app.state, AppState::Setup);
    app.onchain_events();
    assert_eq!(app.state, AppState::Build);
    app.generate_world();
    assert_eq!(app.state, AppState::Finished);
    assert!(app.world.is_some());
}

#[test]
fn cleanup_destroys_the_whole_world_at_once() {
    let mut app = app_in_finished(7);
    assert!(app.world.is_some());
    app.cleanup();
    assert!(app.world.is_none());
    assert_eq!(app.state, AppState::Finished);
}

#[test]
fn menu_buttons_map_to_events() {
    assert_eq!(
        menu_button_event(&MenuButtonAction::Reset, AppState::Finished),
        InputEvent::Reset
    );
    assert_eq!(
        menu_button_event(&MenuButtonAction::Ledger, AppState::Finished),
        InputEvent::ToggleLedger(true)
    );
    assert_eq!(
        menu_button_event(&MenuButtonAction::Ledger, AppState::Ledger),
        InputEvent::ToggleLedger(false)
    );
}
