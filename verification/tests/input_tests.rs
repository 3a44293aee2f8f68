use game_of_life::input::cell_under_pointer;
use game_of_life::{CursorIcon, GameMode, GameOfLife, InputEvent, Key, PointerState};

fn live_cells(game: &GameOfLife) -> Vec<usize> {
    let mut live = Vec::new();
    for i in 0..game.memory.len() {
        if game.memory.get(i) == Ok(1) {
            live.push(i);
        }
    }
    live
}

fn idle() -> PointerState {
    PointerState { x: 0, y: 0, left: false, right: false }
}

fn editing() -> GameOfLife {
    let mut game = GameOfLife::new();
    game.set_mode(GameMode::Edit);
    game
}

#[test]
fn the_cell_under_the_pointer() {
    assert_eq!(cell_under_pointer(0, 0), 0);
    assert_eq!(cell_under_pointer(15, 15), 0);
    assert_eq!(cell_under_pointer(16, 0), 1);
    assert_eq!(cell_under_pointer(0, 16), 50);
    assert_eq!(cell_under_pointer(100, 200), 12 * 50 + 6);
    assert_eq!(cell_under_pointer(799, 479), 1499);
}

#[test]
fn the_cell_under_a_pointer_beyond_the_window() {
    assert_eq!(cell_under_pointer(800, 0), 0);
    assert_eq!(cell_under_pointer(0, 480), 0);
    assert_eq!(cell_under_pointer(816, 496), 51);
    assert_eq!(cell_under_pointer(u32::MAX, 0), (u32::MAX / 16 % 50) as usize);
    assert_eq!(cell_under_pointer(0, u32::MAX), (u32::MAX / 16 % 30 * 50) as usize);
    assert!(cell_under_pointer(u32::MAX, u32::MAX) < 1500);
}

#[test]
fn the_primary_button_paints_while_editing() {
    let mut game = editing();
    let pointer = PointerState { x: 100, y: 200, left: true, right: false };
    let outcome = game.handle_events(&pointer, &vec![]);
    assert!(outcome.running);
    assert!(outcome.cursors.is_empty());
    assert_eq!(live_cells(&game), vec![606]);
    game.handle_events(&pointer, &vec![]);
    assert_eq!(live_cells(&game), vec![606]);
}

#[test]
fn the_secondary_button_erases_while_editing() {
    let mut game = editing();
    game.memory.set(606, 1).unwrap();
    game.memory.set(607, 1).unwrap();
    let pointer = PointerState { x: 100, y: 200, left: false, right: true };
    game.handle_events(&pointer, &vec![]);
    assert_eq!(live_cells(&game), vec![607]);
}

#[test]
fn the_primary_button_wins_over_the_secondary() {
    let mut game = editing();
    let pointer = PointerState { x: 100, y: 200, left: true, right: true };
    game.handle_events(&pointer, &vec![]);
    assert_eq!(live_cells(&game), vec![606]);
}

#[test]
fn a_pointer_without_buttons_edits_nothing() {
    let mut game = editing();
    game.memory.set(606, 1).unwrap();
    let pointer = PointerState { x: 100, y: 200, left: false, right: false };
    game.handle_events(&pointer, &vec![]);
    assert_eq!(live_cells(&game), vec![606]);
}

#[test]
fn the_pointer_edits_nothing_while_playing() {
    let mut game = GameOfLife::new();
    game.memory.set(606, 1).unwrap();
    let paint = PointerState { x: 300, y: 50, left: true, right: false };
    let erase = PointerState { x: 100, y: 200, left: false, right: true };
    game.handle_events(&paint, &vec![]);
    game.handle_events(&erase, &vec![]);
    assert_eq!(live_cells(&game), vec![606]);

    let mut same_input_while_editing = editing();
    same_input_while_editing.memory.set(606, 1).unwrap();
    same_input_while_editing.handle_events(&paint, &vec![]);
    same_input_while_editing.handle_events(&erase, &vec![]);
    assert_eq!(live_cells(&same_input_while_editing), vec![168]);
}

#[test]
fn the_pointer_edits_nothing_while_stopped() {
    let mut game = GameOfLife::new();
    game.set_mode(GameMode::Stop);
    let paint = PointerState { x: 300, y: 50, left: true, right: false };
    game.handle_events(&paint, &vec![]);
    assert_eq!(live_cells(&game), Vec::<usize>::new());
}

#[test]
fn a_pointer_beyond_the_window_edits_the_cell_it_wraps_to() {
    let mut game = editing();
    let beyond = PointerState { x: 816, y: 496, left: true, right: false };
    game.handle_events(&beyond, &vec![]);
    assert_eq!(live_cells(&game), vec![51]);
}

#[test]
fn the_pointer_is_applied_in_the_mode_the_frame_starts_in() {
    let mut game = GameOfLife::new();
    let paint = PointerState { x: 100, y: 200, left: true, right: false };
    let outcome = game.handle_events(&paint, &vec![InputEvent::KeyUp(Key::Return)]);
    assert_eq!(game.mode, GameMode::Edit);
    assert_eq!(outcome.cursors, vec![CursorIcon::Edit]);
    assert_eq!(live_cells(&game), Vec::<usize>::new());

    let outcome = game.handle_events(&paint, &vec![InputEvent::KeyUp(Key::Return)]);
    assert_eq!(game.mode, GameMode::Play);
    assert_eq!(outcome.cursors, vec![CursorIcon::Play]);
    assert_eq!(live_cells(&game), vec![606]);
}

#[test]
fn the_release_of_return_toggles_the_mode() {
    let mut game = GameOfLife::new();
    let outcome = game.handle_events(&idle(), &vec![InputEvent::KeyUp(Key::Return)]);
    assert!(outcome.running);
    assert_eq!(outcome.cursors, vec![CursorIcon::Edit]);
    assert_eq!(game.mode, GameMode::Edit);
    let outcome = game.handle_events(&idle(), &vec![InputEvent::KeyUp(Key::Return)]);
    assert_eq!(outcome.cursors, vec![CursorIcon::Play]);
    assert_eq!(game.mode, GameMode::Play);
}

#[test]
fn two_toggles_in_one_frame_lead_back() {
    let mut game = GameOfLife::new();
    let events =
        vec![InputEvent::KeyUp(Key::Return), InputEvent::Other, InputEvent::KeyUp(Key::Return)];
    let outcome = game.handle_events(&idle(), &events);
    assert_eq!(game.mode, GameMode::Play);
    assert_eq!(outcome.cursors, vec![CursorIcon::Edit, CursorIcon::Play]);

    let mut game = editing();
    let outcome = game.handle_events(&idle(), &events);
    assert_eq!(game.mode, GameMode::Edit);
    assert_eq!(outcome.cursors, vec![CursorIcon::Play, CursorIcon::Edit]);
}

#[test]
fn the_toggle_does_nothing_while_stopped() {
    let mut game = GameOfLife::new();
    game.set_mode(GameMode::Stop);
    let outcome = game.handle_events(&idle(), &vec![InputEvent::KeyUp(Key::Return)]);
    assert_eq!(game.mode, GameMode::Stop);
    assert!(outcome.cursors.is_empty());
    assert!(outcome.running);
}

#[test]
fn the_press_of_return_does_nothing() {
    let mut game = GameOfLife::new();
    let outcome = game.handle_events(&idle(), &vec![InputEvent::KeyDown(Key::Return)]);
    assert_eq!(game.mode, GameMode::Play);
    assert!(outcome.cursors.is_empty());
}

#[test]
fn the_release_of_f1_flips_the_theme() {
    let mut game = GameOfLife::new();
    game.handle_events(&idle(), &vec![InputEvent::KeyUp(Key::F1)]);
    assert!(!game.dark);
    game.handle_events(&idle(), &vec![InputEvent::KeyUp(Key::F1)]);
    assert!(game.dark);
    game.handle_events(
        &idle(),
        &vec![InputEvent::KeyUp(Key::F1), InputEvent::KeyUp(Key::F1), InputEvent::KeyUp(Key::F1)],
    );
    assert!(!game.dark);
    game.handle_events(&idle(), &vec![InputEvent::KeyDown(Key::F1)]);
    assert!(!game.dark);
}

#[test]
fn the_quit_signal_ends_the_session() {
    let mut game = GameOfLife::new();
    assert!(!game.handle_events(&idle(), &vec![InputEvent::Quit]).running);
}

#[test]
fn the_press_of_escape_ends_the_session() {
    let mut game = GameOfLife::new();
    assert!(!game.handle_events(&idle(), &vec![InputEvent::KeyDown(Key::Escape)]).running);
}

#[test]
fn the_release_of_escape_does_not_end_the_session() {
    let mut game = GameOfLife::new();
    assert!(game.handle_events(&idle(), &vec![InputEvent::KeyUp(Key::Escape)]).running);
}

#[test]
fn the_events_after_a_quit_are_still_applied() {
    let mut game = GameOfLife::new();
    let events = vec![
        InputEvent::KeyUp(Key::F1),
        InputEvent::Quit,
        InputEvent::KeyUp(Key::Return),
        InputEvent::MouseButtonDown,
    ];
    let outcome = game.handle_events(&idle(), &events);
    assert!(!outcome.running);
    assert!(!game.dark);
    assert_eq!(game.mode, GameMode::Edit);
    assert_eq!(outcome.cursors, vec![CursorIcon::Edit]);
}

#[test]
fn other_events_change_nothing() {
    let mut game = GameOfLife::new();
    game.memory.set(5, 1).unwrap();
    let events = vec![
        InputEvent::MouseButtonDown,
        InputEvent::Other,
        InputEvent::KeyDown(Key::Other),
        InputEvent::KeyUp(Key::Other),
    ];
    let outcome = game.handle_events(&idle(), &events);
    assert!(outcome.running);
    assert!(outcome.cursors.is_empty());
    assert_eq!(game.mode, GameMode::Play);
    assert!(game.dark);
    assert_eq!(game.frames, (16, 16));
    assert_eq!(live_cells(&game), vec![5]);
}
