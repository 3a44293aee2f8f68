use game_of_life::{CursorIcon, GameMode};

#[test]
fn toggle_leads_from_play_to_edit_with_the_edit_cursor() {
    assert_eq!(GameMode::Play.toggle(), (GameMode::Edit, Some(CursorIcon::Edit)));
}

#[test]
fn toggle_leads_from_edit_to_play_with_the_play_cursor() {
    assert_eq!(GameMode::Edit.toggle(), (GameMode::Play, Some(CursorIcon::Play)));
}

#[test]
fn toggle_does_nothing_while_stopped() {
    assert_eq!(GameMode::Stop.toggle(), (GameMode::Stop, None));
}

#[test]
fn toggling_twice_leads_back() {
    for mode in [GameMode::Edit, GameMode::Play, GameMode::Stop] {
        let (there, _) = mode.toggle();
        let (back, cursor) = there.toggle();
        assert_eq!(back, mode);
        match mode {
            GameMode::Edit => assert_eq!(cursor, Some(CursorIcon::Edit)),
            GameMode::Play => assert_eq!(cursor, Some(CursorIcon::Play)),
            GameMode::Stop => assert_eq!(cursor, None),
        }
    }
}
