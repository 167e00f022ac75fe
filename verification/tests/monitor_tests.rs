use raftor::monitor::{
    command_for_key, next_row, previous_row, role_color, shown_role, Command, Key, RoleColor,
};

#[test]
fn keys_map_to_commands() {
    assert_eq!(command_for_key(Key::Char('q')), Command::Quit);
    assert_eq!(command_for_key(Key::Esc), Command::Quit);
    assert_eq!(command_for_key(Key::Down), Command::NextRow);
    assert_eq!(command_for_key(Key::Char('j')), Command::NextRow);
    assert_eq!(command_for_key(Key::Up), Command::PreviousRow);
    assert_eq!(command_for_key(Key::Char('k')), Command::PreviousRow);
    assert_eq!(command_for_key(Key::Char('x')), Command::Ignore);
    assert_eq!(command_for_key(Key::Other), Command::Ignore);
}

#[test]
fn next_row_wraps_around() {
    assert_eq!(next_row(Some(0), 3), Some(1));
    assert_eq!(next_row(Some(2), 3), Some(0));
    assert_eq!(next_row(Some(7), 3), Some(0));
    assert_eq!(next_row(None, 3), Some(0));
    assert_eq!(next_row(Some(4), 0), Some(4));
    assert_eq!(next_row(None, 0), None);
}

#[test]
fn previous_row_wraps_around() {
    assert_eq!(previous_row(Some(1), 3), Some(0));
    assert_eq!(previous_row(Some(0), 3), Some(2));
    assert_eq!(previous_row(None, 3), Some(0));
    assert_eq!(previous_row(Some(4), 0), Some(4));
    assert_eq!(previous_row(None, 0), None);
}

#[test]
fn up_undoes_down() {
    for len in 1..6usize {
        for i in 0..len {
            assert_eq!(previous_row(next_row(Some(i), len), len), Some(i));
            assert_eq!(next_row(previous_row(Some(i), len), len), Some(i));
        }
    }
}

#[test]
fn silent_nodes_are_shown_dead() {
    assert_eq!(shown_role("leader", 0), "leader");
    assert_eq!(shown_role("leader", 2), "leader");
    assert_eq!(shown_role("leader", 3), "dead");
    assert_eq!(shown_role("follower(01:02:03:04:05:06)", 1), "follower(01:02:03:04:05:06)");
}

#[test]
fn roles_have_colors() {
    assert_eq!(role_color("leader"), RoleColor::Green);
    assert_eq!(role_color("follower"), RoleColor::Blue);
    assert_eq!(role_color("candidate"), RoleColor::Yellow);
    assert_eq!(role_color("dead"), RoleColor::Red);
    assert_eq!(role_color("initializing"), RoleColor::White);
    assert_eq!(role_color("follower(01:02:03:04:05:06)"), RoleColor::White);
}
