use vstd::prelude::*;
use vstd::string::StringExecFns;

verus! {

/// A key that the monitor reacts to, as read from the terminal.
#[derive(Clone, Copy, Debug, PartialEq, Eq, Structural)]
pub enum Key {
    Char(char),
    Esc,
    Up,
    Down,
    Other,
}

/// What the monitor does on a key press.
#[derive(Clone, Copy, Debug, PartialEq, Eq, Structural)]
pub enum Command {
    Quit,
    NextRow,
    PreviousRow,
    Ignore,
}

/// The command of a key: `q` or Esc quits, Down or `j` selects the next
/// row, Up or `k` the previous one; other keys do nothing.
pub open spec fn command_of(key: Key) -> Command {
    match key {
        Key::Char('q') | Key::Esc => Command::Quit,
        Key::Down | Key::Char('j') => Command::NextRow,
        Key::Up | Key::Char('k') => Command::PreviousRow,
        _ => Command::Ignore,
    }
}

/// The command of a pressed key.
pub fn command_for_key(key: Key) -> (r: Command)
    ensures
        r == command_of(key),
{
    match key {
        Key::Char('q') | Key::Esc => Command::Quit,
        Key::Down | Key::Char('j') => Command::NextRow,
        Key::Up | Key::Char('k') => Command::PreviousRow,
        _ => Command::Ignore,
    }
}

/// The selection after moving down in a table of `len` rows: the row after
/// the selected one, the first after the last, the first where none was
/// selected; an empty table keeps its selection.
pub open spec fn row_after(selected: Option<usize>, len: usize) -> Option<usize> {
    if len == 0 {
        selected
    } else {
        match selected {
            Some(i) => if i >= len - 1 {
                Some(0usize)
            } else {
                Some((i + 1) as usize)
            },
            None => Some(0usize),
        }
    }
}

/// The selection after moving up in a table of `len` rows: the row before
/// the selected one, the last before the first, the first where none was
/// selected; an empty table keeps its selection.
pub open spec fn row_before(selected: Option<usize>, len: usize) -> Option<usize> {
    if len == 0 {
        selected
    } else {
        match selected {
            Some(i) => if i == 0 {
                Some((len - 1) as usize)
            } else {
                Some((i - 1) as usize)
            },
            None => Some(0usize),
        }
    }
}

/// Moves the selection down in a table of `len` rows.
pub fn next_row(selected: Option<usize>, len: usize) -> (r: Option<usize>)
    ensures
        r == row_after(selected, len),
{
    if len == 0 {
        return selected;
    }
    let i = match selected {
        Some(i) => {
            if i >= len - 1 {
                0
            } else {
                i + 1
            }
        },
        None => 0,
    };
    Some(i)
}

/// Moves the selection up in a table of `len` rows.
pub fn previous_row(selected: Option<usize>, len: usize) -> (r: Option<usize>)
    ensures
        r == row_before(selected, len),
{
    if len == 0 {
        return selected;
    }
    let i = match selected {
        Some(i) => {
            if i == 0 {
                len - 1
            } else {
                i - 1
            }
        },
        None => 0,
    };
    Some(i)
}

/// Moving through a non-empty table keeps a row selected; moving down from
/// any selection, and moving up from a row of the table, lands on a row of
/// the table; moving up undoes moving down, and moving down undoes moving up,
/// from any row of the table.
pub proof fn lemma_navigation(i: usize, len: usize)
    requires
        len > 0,
    ensures
        row_after(Some(i), len) is Some && row_after(Some(i), len)->0 < len,
        i < len ==> row_before(Some(i), len) is Some && row_before(Some(i), len)->0 < len,
        i < len ==> row_before(row_after(Some(i), len), len) == Some(i),
        i < len ==> row_after(row_before(Some(i), len), len) == Some(i),
{
}

/// How long, in seconds, a node may stay silent and still be shown with the
/// role it last reported.
pub const SILENCE_LIMIT: u64 = 2;

/// The role that the monitor shows for a node that reported `role` and was
/// last heard `elapsed` seconds ago: `dead` once it has been silent too long.
pub open spec fn shown_role_text(role: Seq<char>, elapsed: u64) -> Seq<char> {
    if elapsed > SILENCE_LIMIT {
        "dead"@
    } else {
        role
    }
}

/// The role to show for a node that reported `role` and was last heard
/// `elapsed` seconds ago.
pub fn shown_role(role: &str, elapsed: u64) -> (r: String)
    ensures
        r@ == shown_role_text(role@, elapsed),
{
    if elapsed > SILENCE_LIMIT {
        String::from_str("dead")
    } else {
        String::from_str(role)
    }
}

/// The colour in which the monitor shows a role.
#[derive(Clone, Copy, Debug, PartialEq, Eq, Structural)]
pub enum RoleColor {
    Green,
    Blue,
    Yellow,
    Red,
    White,
}

/// The colour of a shown role: leaders green, followers blue, candidates
/// yellow, dead nodes red, anything else white.
pub open spec fn color_of(role: Seq<char>) -> RoleColor {
    if role == "leader"@ {
        RoleColor::Green
    } else if role == "follower"@ {
        RoleColor::Blue
    } else if role == "candidate"@ {
        RoleColor::Yellow
    } else if role == "dead"@ {
        RoleColor::Red
    } else {
        RoleColor::White
    }
}

/// The colour in which to show a role.
pub fn role_color(role: &str) -> (r: RoleColor)
    ensures
        r == color_of(role@),
{
    let role = String::from_str(role);
    if role == String::from_str("leader") {
        RoleColor::Green
    } else if role == String::from_str("follower") {
        RoleColor::Blue
    } else if role == String::from_str("candidate") {
        RoleColor::Yellow
    } else if role == String::from_str("dead") {
        RoleColor::Red
    } else {
        RoleColor::White
    }
}

/// A node silent for more than two seconds is shown dead, whatever role it
/// reported; a node heard within two seconds is shown with the role it
/// reported.
pub proof fn lemma_shown_role(role: Seq<char>, elapsed: u64)
    ensures
        elapsed > 2 ==> shown_role_text(role, elapsed) == "dead"@,
        elapsed <= 2 ==> shown_role_text(role, elapsed) == role,
{
}

/// The colour of each role: leaders green, followers blue, candidates
/// yellow, dead nodes red; any other text, such as `initializing` or a
/// follower's text with its leader, white.
pub proof fn lemma_role_colors(role: Seq<char>)
    ensures
        color_of("leader"@) == RoleColor::Green,
        color_of("follower"@) == RoleColor::Blue,
        color_of("candidate"@) == RoleColor::Yellow,
        color_of("dead"@) == RoleColor::Red,
        role != "leader"@ && role != "follower"@ && role != "candidate"@ && role != "dead"@
            ==> color_of(role) == RoleColor::White,
        color_of(role) == RoleColor::Green ==> role == "leader"@,
        color_of(role) == RoleColor::Red ==> role == "dead"@,
{
    reveal_strlit("leader");
    reveal_strlit("follower");
    reveal_strlit("candidate");
    reveal_strlit("dead");
    assert("follower"@.len() != "leader"@.len());
    assert("candidate"@.len() != "leader"@.len());
    assert("candidate"@.len() != "follower"@.len());
    assert("dead"@.len() != "leader"@.len());
    assert("dead"@.len() != "follower"@.len());
    assert("dead"@.len() != "candidate"@.len());
}

/// The command of each key: `q` and Esc quit, Down and `j` move down, Up
/// and `k` move up, and every other key is ignored.
pub proof fn lemma_key_commands(c: char)
    ensures
        command_of(Key::Esc) == Command::Quit,
        command_of(Key::Down) == Command::NextRow,
        command_of(Key::Up) == Command::PreviousRow,
        command_of(Key::Other) == Command::Ignore,
        c == 'q' ==> command_of(Key::Char(c)) == Command::Quit,
        c == 'j' ==> command_of(Key::Char(c)) == Command::NextRow,
        c == 'k' ==> command_of(Key::Char(c)) == Command::PreviousRow,
        c != 'q' && c != 'j' && c != 'k' ==> command_of(Key::Char(c)) == Command::Ignore,
{
}

/// Moving in a table: with no row selected either move selects the first
/// row of a non-empty table; down from the last row (or beyond) wraps to the
/// first, up from the first wraps to the last; otherwise down selects the
/// next row and up the previous; an empty table keeps whatever selection it
/// had.
pub proof fn lemma_row_moves(selected: Option<usize>, i: usize, len: usize)
    ensures
        len == 0 ==> row_after(selected, len) == selected && row_before(selected, len) == selected,
        len > 0 ==> row_after(None, len) == Some(0usize) && row_before(None, len) == Some(0usize),
        len > 0 && i + 1 < len ==> row_after(Some(i), len) == Some((i + 1) as usize),
        len > 0 && i + 1 >= len ==> row_after(Some(i), len) == Some(0usize),
        len > 0 && i > 0 ==> row_before(Some(i), len) == Some((i - 1) as usize),
        len > 0 ==> row_before(Some(0usize), len) == Some((len - 1) as usize),
{
}

} // verus!
