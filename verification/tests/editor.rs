use jot::cursor::Cursor;
use jot::cursor::EditOp;

fn chars(s: &str) -> Vec<char> {
    s.chars().collect()
}

fn buffer(lines: &[&str]) -> Vec<Vec<char>> {
    lines.iter().map(|s| chars(s)).collect()
}

fn strings(lines: &Vec<Vec<char>>) -> Vec<String> {
    lines.iter().map(|l| l.iter().collect()).collect()
}

#[test]
fn new_cursor_lands_at_end_of_last_line() {
    let c = Cursor::new(buffer(&["ab", "cd"]));
    assert_eq!(c.col(), 3);
    assert_eq!(c.row(), 2);
    assert_eq!(strings(c.lines()), vec!["ab", "cd"]);
}

#[test]
fn empty_file_loads_as_one_empty_line() {
    let c = Cursor::new(Vec::new());
    assert_eq!(strings(c.lines()), vec![""]);
    assert_eq!(c.col(), 1);
    assert_eq!(c.row(), 1);
}

#[test]
fn backspace_after_one_left_removes_previous_char() {
    let mut c = Cursor::new(buffer(&["ab", "cd"]));
    c.left();
    assert_eq!(c.col(), 2);
    c.delete();
    assert_eq!(strings(c.lines()), vec!["ab", "d"]);
    assert_eq!(c.col(), 1);
    assert_eq!(c.row(), 2);
}

#[test]
fn backspace_at_column_one_joins_lines() {
    let mut c = Cursor::new(buffer(&["ab", "cd"]));
    c.left();
    c.left();
    assert_eq!(c.col(), 1);
    c.delete();
    assert_eq!(strings(c.lines()), vec!["abcd"]);
    assert_eq!(c.col(), 3);
    assert_eq!(c.row(), 1);
}

#[test]
fn enter_splits_line_at_cursor() {
    let mut c = Cursor::new(buffer(&["abc"]));
    c.left();
    c.left();
    assert_eq!(c.col(), 2);
    assert_eq!(c.row(), 1);
    c.newline();
    assert_eq!(strings(c.lines()), vec!["a", "bc"]);
    assert_eq!(c.col(), 1);
    assert_eq!(c.row(), 2);
}

#[test]
fn backspace_joins_single_char_lines() {
    let mut c = Cursor::new(buffer(&["a", "b"]));
    c.left();
    assert_eq!(c.col(), 1);
    assert_eq!(c.row(), 2);
    c.delete();
    assert_eq!(strings(c.lines()), vec!["ab"]);
    assert_eq!(c.col(), 2);
    assert_eq!(c.row(), 1);
}

#[test]
fn tab_inserts_four_spaces() {
    let mut c = Cursor::new(Vec::new());
    c.tab();
    assert_eq!(strings(c.lines()), vec!["    "]);
    assert_eq!(c.col(), 5);
}

#[test]
fn up_at_first_row_is_noop() {
    let mut c = Cursor::new(buffer(&["ab"]));
    c.up();
    assert_eq!(c.col(), 3);
    assert_eq!(c.row(), 1);
    assert_eq!(strings(c.lines()), vec!["ab"]);
}

#[test]
fn down_at_last_row_is_noop() {
    let mut c = Cursor::new(buffer(&["ab", "cd"]));
    c.down();
    assert_eq!(c.col(), 3);
    assert_eq!(c.row(), 2);
    assert_eq!(strings(c.lines()), vec!["ab", "cd"]);
}

#[test]
fn backspace_at_buffer_start_is_noop() {
    let mut c = Cursor::new(buffer(&["ab"]));
    c.left();
    c.left();
    assert_eq!(c.col(), 1);
    c.delete();
    assert_eq!(strings(c.lines()), vec!["ab"]);
    assert_eq!(c.col(), 1);
    assert_eq!(c.row(), 1);
}

#[test]
fn left_at_column_zero_stays_and_backspace_is_noop() {
    let mut c = Cursor::new(buffer(&["a"]));
    c.left();
    c.left();
    assert_eq!(c.col(), 0);
    c.left();
    assert_eq!(c.col(), 0);
    c.delete();
    assert_eq!(strings(c.lines()), vec!["a"]);
    assert_eq!(c.col(), 0);
}

#[test]
fn insert_normalizes_column_zero_to_start() {
    let mut c = Cursor::new(buffer(&["b"]));
    c.left();
    c.left();
    assert_eq!(c.col(), 0);
    c.insert('a');
    assert_eq!(strings(c.lines()), vec!["ab"]);
    assert_eq!(c.col(), 2);
}

#[test]
fn vertical_motion_clamps_column_to_shorter_line() {
    let mut c = Cursor::new(buffer(&["ab", "wxyz"]));
    assert_eq!(c.col(), 5);
    c.up();
    assert_eq!(c.col(), 3);
    assert_eq!(c.row(), 1);
    c.down();
    assert_eq!(c.col(), 3);
    assert_eq!(c.row(), 2);
}

#[test]
fn right_clamps_to_one_past_end() {
    let mut c = Cursor::new(buffer(&["ab"]));
    assert_eq!(c.col(), 3);
    c.right();
    assert_eq!(c.col(), 3);
    c.left();
    c.right();
    assert_eq!(c.col(), 3);
}

#[test]
fn enter_on_empty_line_adds_empty_line_below() {
    let mut c = Cursor::new(buffer(&[""]));
    c.newline();
    assert_eq!(strings(c.lines()), vec!["", ""]);
    assert_eq!(c.row(), 2);
    assert_eq!(c.col(), 1);
}

#[test]
fn enter_at_one_past_end_moves_rest_to_empty_line() {
    let mut c = Cursor::new(buffer(&["ab"]));
    assert_eq!(c.col(), 3);
    c.newline();
    assert_eq!(strings(c.lines()), vec!["ab", ""]);
    assert_eq!(c.row(), 2);
    assert_eq!(c.col(), 1);
}

#[test]
fn enter_then_backspace_restores_line_and_cursor() {
    let mut c = Cursor::new(buffer(&["hello"]));
    c.left();
    c.left();
    assert_eq!(c.col(), 4);
    c.newline();
    assert_eq!(strings(c.lines()), vec!["hel", "lo"]);
    c.delete();
    assert_eq!(strings(c.lines()), vec!["hello"]);
    assert_eq!(c.col(), 4);
    assert_eq!(c.row(), 1);
}

#[test]
fn insert_then_backspace_restores_line_and_cursor() {
    let mut c = Cursor::new(buffer(&["hello"]));
    c.left();
    c.left();
    assert_eq!(c.col(), 4);
    c.insert('x');
    assert_eq!(strings(c.lines()), vec!["helxlo"]);
    assert_eq!(c.col(), 5);
    c.delete();
    assert_eq!(strings(c.lines()), vec!["hello"]);
    assert_eq!(c.col(), 4);
}

#[test]
fn typing_a_word_appends_characters() {
    let mut c = Cursor::new(Vec::new());
    for ch in "hi there".chars() {
        c.insert(ch);
    }
    assert_eq!(strings(c.lines()), vec!["hi there"]);
    assert_eq!(c.col(), 9);
}

#[test]
fn apply_dispatches_each_operation() {
    let mut c = Cursor::new(buffer(&["abc"]));
    c.apply(EditOp::Left);
    c.apply(EditOp::Left);
    c.apply(EditOp::Newline);
    assert_eq!(strings(c.lines()), vec!["a", "bc"]);
    c.apply(EditOp::Delete);
    assert_eq!(strings(c.lines()), vec!["abc"]);
    c.apply(EditOp::Insert('z'));
    assert_eq!(strings(c.lines()), vec!["azbc"]);
    c.apply(EditOp::Up);
    c.apply(EditOp::Down);
    c.apply(EditOp::Right);
    assert_eq!(c.col(), 4);
    c.apply(EditOp::Tab);
    assert_eq!(strings(c.lines()), vec!["azb    c"]);
}

#[test]
fn invariant_holds_along_a_mixed_sequence() {
    let mut c = Cursor::new(buffer(&["one", "two words", ""]));
    let ops = [
        EditOp::Up,
        EditOp::Tab,
        EditOp::Left,
        EditOp::Delete,
        EditOp::Newline,
        EditOp::Insert('q'),
        EditOp::Down,
        EditOp::Right,
        EditOp::Delete,
        EditOp::Up,
        EditOp::Up,
        EditOp::Up,
        EditOp::Down,
    ];
    for op in ops {
        c.apply(op);
        let row = c.row();
        let col = c.col();
        let lines = c.lines();
        assert!(lines.len() >= 1);
        assert!(1 <= row && row <= lines.len());
        assert!(col <= lines[row - 1].len() + 1);
    }
}
