use jot::args::parse_args;
use jot::cursor::Cursor;
use jot::text::parse;
use jot::text::render;

fn chars(s: &str) -> Vec<char> {
    s.chars().collect()
}

fn buffer(lines: &[&str]) -> Vec<Vec<char>> {
    lines.iter().map(|s| chars(s)).collect()
}

fn strings(lines: &Vec<Vec<char>>) -> Vec<String> {
    lines.iter().map(|l| l.iter().collect()).collect()
}

#[test]
fn render_writes_each_line_with_trailing_newline() {
    let text: String = render(&buffer(&["ab", "cd"])).iter().collect();
    assert_eq!(text, "ab\ncd\n");
}

#[test]
fn render_of_one_empty_line_is_a_lone_newline() {
    let text: String = render(&buffer(&[""])).iter().collect();
    assert_eq!(text, "\n");
}

#[test]
fn parse_splits_on_newlines() {
    assert_eq!(strings(&parse(&chars("ab\ncd\n"))), vec!["ab", "cd"]);
}

#[test]
fn parse_of_empty_text_has_no_lines() {
    assert_eq!(parse(&chars("")).len(), 0);
}

#[test]
fn parse_of_lone_newline_is_one_empty_line() {
    assert_eq!(strings(&parse(&chars("\n"))), vec![""]);
}

#[test]
fn parse_keeps_final_unterminated_line() {
    assert_eq!(strings(&parse(&chars("ab\ncd"))), vec!["ab", "cd"]);
    assert_eq!(strings(&parse(&chars("a"))), vec!["a"]);
}

#[test]
fn parse_keeps_interior_empty_lines() {
    assert_eq!(strings(&parse(&chars("a\n\nb\n"))), vec!["a", "", "b"]);
}

#[test]
fn save_then_load_restores_the_buffer() {
    let lines = buffer(&["one", "", "three", "  indented"]);
    let reloaded = parse(&render(&lines));
    assert_eq!(strings(&reloaded), strings(&lines));
}

#[test]
fn save_then_load_restores_an_edited_buffer() {
    let mut c = Cursor::new(Vec::new());
    for ch in "first".chars() {
        c.insert(ch);
    }
    c.newline();
    for ch in "second".chars() {
        c.insert(ch);
    }
    let reloaded = parse(&render(c.lines()));
    assert_eq!(strings(&reloaded), vec!["first", "second"]);
}

#[test]
fn parse_args_takes_the_sole_argument() {
    let args = vec![String::from("jot"), String::from("notes.txt")];
    assert_eq!(parse_args(&args), "notes.txt");
}
