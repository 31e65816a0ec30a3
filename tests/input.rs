use grades::cursor::Level;
use grades::grade::Grade;
use grades::key::{Key, ReadError};
use grades::print::Row;
use grades::session::{
    add_entry, command_of, construct_grade, edit_entry, edit_line, line_text, parse_credits, read_confirm,
    scroll_down, scroll_up, show_keybinds, write_skip, AddInput, Command, LineEvent,
};
use grades::uni_info::UniInfo;

fn key(b: &[u8]) -> Key {
    Key::from_bytes(b)
}

fn chars(s: &str) -> Vec<char> {
    s.chars().collect()
}

#[test]
fn reading_nothing_is_an_error() {
    let mut k = Key::new();
    assert_eq!(k.read(&[]), Err(ReadError::Empty));
    assert_eq!(k.read(b"q"), Ok(()));
    assert_eq!(k.read(&[]), Err(ReadError::Empty));
    assert_eq!(k.as_printable_ascii(), Some('q'));
}

#[test]
fn printable_ascii_and_utf8() {
    assert_eq!(key(b"a").as_printable_ascii(), Some('a'));
    assert_eq!(key(b"a").as_char_unchecked(), 'a');
    assert_eq!(key(&[0xd1, 0x8b]).as_printable_ascii(), None);
    assert_eq!(key(&[0xd1, 0x8b]).as_printable_utf8(), Some('\u{44b}'));
    assert_eq!(key(b"~").as_printable_utf8(), Some('~'));
    assert_eq!(key(&[13]).as_printable_utf8(), None);
    assert_eq!(key(&[0xc2, 0x85]).as_printable_utf8(), None);
    assert_eq!(key(&[0xff]).as_printable_utf8(), None);
    assert_eq!(key(&[27, 91, 65]).as_printable_utf8(), None);
}

#[test]
fn special_keys() {
    assert!(key(&[8]).is_backspace());
    assert!(key(&[127]).is_backspace());
    assert!(key(&[13]).is_enter());
    assert!(key(&[27]).is_esc());
    assert!(!key(&[27, 91, 65]).is_esc());
    assert!(key(&[27, 91, 65]).is_up());
    assert!(key(&[27, 91, 66]).is_down());
    assert!(key(&[27, 91, 67]).is_right());
    assert!(key(&[27, 91, 68]).is_left());
    assert!(key(&[5]).is_ctrl_e());
    assert!(key(&[25]).is_ctrl_y());
}

#[test]
fn long_reads_keep_six_bytes() {
    let mut k = Key::new();
    assert_eq!(k.read(b"abcdefgh"), Ok(()));
    assert_eq!(k.as_printable_utf8(), Some('a'));
    assert_eq!(k.as_printable_ascii(), None);
}

#[test]
fn commands_of_keys() {
    assert_eq!(command_of(&key(b" ")), Command::EditThenDown);
    assert_eq!(command_of(&key(b"a")), Command::Add);
    assert_eq!(command_of(&key(b"d")), Command::Delete);
    assert_eq!(command_of(&key(b"e")), Command::Edit);
    assert_eq!(command_of(&key(b"h")), Command::Exit);
    assert_eq!(command_of(&key(b"j")), Command::Down);
    assert_eq!(command_of(&key(b"k")), Command::Up);
    assert_eq!(command_of(&key(b"l")), Command::Enter);
    assert_eq!(command_of(&key(b"q")), Command::Quit);
    assert_eq!(command_of(&key(b"z")), Command::Ignore);
    assert_eq!(command_of(&key(&[13])), Command::Edit);
    assert_eq!(command_of(&key(&[27, 91, 68])), Command::Exit);
    assert_eq!(command_of(&key(&[27, 91, 66])), Command::Down);
    assert_eq!(command_of(&key(&[27, 91, 65])), Command::Up);
    assert_eq!(command_of(&key(&[27, 91, 67])), Command::Enter);
    assert_eq!(command_of(&key(&[5])), Command::ScrollDown);
    assert_eq!(command_of(&key(&[25])), Command::ScrollUp);
    assert_eq!(command_of(&key(&[27])), Command::Quit);
}

#[test]
fn grade_menu_keys() {
    assert_eq!(construct_grade(&key(b"3")), Some(Grade::Grade(3)));
    assert_eq!(construct_grade(&key(b"5")), Some(Grade::Grade(5)));
    assert_eq!(construct_grade(&key(b"p")), Some(Grade::Completed(true)));
    assert_eq!(construct_grade(&key(b"f")), Some(Grade::Completed(false)));
    assert_eq!(construct_grade(&key(b"o")), Some(Grade::Ongoing));
    assert_eq!(construct_grade(&key(b"6")), None);
    assert_eq!(construct_grade(&key(&[27])), None);
}

#[test]
fn confirmation_keys() {
    assert_eq!(read_confirm(&key(b"y")), Some(true));
    assert_eq!(read_confirm(&key(b"Y")), Some(true));
    assert_eq!(read_confirm(&key(b"n")), Some(false));
    assert_eq!(read_confirm(&key(b"N")), Some(false));
    assert_eq!(read_confirm(&key(b"x")), None);
}

#[test]
fn typing_a_line() {
    let mut line: Vec<char> = Vec::new();
    assert_eq!(edit_line(&mut line, &key(b"h")), LineEvent::Typed('h'));
    assert_eq!(edit_line(&mut line, &key(&[0xd1, 0x8b])), LineEvent::Typed('\u{44b}'));
    assert_eq!(edit_line(&mut line, &key(&[27, 91, 65])), LineEvent::Unchanged);
    assert_eq!(line_text(&line), "h\u{44b}");
    assert_eq!(edit_line(&mut line, &key(&[127])), LineEvent::Erased);
    assert_eq!(edit_line(&mut line, &key(&[8])), LineEvent::Erased);
    assert_eq!(edit_line(&mut line, &key(&[8])), LineEvent::Unchanged);
    assert!(line.is_empty());
    assert_eq!(edit_line(&mut line, &key(&[13])), LineEvent::Finished);
}

#[test]
fn credits_parse_as_thousandths() {
    assert_eq!(parse_credits(&chars("7.5")), Some(7500));
    assert_eq!(parse_credits(&chars("12")), Some(12000));
    assert_eq!(parse_credits(&chars("3.")), Some(3000));
    assert_eq!(parse_credits(&chars(".25")), Some(250));
    assert_eq!(parse_credits(&chars("0.125")), Some(125));
    assert_eq!(parse_credits(&chars("1.2345")), None);
    assert_eq!(parse_credits(&chars("-1")), None);
    assert_eq!(parse_credits(&chars("")), None);
    assert_eq!(parse_credits(&chars(".")), None);
    assert_eq!(parse_credits(&chars("1.2.3")), None);
    assert_eq!(parse_credits(&chars("abc")), None);
    assert_eq!(parse_credits(&chars("18446744073709551")), Some(18446744073709551000));
    assert_eq!(parse_credits(&chars("18446744073709552")), None);
}

#[test]
fn key_hints_by_level() {
    assert!(show_keybinds(Level::Semester).starts_with("S> [a]dd [d]elete"));
    assert!(show_keybinds(Level::Period).starts_with("P>   "));
    assert!(!show_keybinds(Level::Period).contains("[d]elete"));
    assert!(show_keybinds(Level::Task).starts_with("T>       [d]elete [e]dit"));
}

#[test]
fn scrolling_stays_within_the_rows() {
    assert_eq!(scroll_down(0, 30, 10), 1);
    assert_eq!(scroll_down(20, 30, 10), 20);
    assert_eq!(scroll_down(25, 30, 10), 20);
    assert_eq!(scroll_down(0, 5, 10), 0);
    assert_eq!(scroll_up(0), 0);
    assert_eq!(scroll_up(3), 2);
}

#[test]
fn window_of_rows() {
    let rows: Vec<Row> = (0..5).map(|i| Row { targeted: false, text: format!("r{i}") }).collect();
    assert_eq!(write_skip(&rows, 1, 2), vec!["r1".to_string(), "r2".to_string()]);
    assert_eq!(write_skip(&rows, 4, 3), vec!["r4".to_string()]);
    assert!(write_skip(&rows, 9, 3).is_empty());
}

#[test]
fn add_dialog_by_level() {
    let mut uni = UniInfo::new(Vec::new());
    add_entry(&mut uni, AddInput::Semester);
    assert_eq!(uni.menu().len(), 1);
    add_entry(&mut uni, AddInput::Task { name: "x".to_string() });
    uni.cursor_enter();
    add_entry(&mut uni, AddInput::Course { code: "C".to_string(), grade: None, name: "n".to_string() });
    assert!(uni.menu()[0].first.is_empty());
    add_entry(&mut uni, AddInput::Course { code: "C".to_string(), grade: Some(Grade::Ongoing), name: "n".to_string() });
    assert_eq!(uni.menu()[0].first.len(), 1);
    uni.cursor_enter();
    add_entry(
        &mut uni,
        AddInput::Moment { code: "M".to_string(), grade: Some(Grade::Ongoing), credits: chars("x"), description: "d".to_string() },
    );
    assert!(uni.menu()[0].first[0].moments.is_empty());
    add_entry(
        &mut uni,
        AddInput::Moment { code: "M".to_string(), grade: Some(Grade::Ongoing), credits: chars("1.5"), description: "d".to_string() },
    );
    assert_eq!(uni.menu()[0].first[0].moments[0].credits, 1500);
    edit_entry(&mut uni, Some(Grade::Grade(4)));
    assert_eq!(uni.menu()[0].first[0].grade, Grade::Grade(4));
    edit_entry(&mut uni, None);
    assert_eq!(uni.menu()[0].first[0].grade, Grade::Grade(4));
}
