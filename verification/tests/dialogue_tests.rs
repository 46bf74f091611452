use visual_novel::dialogue::check_characters;
use visual_novel::dialogue::check_script;
use visual_novel::character::CharacterLocation;
use visual_novel::dialogue::{read_characters, read_head, search_short_name, Dialogue, DialogueFormatted};
use visual_novel::dialogue_box::DialogueState;

fn lines(text: &[&str]) -> Vec<String> {
    text.iter().map(|l| l.to_string()).collect()
}

fn script() -> Vec<String> {
    lines(&[
        "",
        "{",
        "  a = Анна.happy",
        "  b = Борис(Left)",
        "}",
        "",
        "a - Привет, {}!",
        "   ",
        "{} - Здравствуй.",
        "_ - (думает) - вслух",
        "b-Пока",
    ])
}

#[test]
fn head_lists_short_and_full_names() {
    let (short, full, next) = read_head(&script());
    assert_eq!(short, vec!["{}", "_", "a", "b"]);
    assert_eq!(full, vec!["Я", "", "Анна", "Борис"]);
    assert_eq!(next, 5);
}

#[test]
fn head_without_closing_brace_runs_to_the_end() {
    let (short, full, next) = read_head(&lines(&["{", "x = Икс"]));
    assert_eq!(short, vec!["{}", "_", "x"]);
    assert_eq!(full, vec!["Я", "", "Икс"]);
    assert_eq!(next, 2);
}

#[test]
fn head_absent_gives_the_player_only() {
    let (short, full, next) = read_head(&lines(&["a - b"]));
    assert_eq!(short, vec!["{}", "_"]);
    assert_eq!(full, vec!["Я", ""]);
    assert_eq!(next, 1);
}

#[test]
fn dialogue_reads_steps_in_order() {
    let d = Dialogue::new(&script());
    assert_eq!(d.len(), 4);
    assert_eq!(d.get_name(0), "Анна");
    assert_eq!(d.get_line(0), "Привет, {}!");
    assert_eq!(d.get_name(1), "Я");
    assert_eq!(d.get_line(1), "Здравствуй.");
    assert_eq!(d.get_name(2), "");
    assert_eq!(d.get_line(2), "(думает) - вслух");
    assert_eq!(d.get_name(3), "Борис");
    assert_eq!(d.get_line(3), "Пока");
}

#[test]
fn format_fills_in_the_player_name() {
    let d = Dialogue::new(&script());
    let f = d.format("Ира");
    assert_eq!(f.len(), 4);
    assert_eq!(f.get_line(0), "Привет, Ира!");
    assert_eq!(f.get_name(0), "Анна");
    assert_eq!(f.get_line(3), "Пока");
}

#[test]
fn formatted_empty_and_new() {
    let e = DialogueFormatted::empty();
    assert_eq!(e.len(), 0);
    let f = DialogueFormatted::new(vec!["A", "B"], vec!["x".to_string(), "y".to_string()]);
    assert_eq!(f.len(), 2);
    assert_eq!(f.get_name(1), "B");
    assert_eq!(f.get_line(0), "x");
}

#[test]
fn search_finds_the_first_match() {
    let names = vec!["{}".to_string(), "a".to_string(), "a".to_string()];
    assert_eq!(search_short_name("a", &names), 1);
    assert_eq!(search_short_name("{}", &names), 0);
}

#[test]
fn characters_with_and_without_locations() {
    let text = lines(&["{", "a = Анна (RightCenter)", "b=Борис", "c = Вера(Left) x", "}"]);
    let (chars, next) = read_characters(&text);
    assert_eq!(next, 5);
    assert_eq!(chars.len(), 3);
    assert_eq!(chars[0].0, "Анна");
    assert_eq!(chars[0].1, CharacterLocation::RightCenter);
    assert_eq!(chars[1].0, "Борис");
    assert_eq!(chars[1].1, CharacterLocation::Center);
    assert_eq!(chars[2].0, "Вера");
    assert_eq!(chars[2].1, CharacterLocation::Left);
}

#[test]
fn characters_stop_after_the_closing_brace() {
    let text = lines(&["", "{", "Anna = Anna.smile (LeftCenter)", "Bob=Bob", "}", "A - hi"]);
    let (chars, next) = read_characters(&text);
    assert_eq!(
        chars,
        vec![
            ("Anna.smile".to_string(), CharacterLocation::LeftCenter),
            ("Bob".to_string(), CharacterLocation::Center)
        ]
    );
    assert_eq!(next, 5);
    assert_eq!(text[next], "A - hi");
}

#[test]
fn location_names_and_bytes() {
    assert_eq!(CharacterLocation::from_name("CenterRight"), Some(CharacterLocation::CenterRight));
    assert_eq!(CharacterLocation::from_name("center"), None);
    assert_eq!(CharacterLocation::from_byte(0), Some(CharacterLocation::Left));
    assert_eq!(CharacterLocation::from_byte(6), Some(CharacterLocation::Right));
    assert_eq!(CharacterLocation::from_byte(7), None);
}

#[test]
fn dialogue_state_shows_whole_line_then_moves_on() {
    let d = Dialogue::new(&script());
    let mut s = DialogueState::new(0);
    s.set_dialogue(&d, "Ира");
    assert_eq!(s.current_line(), "Привет, Ира!");
    assert!(!s.whole_text());
    assert!(!s.next_page());
    assert!(s.whole_text());
    assert_eq!(s.current_step(), 0);
    assert!(!s.next_page());
    assert_eq!(s.current_step(), 1);
    assert_eq!(s.current_name(), "Я");
    assert!(!s.whole_text());
}

#[test]
fn dialogue_state_last_line_ends_the_page() {
    let d = Dialogue::new(&script());
    let mut s = DialogueState::new(3);
    s.set_dialogue(&d, "Ира");
    s.set_whole_text(true);
    assert!(s.next_page());
    assert_eq!(s.current_step(), 0);
    assert!(!s.whole_text());
    s.set_step(2);
    assert_eq!(s.current_step(), 2);
}

#[test]
fn script_checks() {
    assert!(check_script(&script()));
    assert!(!check_script(&lines(&["{", "a Анна", "}"])));
    assert!(!check_script(&lines(&["{", "a = Анна = Б", "}"])));
    assert!(!check_script(&lines(&["{", "a = Анна", "}", "a говорит"])));
    assert!(!check_script(&lines(&["{", "a = Анна", "}", "c - кто это"])));
    assert!(!check_script(&lines(&["{", "", "}"])));
    assert!(check_script(&lines(&["{} - сам с собой"])));
}

#[test]
fn character_header_checks() {
    assert!(check_characters(&lines(&["{", "a = Анна (Left)", "b = Борис", "}"])));
    assert!(!check_characters(&lines(&["{", "a = Анна (Left)"])));
    assert!(!check_characters(&lines(&["{", "a = Анна (Up)", "}"])));
    assert!(!check_characters(&lines(&["{", "a = Анна (Left", "}"])));
    assert!(!check_characters(&lines(&["{", "a = Анна )(Left", "}"])));
    assert!(!check_characters(&lines(&["{", "a = Анна", "b", "}"])));
}
