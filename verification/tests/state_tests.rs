use visual_novel::menu::{pause_menu_action, pause_menu_buttons, PauseMenuAction};
use visual_novel::page_table::check_table;
use visual_novel::interface::typed_character;
use visual_novel::interface::{Align, AlignX, AlignY, ClickState, EditLine, ListFocus, ListState};
use visual_novel::loading::{blink_step, CatEyes, LeafSchedule};
use visual_novel::menu::{main_menu_action, main_menu_buttons, MainMenuAction};
use visual_novel::page_table::{read_be_u64, PageTable};
use visual_novel::settings::read_line;
use visual_novel::page_events::{
    name_entry_step, settings_step, NameEntryAction, NameEntryEvent, SettingsAction, SettingsButton, SettingsEvent,
};

#[test]
fn align_center() {
    let a = Align::center();
    assert_eq!(a.x, AlignX::Center);
    assert_eq!(a.y, AlignY::Center);
}

#[test]
fn click_needs_press_and_release_inside() {
    let mut b = ClickState::new();
    assert!(!b.released(true));
    assert!(b.pressed(true));
    assert!(b.released(true));
    assert!(!b.released(true));
    assert!(b.pressed(true));
    assert!(!b.released(false));
    assert!(!b.pressed(false));
    assert!(!b.released(true));
}

#[test]
fn list_opens_and_chooses() {
    let mut l = ListState::new(Some(1));
    assert_eq!(l.pressed(false, Some(0)), ListFocus::Nothing);
    assert_eq!(l.pressed(true, None), ListFocus::Base);
    assert_eq!(l.released(true, None), ListFocus::Base);
    assert!(l.list_opened);
    assert_eq!(l.pressed(false, Some(2)), ListFocus::Item(2));
    assert_eq!(l.released(false, Some(1)), ListFocus::Nothing);
    assert_eq!(l.chosen_item, Some(1));
    assert_eq!(l.released(false, Some(2)), ListFocus::Item(2));
    assert_eq!(l.chosen_item, Some(2));
    assert_eq!(l.pressed(true, Some(2)), ListFocus::Base);
    assert_eq!(l.released(false, None), ListFocus::Nothing);
    assert!(l.list_opened);
}

#[test]
fn edit_line_respects_byte_capacity() {
    let mut e = EditLine::new(String::new(), 3);
    assert!(e.push_char('Я'));
    assert!(e.push_char('б'));
    assert!(!e.push_char('x'));
    assert_eq!(e.text(), "Яб");
    assert_eq!(e.pop_char(), Some('б'));
    assert_eq!(e.pop_char(), Some('Я'));
    assert_eq!(e.pop_char(), None);
    assert_eq!(e.text(), "");
}

#[test]
fn push_then_pop_restores_text() {
    let mut e = EditLine::new("ab".to_string(), 20);
    assert!(e.push_char('ц'));
    assert_eq!(e.pop_char(), Some('ц'));
    assert_eq!(e.text(), "ab");
}

#[test]
fn settings_lines() {
    assert!(read_line::<bool>(" true\n"));
    assert!(!read_line::<bool>("false"));
    assert_eq!(read_line::<String>("  Новелла \n"), "Новелла");
}

fn record(w: u64, d: u64, chars: &[(u64, u8)]) -> Vec<u8> {
    let mut v = Vec::new();
    v.extend_from_slice(&w.to_be_bytes());
    v.extend_from_slice(&d.to_be_bytes());
    v.push(chars.len() as u8);
    for (i, l) in chars {
        v.extend_from_slice(&i.to_be_bytes());
        v.push(*l);
    }
    v
}

#[test]
fn big_endian_numbers() {
    let b = [0, 0, 0, 0, 0, 0, 1, 2, 9];
    assert_eq!(read_be_u64(&b, 0), 258);
    assert_eq!(read_be_u64(&[0xff; 8], 0), u64::MAX);
}

#[test]
fn page_table_reads_records_and_pages() {
    let mut bytes = record(3, 1, &[(2, 0), (5, 6)]);
    bytes.extend(record(0, 0, &[]));
    bytes.extend([1, 2, 3]);
    let mut t = PageTable::new(&bytes, 0);
    assert_eq!(t.pages(), 2);
    assert_eq!(t.current_page(), 0);
    assert_eq!(t.current_wallpaper(), 3);
    assert_eq!(t.current_dialogue(), 1);
    assert_eq!(t.current_character().len(), 2);
    assert_eq!(t.current_character()[1].0, 5);
    assert!(t.next_page());
    assert_eq!(t.current_page(), 1);
    assert_eq!(t.current_character().len(), 0);
    assert!(!t.next_page());
    assert_eq!(t.current_page(), 1);
}

#[test]
fn main_menu_buttons_and_actions() {
    assert_eq!(main_menu_buttons(true), vec!["Продолжить", "Новая игра", "Настройки", "Выход"]);
    assert_eq!(main_menu_buttons(false), vec!["Новая игра", "Настройки", "Выход"]);
    assert_eq!(main_menu_action(0, true), Some(MainMenuAction::Continue));
    assert_eq!(main_menu_action(0, false), Some(MainMenuAction::NewGame));
    assert_eq!(main_menu_action(2, false), Some(MainMenuAction::Exit));
    assert_eq!(main_menu_action(3, false), None);
    assert_eq!(main_menu_action(3, true), Some(MainMenuAction::Exit));
}

#[test]
fn cat_blinks_every_fifty_updates() {
    let mut frames = 0u8;
    let mut changes = Vec::new();
    for update in 1..=100 {
        let (f, eyes) = blink_step(frames);
        frames = f;
        if let Some(e) = eyes {
            changes.push((update, e));
        }
    }
    assert_eq!(changes[0], (35, CatEyes::HalfClosed));
    assert_eq!(changes[1], (40, CatEyes::Closed));
    assert_eq!(changes[2], (45, CatEyes::HalfClosed));
    assert_eq!(changes[3], (50, CatEyes::Open));
    assert_eq!(changes[7], (100, CatEyes::Open));
    assert_eq!(frames, 0);
}

#[test]
fn first_leaves_fall_on_schedule() {
    let mut s = LeafSchedule::new();
    let mut spawns = Vec::new();
    for update in 1..=300 {
        if let Some(p) = s.update() {
            spawns.push((update, p));
        }
    }
    assert_eq!(spawns, vec![(44, 0), (197, 1), (207, 2), (300, 3)]);
}

#[test]
fn counts_parse_like_std() {
    for s in ["0", "12", "+7", "", "+", "-1", "1a", "18446744073709551615", "18446744073709551616", "007"] {
        let expected = s.parse::<usize>().ok();
        let text = format!(" {} ", s);
        if expected.is_some() {
            assert_eq!(read_line::<usize>(&text), expected.unwrap());
        }
        assert_eq!(<usize as visual_novel::settings::SettingValue>::parse_setting(s), expected);
    }
}

#[test]
fn truth_values_parse_like_std() {
    for s in ["true", "false", "True", "", "1"] {
        assert_eq!(<bool as visual_novel::settings::SettingValue>::parse_setting(s), s.parse::<bool>().ok());
    }
}

#[test]
fn launch_setting_lines_split_at_equals() {
    let (k, v) = visual_novel::settings::split_setting("  pages = 12 ");
    assert_eq!(k, "pages");
    assert_eq!(v, "12");
    let (k, v) = visual_novel::settings::split_setting("fullscreen=");
    assert_eq!(k, "fullscreen");
    assert_eq!(v, "");
}

#[test]
fn typed_input_drops_control_characters() {
    for c in ['\u{7f}', '\u{1b}', '\u{8}', '\r', '\n', '\t'] {
        assert_eq!(typed_character(c), None);
    }
    assert_eq!(typed_character('ж'), Some('ж'));
    assert_eq!(typed_character(' '), Some(' '));
}

#[test]
fn two_clicks_on_list_base_restore_it() {
    let mut l = ListState::new(None);
    for _ in 0..2 {
        l.pressed(true, None);
        l.released(true, None);
    }
    assert!(!l.list_opened);
    assert_eq!(l.chosen_item, None);
}

#[test]
fn closed_list_ignores_items() {
    let mut l = ListState::new(None);
    assert_eq!(l.pressed(false, Some(3)), ListFocus::Nothing);
    assert_eq!(l.released(false, Some(3)), ListFocus::Nothing);
    assert_eq!(l.chosen_item, None);
}

#[test]
fn page_table_from_a_later_saved_page() {
    let mut bytes = record(1, 2, &[]);
    bytes.extend(record(3, 4, &[(9, 3)]));
    bytes.extend(record(5, 6, &[]));
    let mut t = PageTable::new(&bytes, 1);
    assert_eq!(t.current_dialogue(), 4);
    assert_eq!(t.current_character()[0].1, visual_novel::character::CharacterLocation::Center);
    assert!(t.next_page());
    assert!(!t.next_page());
    assert!(!t.next_page());
    assert_eq!(t.current_page(), 2);
}

#[test]
fn empty_and_short_tables_have_no_pages() {
    assert_eq!(PageTable::new(&[], 0).pages(), 0);
    assert_eq!(PageTable::new(&[1, 2, 3, 4, 5, 6, 7], 0).pages(), 0);
}

#[test]
fn table_checks() {
    assert!(check_table(&record(1, 2, &[(3, 4)])));
    assert!(check_table(&[1, 2, 3]));
    let mut bad_location = record(1, 2, &[(3, 7)]);
    assert!(!check_table(&bad_location));
    bad_location.truncate(20);
    assert!(!check_table(&bad_location));
    assert!(!check_table(&[0u8; 16]));
}

#[test]
fn pause_menu_buttons_and_actions() {
    assert_eq!(pause_menu_buttons(), vec!["Продолжить", "Главное меню", "Настройки", "Выход"]);
    assert_eq!(pause_menu_action(0), Some(PauseMenuAction::Continue));
    assert_eq!(pause_menu_action(1), Some(PauseMenuAction::MainMenu));
    assert_eq!(pause_menu_action(2), Some(PauseMenuAction::Settings));
    assert_eq!(pause_menu_action(3), Some(PauseMenuAction::Exit));
    assert_eq!(pause_menu_action(4), None);
}

#[test]
fn pop_leaves_the_text_before_the_last_character() {
    let mut e = EditLine::new("Жёлудь".to_string(), 40);
    assert_eq!(e.pop_char(), Some('ь'));
    assert_eq!(e.text(), "Жёлуд");
    assert_eq!(e.pop_char(), Some('д'));
    assert_eq!(e.text(), "Жёлу");
}

#[test]
fn name_entry_edits_only_while_entering() {
    assert_eq!(name_entry_step(true, NameEntryEvent::Character('ж')), (true, NameEntryAction::Push('ж')));
    assert_eq!(name_entry_step(true, NameEntryEvent::Character('\t')), (true, NameEntryAction::Nothing));
    assert_eq!(name_entry_step(false, NameEntryEvent::Character('ж')), (false, NameEntryAction::Nothing));
    assert_eq!(name_entry_step(true, NameEntryEvent::Backspace), (true, NameEntryAction::Pop));
    assert_eq!(name_entry_step(false, NameEntryEvent::Backspace), (false, NameEntryAction::Nothing));
    assert_eq!(name_entry_step(true, NameEntryEvent::Enter), (true, NameEntryAction::Submit));
    assert_eq!(name_entry_step(false, NameEntryEvent::Enter), (false, NameEntryAction::Nothing));
}

#[test]
fn name_entry_presses_and_escape() {
    assert_eq!(name_entry_step(true, NameEntryEvent::Press { in_field: true }), (true, NameEntryAction::Nothing));
    assert_eq!(name_entry_step(true, NameEntryEvent::Press { in_field: false }), (false, NameEntryAction::Nothing));
    assert_eq!(name_entry_step(false, NameEntryEvent::Press { in_field: true }), (false, NameEntryAction::MenuPress));
    assert_eq!(name_entry_step(true, NameEntryEvent::Release), (true, NameEntryAction::Nothing));
    assert_eq!(name_entry_step(false, NameEntryEvent::Release), (false, NameEntryAction::MenuRelease));
    assert_eq!(name_entry_step(true, NameEntryEvent::Escape), (false, NameEntryAction::Nothing));
    assert_eq!(name_entry_step(false, NameEntryEvent::Escape), (false, NameEntryAction::Nothing));
}

#[test]
fn settings_page_buttons() {
    let both = SettingsEvent::Press { reset_hit: true, back_hit: true };
    assert_eq!(settings_step(None, both), (Some(SettingsButton::Reset), SettingsAction::Nothing));
    let back = SettingsEvent::Press { reset_hit: false, back_hit: true };
    assert_eq!(settings_step(None, back), (Some(SettingsButton::Back), SettingsAction::Nothing));
    let miss = SettingsEvent::Press { reset_hit: false, back_hit: false };
    assert_eq!(settings_step(Some(SettingsButton::Back), miss), (None, SettingsAction::Nothing));
    let click = SettingsEvent::Release { completed: true };
    let slip = SettingsEvent::Release { completed: false };
    assert_eq!(
        settings_step(Some(SettingsButton::Reset), click),
        (Some(SettingsButton::Reset), SettingsAction::ResetProgress)
    );
    assert_eq!(settings_step(Some(SettingsButton::Back), click), (Some(SettingsButton::Back), SettingsAction::Leave));
    assert_eq!(settings_step(Some(SettingsButton::Back), slip), (Some(SettingsButton::Back), SettingsAction::Nothing));
    assert_eq!(settings_step(None, click), (None, SettingsAction::Nothing));
    assert_eq!(settings_step(None, SettingsEvent::Escape), (None, SettingsAction::Leave));
}
