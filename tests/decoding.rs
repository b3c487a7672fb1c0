use k_board::keyboard::Keyboard;
use k_board::keys::{same_window, Keys, PatternEntry};
use k_board::patterns::{group_table, Group};
use k_board::table::{KeyClasses, KeyTable};
use k_board::termio::{sig_handler, InterruptFlag};

fn classes_with(f: fn(&mut KeyClasses)) -> KeyClasses {
    let mut c = KeyClasses::none();
    f(&mut c);
    c
}

fn decode_with(c: KeyClasses, window: [u8; 3]) -> Keys {
    let mut kb = Keyboard::with_classes(c);
    kb.decode(&window)
}

#[test]
fn arrow_up_window() {
    assert_eq!(decode_with(KeyClasses::none(), [0x1B, 0x5B, 0x41]), Keys::Up);
}

#[test]
fn enter_window() {
    assert_eq!(decode_with(KeyClasses::none(), [0x0A, 0x00, 0x00]), Keys::Enter);
}

#[test]
fn lowercase_letter_window() {
    let c = classes_with(|c| c.lower_letters = true);
    assert_eq!(decode_with(c, [0x61, 0x00, 0x00]), Keys::Char('a'));
}

#[test]
fn ctrl_letter_without_interrupt() {
    let c = classes_with(|c| c.ctrl_lower_letters = true);
    let mut kb = Keyboard::with_classes(c);
    assert!(!kb.has_pending_interrupt());
    assert_eq!(kb.decode(&[0x01, 0x00, 0x00]), Keys::Ctrl('a'));
}

#[test]
fn ctrl_letter_with_interrupt() {
    let c = classes_with(|c| c.ctrl_lower_letters = true);
    let mut kb = Keyboard::with_classes(c);
    kb.interrupt();
    assert!(kb.has_pending_interrupt());
    assert_eq!(kb.decode(&[0x01, 0x00, 0x00]), Keys::Ctrl('c'));
    assert!(!kb.has_pending_interrupt());
}

#[test]
fn unmatched_window_is_null() {
    assert_eq!(decode_with(KeyClasses::all(), [0xFF, 0xFF, 0xFF]), Keys::Null);
    assert_eq!(decode_with(KeyClasses::none(), [0xFF, 0xFF, 0xFF]), Keys::Null);
}

#[test]
fn empty_window_is_null() {
    assert_eq!(decode_with(KeyClasses::all(), [0x00, 0x00, 0x00]), Keys::Null);
}

#[test]
fn failed_read_counts_as_empty_window() {
    let mut kb = Keyboard::new();
    assert_eq!(kb.next_key(None), Keys::Null);
    assert_eq!(kb.next_key(Some([0x1B, 0x5B, 0x44])), Keys::Left);
}

#[test]
fn letter_absent_when_class_disabled() {
    assert_eq!(decode_with(KeyClasses::none(), [0x61, 0x00, 0x00]), Keys::Null);
}

#[test]
fn every_entry_of_a_lone_group_decodes_to_its_key() {
    let groups = [
        (Group::Standard, classes_with(|c| c.standard = true)),
        (Group::Numbers, classes_with(|c| c.numbers = true)),
        (Group::LowerLetters, classes_with(|c| c.lower_letters = true)),
        (Group::UpperLetters, classes_with(|c| c.upper_letters = true)),
        (Group::Function, classes_with(|c| c.function_keys = true)),
        (Group::CtrlStandard, classes_with(|c| c.ctrl_standard = true)),
        (Group::AltLowerLetters, classes_with(|c| c.alt_lower_letters = true)),
        (Group::AltUpperLetters, classes_with(|c| c.alt_upper_letters = true)),
        (Group::AltGrLowerLetters, classes_with(|c| c.alt_gr_lower_letters = true)),
    ];
    for (g, c) in groups.iter() {
        let entries: Vec<PatternEntry> = group_table(*g);
        assert!(!entries.is_empty());
        for e in entries.iter() {
            assert_eq!(decode_with(*c, e.pattern), e.key, "{:?} {:?}", g, e.pattern);
        }
    }
}

#[test]
fn later_group_overwrites_earlier_match() {
    // '+' is both a punctuation key and Ctrl with '+'.
    let c = classes_with(|c| {
        c.standard = true;
        c.ctrl_standard = true;
    });
    assert_eq!(decode_with(c, [0x2B, 0x00, 0x00]), Keys::Ctrl('+'));
    let c = classes_with(|c| c.standard = true);
    assert_eq!(decode_with(c, [0x2B, 0x00, 0x00]), Keys::Char('+'));
}

#[test]
fn digit_goes_to_last_digit_group() {
    let c = classes_with(|c| {
        c.numbers = true;
        c.ctrl_numbers = true;
    });
    assert_eq!(decode_with(c, [0x35, 0x00, 0x00]), Keys::Ctrl('5'));
    assert_eq!(decode_with(KeyClasses::all(), [0x35, 0x00, 0x00]), Keys::AltGr('5'));
}

#[test]
fn alt_gr_uppercase_group_wins_over_lowercase() {
    assert_eq!(decode_with(KeyClasses::all(), [0xC3, 0xA6, 0x00]), Keys::AltGr('A'));
    assert_eq!(decode_with(KeyClasses::all(), [0x40, 0x00, 0x00]), Keys::AltGr('q'));
}

#[test]
fn multibyte_characters() {
    let c = classes_with(|c| c.standard = true);
    assert_eq!(decode_with(c, [0xC2, 0xBF, 0x00]), Keys::Char('¿'));
    let c = classes_with(|c| c.alt_lower_letters = true);
    assert_eq!(decode_with(c, [0x1B, 0xC3, 0xB1]), Keys::Alt('ñ'));
    let c = classes_with(|c| c.alt_gr_lower_letters = true);
    assert_eq!(decode_with(c, [0xE2, 0x82, 0xAC]), Keys::AltGr('e'));
}

#[test]
fn function_keys_and_editing_keys() {
    let all = KeyClasses::all();
    assert_eq!(decode_with(all, [0x1B, 0x4F, 0x50]), Keys::F(1));
    assert_eq!(decode_with(all, [0x1B, 0x5B, 0x48]), Keys::Home);
    assert_eq!(decode_with(all, [0x1B, 0x5B, 0x5A]), Keys::Backtab);
    assert_eq!(decode_with(all, [0x1B, 0x00, 0x00]), Keys::Escape);
    assert_eq!(decode_with(all, [0x7F, 0x00, 0x00]), Keys::Delete);
}

#[test]
fn interrupt_is_consumed_once() {
    let mut kb = Keyboard::new();
    kb.interrupt();
    assert_eq!(kb.decode(&[0x62, 0x00, 0x00]), Keys::Ctrl('c'));
    assert_eq!(kb.decode(&[0x62, 0x00, 0x00]), Keys::Char('b'));
    assert_eq!(kb.decode(&[0xFF, 0xFF, 0xFF]), Keys::Null);
}

#[test]
fn interrupt_overrides_any_window() {
    let mut kb = Keyboard::new();
    kb.interrupt();
    assert_eq!(kb.decode(&[0x1B, 0x5B, 0x41]), Keys::Ctrl('c'));
}

#[test]
fn interrupt_with_uppercase_ctrl_only() {
    let c = classes_with(|c| c.ctrl_upper_letters = true);
    let mut kb = Keyboard::with_classes(c);
    assert!(kb.intercepts_interrupt());
    kb.interrupt();
    assert_eq!(kb.decode(&[0x00, 0x00, 0x00]), Keys::Ctrl('C'));
    assert!(!kb.has_pending_interrupt());
}

#[test]
fn interrupt_stays_pending_without_ctrl_letters() {
    let c = classes_with(|c| c.lower_letters = true);
    let mut kb = Keyboard::with_classes(c);
    assert!(!kb.intercepts_interrupt());
    kb.interrupt();
    assert_eq!(kb.decode(&[0x61, 0x00, 0x00]), Keys::Char('a'));
    assert!(kb.has_pending_interrupt());
}

#[test]
fn key_table_decodes_with_separate_flag() {
    let table = KeyTable::new(KeyClasses::all());
    assert!(table.intercepts_interrupt());
    let mut flag = InterruptFlag::new();
    assert_eq!(table.decode(&[0x03, 0x00, 0x00], &mut flag), Keys::Ctrl('C'));
    sig_handler(&mut flag);
    assert!(flag.is_raised());
    assert_eq!(table.decode(&[0x61, 0x00, 0x00], &mut flag), Keys::Ctrl('c'));
    assert!(!flag.is_raised());
    assert!(!flag.take());
}

#[test]
fn windows_compare_bytewise() {
    assert!(same_window(&[1, 2, 3], &[1, 2, 3]));
    assert!(!same_window(&[1, 2, 3], &[1, 2, 4]));
    assert!(!same_window(&[0, 2, 3], &[1, 2, 3]));
}

#[test]
fn default_keyboard_is_full() {
    let mut kb = Keyboard::default();
    assert!(kb.intercepts_interrupt());
    assert_eq!(kb.decode(&[0x5A, 0x00, 0x00]), Keys::Char('Z'));
}

#[test]
fn digits_decode_to_digit_values() {
    let c = classes_with(|c| c.numbers = true);
    assert_eq!(decode_with(c, [0x30, 0x00, 0x00]), Keys::Digit(0));
    assert_eq!(decode_with(c, [0x39, 0x00, 0x00]), Keys::Digit(9));
}

#[test]
fn carriage_return_is_enter_unless_ctrl_letters_take_part() {
    assert_eq!(decode_with(KeyClasses::none(), [0x0D, 0x00, 0x00]), Keys::Enter);
    let c = classes_with(|c| c.ctrl_lower_letters = true);
    assert_eq!(decode_with(c, [0x0D, 0x00, 0x00]), Keys::Ctrl('m'));
    assert_eq!(decode_with(KeyClasses::all(), [0x0D, 0x00, 0x00]), Keys::Ctrl('M'));
}
