//! The pattern groups: which byte patterns each class of keys contributes.
use vstd::prelude::*;
use crate::keys::{entry, push_entry, Keys, PatternEntry};

verus! {

/// A group of patterns, one per class of keys.
#[derive(PartialEq, Eq, Structural, Clone, Copy, Debug)]
pub enum Group {
    /// Arrow keys and Enter; always present. Enter comes as a line feed, or
    /// as a carriage return where the terminal does not translate it; a
    /// carriage return is also Ctrl with `m`, and the Ctrl groups, scanned
    /// later, win it when they take part.
    ArrowsEnter,
    /// Punctuation and editing keys.
    Standard,
    /// Digits.
    Numbers,
    /// Lowercase letters.
    LowerLetters,
    /// Uppercase letters.
    UpperLetters,
    /// Function keys F1 to F12.
    Function,
    /// Ctrl with a lowercase letter.
    CtrlLowerLetters,
    /// Ctrl with an uppercase letter.
    CtrlUpperLetters,
    /// Ctrl with a punctuation key.
    CtrlStandard,
    /// Ctrl with a digit.
    CtrlNumbers,
    /// Alt with a lowercase letter.
    AltLowerLetters,
    /// Alt with an uppercase letter.
    AltUpperLetters,
    /// Alt with a digit.
    AltNumbers,
    /// AltGr with a lowercase letter.
    AltGrLowerLetters,
    /// AltGr with an uppercase letter.
    AltGrUpperLetters,
    /// AltGr with a digit.
    AltGrNumbers,
}

/// The entries of a group, in the order in which they are scanned.
pub open spec fn group_entries(g: Group) -> Seq<PatternEntry> {
    match g {
        Group::ArrowsEnter => arrows_enter(),
        Group::Standard => standard(),
        Group::Numbers => numbers(),
        Group::LowerLetters => lower_letters(),
        Group::UpperLetters => upper_letters(),
        Group::Function => function_keys(),
        Group::CtrlLowerLetters => ctrl_lower_letters(),
        Group::CtrlUpperLetters => ctrl_upper_letters(),
        Group::CtrlStandard => ctrl_standard(),
        Group::CtrlNumbers => ctrl_numbers(),
        Group::AltLowerLetters => alt_lower_letters(),
        Group::AltUpperLetters => alt_upper_letters(),
        Group::AltNumbers => alt_numbers(),
        Group::AltGrLowerLetters => alt_gr_lower_letters(),
        Group::AltGrUpperLetters => alt_gr_upper_letters(),
        Group::AltGrNumbers => alt_gr_numbers(),
    }
}

/// The entries of group `g`.
pub fn group_table(g: Group) -> (r: Vec<PatternEntry>)
    ensures
        r@ == group_entries(g),
{
    match g {
        Group::ArrowsEnter => arrows_enter_table(),
        Group::Standard => standard_table(),
        Group::Numbers => numbers_table(),
        Group::LowerLetters => lower_letters_table(),
        Group::UpperLetters => upper_letters_table(),
        Group::Function => function_keys_table(),
        Group::CtrlLowerLetters => ctrl_lower_letters_table(),
        Group::CtrlUpperLetters => ctrl_upper_letters_table(),
        Group::CtrlStandard => ctrl_standard_table(),
        Group::CtrlNumbers => ctrl_numbers_table(),
        Group::AltLowerLetters => alt_lower_letters_table(),
        Group::AltUpperLetters => alt_upper_letters_table(),
        Group::AltNumbers => alt_numbers_table(),
        Group::AltGrLowerLetters => alt_gr_lower_letters_table(),
        Group::AltGrUpperLetters => alt_gr_upper_letters_table(),
        Group::AltGrNumbers => alt_gr_numbers_table(),
    }
}

pub open spec fn arrows_enter() -> Seq<PatternEntry> {
    seq![
        entry(0x1B, 0x5B, 0x41, Keys::Up),
        entry(0x1B, 0x5B, 0x42, Keys::Down),
        entry(0x1B, 0x5B, 0x43, Keys::Right),
        entry(0x1B, 0x5B, 0x44, Keys::Left),
        entry(0x0A, 0x00, 0x00, Keys::Enter),
        entry(0x0D, 0x00, 0x00, Keys::Enter),
    ]
}

pub open spec fn standard() -> Seq<PatternEntry> {
    seq![
        entry(0x1B, 0x5B, 0x48, Keys::Home),
        entry(0x09, 0x00, 0x00, Keys::Tab),
        entry(0x1B, 0x5B, 0x46, Keys::End),
        entry(0x1B, 0x5B, 0x5A, Keys::Backtab),
        entry(0x1B, 0x00, 0x00, Keys::Escape),
        entry(0x20, 0x00, 0x00, Keys::Space),
        entry(0x7F, 0x00, 0x00, Keys::Delete),
        entry(0x2B, 0x00, 0x00, Keys::Char('+')),
        entry(0x2D, 0x00, 0x00, Keys::Char('-')),
        entry(0x3D, 0x00, 0x00, Keys::Char('=')),
        entry(0x2F, 0x00, 0x00, Keys::Char('/')),
        entry(0x5C, 0x00, 0x00, Keys::Char('\\')),
        entry(0x5E, 0x00, 0x00, Keys::Char('^')),
        entry(0x2A, 0x00, 0x00, Keys::Char('*')),
        entry(0x2E, 0x00, 0x00, Keys::Char('.')),
        entry(0x2C, 0x00, 0x00, Keys::Char(',')),
        entry(0x23, 0x00, 0x00, Keys::Char('#')),
        entry(0x26, 0x00, 0x00, Keys::Char('&')),
        entry(0x25, 0x00, 0x00, Keys::Char('%')),
        entry(0x7C, 0x00, 0x00, Keys::Char('|')),
        entry(0x24, 0x00, 0x00, Keys::Char('$')),
        entry(0x3A, 0x00, 0x00, Keys::Char(':')),
        entry(0x3B, 0x00, 0x00, Keys::Char(';')),
        entry(0xC2, 0xBF, 0x00, Keys::Char('¿')),
        entry(0x3F, 0x00, 0x00, Keys::Char('?')),
        entry(0x5B, 0x00, 0x00, Keys::Char('[')),
        entry(0x5D, 0x00, 0x00, Keys::Char(']')),
        entry(0x7B, 0x00, 0x00, Keys::Char('{')),
        entry(0x7D, 0x00, 0x00, Keys::Char('}')),
        entry(0x28, 0x00, 0x00, Keys::Char('(')),
        entry(0x29, 0x00, 0x00, Keys::Char(')')),
        entry(0x3C, 0x00, 0x00, Keys::Char('<')),
        entry(0x3E, 0x00, 0x00, Keys::Char('>')),
        entry(0x27, 0x00, 0x00, Keys::Char('\'')),
        entry(0x40, 0x00, 0x00, Keys::Char('@')),
        entry(0xC2, 0xA1, 0x00, Keys::Char('¡')),
        entry(0x21, 0x00, 0x00, Keys::Char('!')),
        entry(0x22, 0x00, 0x00, Keys::Char('"')),
        entry(0x60, 0x00, 0x00, Keys::Char('`')),
        entry(0xC2, 0xB4, 0x00, Keys::Char('´')),
    ]
}

pub open spec fn numbers() -> Seq<PatternEntry> {
    seq![
        entry(0x30, 0x00, 0x00, Keys::Digit(0)),
        entry(0x31, 0x00, 0x00, Keys::Digit(1)),
        entry(0x32, 0x00, 0x00, Keys::Digit(2)),
        entry(0x33, 0x00, 0x00, Keys::Digit(3)),
        entry(0x34, 0x00, 0x00, Keys::Digit(4)),
        entry(0x35, 0x00, 0x00, Keys::Digit(5)),
        entry(0x36, 0x00, 0x00, Keys::Digit(6)),
        entry(0x37, 0x00, 0x00, Keys::Digit(7)),
        entry(0x38, 0x00, 0x00, Keys::Digit(8)),
        entry(0x39, 0x00, 0x00, Keys::Digit(9)),
    ]
}

pub open spec fn lower_letters() -> Seq<PatternEntry> {
    seq![
        entry(0x61, 0x00, 0x00, Keys::Char('a')),
        entry(0x62, 0x00, 0x00, Keys::Char('b')),
        entry(0x63, 0x00, 0x00, Keys::Char('c')),
        entry(0x64, 0x00, 0x00, Keys::Char('d')),
        entry(0x65, 0x00, 0x00, Keys::Char('e')),
        entry(0x66, 0x00, 0x00, Keys::Char('f')),
        entry(0x67, 0x00, 0x00, Keys::Char('g')),
        entry(0x68, 0x00, 0x00, Keys::Char('h')),
        entry(0x69, 0x00, 0x00, Keys::Char('i')),
        entry(0x6A, 0x00, 0x00, Keys::Char('j')),
        entry(0x6B, 0x00, 0x00, Keys::Char('k')),
        entry(0x6C, 0x00, 0x00, Keys::Char('l')),
        entry(0x6D, 0x00, 0x00, Keys::Char('m')),
        entry(0x6E, 0x00, 0x00, Keys::Char('n')),
        entry(0xB1, 0xB1, 0x00, Keys::Char('ñ')),
        entry(0x6F, 0x00, 0x00, Keys::Char('o')),
        entry(0x70, 0x00, 0x00, Keys::Char('p')),
        entry(0x71, 0x00, 0x00, Keys::Char('q')),
        entry(0x72, 0x00, 0x00, Keys::Char('r')),
        entry(0x73, 0x00, 0x00, Keys::Char('s')),
        entry(0x74, 0x00, 0x00, Keys::Char('t')),
        entry(0x75, 0x00, 0x00, Keys::Char('u')),
        entry(0x76, 0x00, 0x00, Keys::Char('v')),
        entry(0x77, 0x00, 0x00, Keys::Char('w')),
        entry(0x78, 0x00, 0x00, Keys::Char('x')),
        entry(0x79, 0x00, 0x00, Keys::Char('y')),
        entry(0x7A, 0x00, 0x00, Keys::Char('z')),
    ]
}

pub open spec fn upper_letters() -> Seq<PatternEntry> {
    seq![
        entry(0x41, 0x00, 0x00, Keys::Char('A')),
        entry(0x42, 0x00, 0x00, Keys::Char('B')),
        entry(0x43, 0x00, 0x00, Keys::Char('C')),
        entry(0x44, 0x00, 0x00, Keys::Char('D')),
        entry(0x45, 0x00, 0x00, Keys::Char('E')),
        entry(0x46, 0x00, 0x00, Keys::Char('F')),
        entry(0x47, 0x00, 0x00, Keys::Char('G')),
        entry(0x48, 0x00, 0x00, Keys::Char('H')),
        entry(0x49, 0x00, 0x00, Keys::Char('I')),
        entry(0x4A, 0x00, 0x00, Keys::Char('J')),
        entry(0x4B, 0x00, 0x00, Keys::Char('K')),
        entry(0x4C, 0x00, 0x00, Keys::Char('L')),
        entry(0x4D, 0x00, 0x00, Keys::Char('M')),
        entry(0x4E, 0x00, 0x00, Keys::Char('N')),
        entry(0xB1, 0x91, 0x00, Keys::Char('Ñ')),
        entry(0x4F, 0x00, 0x00, Keys::Char('O')),
        entry(0x50, 0x00, 0x00, Keys::Char('P')),
        entry(0x51, 0x00, 0x00, Keys::Char('Q')),
        entry(0x52, 0x00, 0x00, Keys::Char('R')),
        entry(0x53, 0x00, 0x00, Keys::Char('S')),
        entry(0x54, 0x00, 0x00, Keys::Char('T')),
        entry(0x55, 0x00, 0x00, Keys::Char('U')),
        entry(0x56, 0x00, 0x00, Keys::Char('V')),
        entry(0x57, 0x00, 0x00, Keys::Char('W')),
        entry(0x58, 0x00, 0x00, Keys::Char('X')),
        entry(0x59, 0x00, 0x00, Keys::Char('Y')),
        entry(0x5A, 0x00, 0x00, Keys::Char('Z')),
    ]
}

pub open spec fn function_keys() -> Seq<PatternEntry> {
    seq![
        entry(0x1B, 0x4F, 0x50, Keys::F(1)),
        entry(0x1B, 0x4F, 0x51, Keys::F(2)),
        entry(0x1B, 0x4F, 0x52, Keys::F(3)),
        entry(0x1B, 0x4F, 0x53, Keys::F(4)),
        entry(0x35, 0x7E, 0x00, Keys::F(5)),
        entry(0x37, 0x7E, 0x00, Keys::F(6)),
        entry(0x38, 0x7E, 0x00, Keys::F(7)),
        entry(0x39, 0x7E, 0x00, Keys::F(8)),
        entry(0x30, 0x7E, 0x00, Keys::F(9)),
        entry(0x31, 0x7E, 0x00, Keys::F(10)),
        entry(0x33, 0x7E, 0x00, Keys::F(11)),
        entry(0x34, 0x7E, 0x00, Keys::F(12)),
    ]
}

pub open spec fn ctrl_lower_letters() -> Seq<PatternEntry> {
    seq![
        entry(0x01, 0x00, 0x00, Keys::Ctrl('a')),
        entry(0x02, 0x00, 0x00, Keys::Ctrl('b')),
        entry(0x03, 0x00, 0x00, Keys::Ctrl('c')),
        entry(0x04, 0x00, 0x00, Keys::Ctrl('d')),
        entry(0x05, 0x00, 0x00, Keys::Ctrl('e')),
        entry(0x06, 0x00, 0x00, Keys::Ctrl('f')),
        entry(0x07, 0x00, 0x00, Keys::Ctrl('g')),
        entry(0x08, 0x00, 0x00, Keys::Ctrl('h')),
        entry(0x0B, 0x00, 0x00, Keys::Ctrl('k')),
        entry(0x0C, 0x00, 0x00, Keys::Ctrl('l')),
        entry(0x0D, 0x00, 0x00, Keys::Ctrl('m')),
        entry(0x0E, 0x00, 0x00, Keys::Ctrl('n')),
        entry(0x0F, 0x00, 0x00, Keys::Ctrl('o')),
        entry(0x10, 0x00, 0x00, Keys::Ctrl('p')),
        entry(0x11, 0x00, 0x00, Keys::Ctrl('q')),
        entry(0x12, 0x00, 0x00, Keys::Ctrl('r')),
        entry(0x13, 0x00, 0x00, Keys::Ctrl('s')),
        entry(0x14, 0x00, 0x00, Keys::Ctrl('t')),
        entry(0x15, 0x00, 0x00, Keys::Ctrl('u')),
        entry(0x16, 0x00, 0x00, Keys::Ctrl('v')),
        entry(0x17, 0x00, 0x00, Keys::Ctrl('w')),
        entry(0x18, 0x00, 0x00, Keys::Ctrl('x')),
        entry(0x19, 0x00, 0x00, Keys::Ctrl('y')),
        entry(0x1A, 0x00, 0x00, Keys::Ctrl('z')),
    ]
}

pub open spec fn ctrl_upper_letters() -> Seq<PatternEntry> {
    seq![
        entry(0x01, 0x00, 0x00, Keys::Ctrl('A')),
        entry(0x02, 0x00, 0x00, Keys::Ctrl('B')),
        entry(0x03, 0x00, 0x00, Keys::Ctrl('C')),
        entry(0x04, 0x00, 0x00, Keys::Ctrl('D')),
        entry(0x05, 0x00, 0x00, Keys::Ctrl('E')),
        entry(0x06, 0x00, 0x00, Keys::Ctrl('F')),
        entry(0x07, 0x00, 0x00, Keys::Ctrl('G')),
        entry(0x08, 0x00, 0x00, Keys::Ctrl('H')),
        entry(0x0B, 0x00, 0x00, Keys::Ctrl('K')),
        entry(0x0C, 0x00, 0x00, Keys::Ctrl('L')),
        entry(0x0D, 0x00, 0x00, Keys::Ctrl('M')),
        entry(0x0E, 0x00, 0x00, Keys::Ctrl('N')),
        entry(0x0F, 0x00, 0x00, Keys::Ctrl('O')),
        entry(0x10, 0x00, 0x00, Keys::Ctrl('P')),
        entry(0x11, 0x00, 0x00, Keys::Ctrl('Q')),
        entry(0x12, 0x00, 0x00, Keys::Ctrl('R')),
        entry(0x13, 0x00, 0x00, Keys::Ctrl('S')),
        entry(0x14, 0x00, 0x00, Keys::Ctrl('T')),
        entry(0x15, 0x00, 0x00, Keys::Ctrl('U')),
        entry(0x16, 0x00, 0x00, Keys::Ctrl('V')),
        entry(0x17, 0x00, 0x00, Keys::Ctrl('W')),
        entry(0x18, 0x00, 0x00, Keys::Ctrl('X')),
        entry(0x19, 0x00, 0x00, Keys::Ctrl('Y')),
        entry(0x1A, 0x00, 0x00, Keys::Ctrl('Z')),
    ]
}

pub open spec fn ctrl_standard() -> Seq<PatternEntry> {
    seq![
        entry(0x2B, 0x00, 0x00, Keys::Ctrl('+')),
        entry(0x1F, 0x00, 0x00, Keys::Ctrl('-')),
    ]
}

pub open spec fn ctrl_numbers() -> Seq<PatternEntry> {
    seq![
        entry(0x30, 0x00, 0x00, Keys::Ctrl('0')),
        entry(0x31, 0x00, 0x00, Keys::Ctrl('1')),
        entry(0x32, 0x00, 0x00, Keys::Ctrl('2')),
        entry(0x33, 0x00, 0x00, Keys::Ctrl('3')),
        entry(0x34, 0x00, 0x00, Keys::Ctrl('4')),
        entry(0x35, 0x00, 0x00, Keys::Ctrl('5')),
        entry(0x36, 0x00, 0x00, Keys::Ctrl('6')),
        entry(0x37, 0x00, 0x00, Keys::Ctrl('7')),
        entry(0x38, 0x00, 0x00, Keys::Ctrl('8')),
        entry(0x39, 0x00, 0x00, Keys::Ctrl('9')),
    ]
}

pub open spec fn alt_lower_letters() -> Seq<PatternEntry> {
    seq![
        entry(0x1B, 0x61, 0x00, Keys::Alt('a')),
        entry(0x1B, 0x62, 0x00, Keys::Alt('b')),
        entry(0x1B, 0x63, 0x00, Keys::Alt('c')),
        entry(0x1B, 0x64, 0x00, Keys::Alt('d')),
        entry(0x1B, 0x65, 0x00, Keys::Alt('e')),
        entry(0x1B, 0x66, 0x00, Keys::Alt('f')),
        entry(0x1B, 0x67, 0x00, Keys::Alt('g')),
        entry(0x1B, 0x68, 0x00, Keys::Alt('h')),
        entry(0x1B, 0x69, 0x00, Keys::Alt('i')),
        entry(0x1B, 0x6A, 0x00, Keys::Alt('j')),
        entry(0x1B, 0x6B, 0x00, Keys::Alt('k')),
        entry(0x1B, 0x6C, 0x00, Keys::Alt('l')),
        entry(0x1B, 0x6D, 0x00, Keys::Alt('m')),
        entry(0x1B, 0x6E, 0x00, Keys::Alt('n')),
        entry(0x1B, 0xC3, 0xB1, Keys::Alt('ñ')),
        entry(0x1B, 0x6F, 0x00, Keys::Alt('o')),
        entry(0x1B, 0x70, 0x00, Keys::Alt('p')),
        entry(0x1B, 0x71, 0x00, Keys::Alt('q')),
        entry(0x1B, 0x72, 0x00, Keys::Alt('r')),
        entry(0x1B, 0x73, 0x00, Keys::Alt('s')),
        entry(0x1B, 0x74, 0x00, Keys::Alt('t')),
        entry(0x1B, 0x75, 0x00, Keys::Alt('u')),
        entry(0x1B, 0x76, 0x00, Keys::Alt('v')),
        entry(0x1B, 0x77, 0x00, Keys::Alt('w')),
        entry(0x1B, 0x78, 0x00, Keys::Alt('x')),
        entry(0x1B, 0x79, 0x00, Keys::Alt('y')),
        entry(0x1B, 0x7A, 0x00, Keys::Alt('z')),
    ]
}

pub open spec fn alt_upper_letters() -> Seq<PatternEntry> {
    seq![
        entry(0x1B, 0x41, 0x00, Keys::Alt('A')),
        entry(0x1B, 0x42, 0x00, Keys::Alt('B')),
        entry(0x1B, 0x43, 0x00, Keys::Alt('C')),
        entry(0x1B, 0x44, 0x00, Keys::Alt('D')),
        entry(0x1B, 0x45, 0x00, Keys::Alt('E')),
        entry(0x1B, 0x46, 0x00, Keys::Alt('F')),
        entry(0x1B, 0x47, 0x00, Keys::Alt('G')),
        entry(0x1B, 0x48, 0x00, Keys::Alt('H')),
        entry(0x1B, 0x49, 0x00, Keys::Alt('I')),
        entry(0x1B, 0x4A, 0x00, Keys::Alt('J')),
        entry(0x1B, 0x4B, 0x00, Keys::Alt('K')),
        entry(0x1B, 0x4C, 0x00, Keys::Alt('L')),
        entry(0x1B, 0x4D, 0x00, Keys::Alt('M')),
        entry(0x1B, 0x4E, 0x00, Keys::Alt('N')),
        entry(0x1B, 0xC3, 0x91, Keys::Alt('Ñ')),
        entry(0x1B, 0x4F, 0x00, Keys::Alt('O')),
        entry(0x1B, 0x50, 0x00, Keys::Alt('P')),
        entry(0x1B, 0x51, 0x00, Keys::Alt('Q')),
        entry(0x1B, 0x52, 0x00, Keys::Alt('R')),
        entry(0x1B, 0x53, 0x00, Keys::Alt('S')),
        entry(0x1B, 0x54, 0x00, Keys::Alt('T')),
        entry(0x1B, 0x55, 0x00, Keys::Alt('U')),
        entry(0x1B, 0x56, 0x00, Keys::Alt('V')),
        entry(0x1B, 0x57, 0x00, Keys::Alt('W')),
        entry(0x1B, 0x58, 0x00, Keys::Alt('X')),
        entry(0x1B, 0x59, 0x00, Keys::Alt('Y')),
        entry(0x1B, 0x5A, 0x00, Keys::Alt('Z')),
    ]
}

pub open spec fn alt_numbers() -> Seq<PatternEntry> {
    seq![
        entry(0x30, 0x00, 0x00, Keys::Alt('0')),
        entry(0x31, 0x00, 0x00, Keys::Alt('1')),
        entry(0x32, 0x00, 0x00, Keys::Alt('2')),
        entry(0x33, 0x00, 0x00, Keys::Alt('3')),
        entry(0x34, 0x00, 0x00, Keys::Alt('4')),
        entry(0x35, 0x00, 0x00, Keys::Alt('5')),
        entry(0x36, 0x00, 0x00, Keys::Alt('6')),
        entry(0x37, 0x00, 0x00, Keys::Alt('7')),
        entry(0x38, 0x00, 0x00, Keys::Alt('8')),
        entry(0x39, 0x00, 0x00, Keys::Alt('9')),
    ]
}

pub open spec fn alt_gr_lower_letters() -> Seq<PatternEntry> {
    seq![
        entry(0xC3, 0xA6, 0x00, Keys::AltGr('a')),
        entry(0xE2, 0x80, 0x9C, Keys::AltGr('b')),
        entry(0xC2, 0xA2, 0x00, Keys::AltGr('c')),
        entry(0xC3, 0xB0, 0x00, Keys::AltGr('d')),
        entry(0xE2, 0x82, 0xAC, Keys::AltGr('e')),
        entry(0xC4, 0x91, 0x00, Keys::AltGr('f')),
        entry(0xC5, 0x8B, 0x00, Keys::AltGr('g')),
        entry(0xC4, 0xA7, 0x00, Keys::AltGr('h')),
        entry(0xE2, 0x86, 0x92, Keys::AltGr('i')),
        entry(0xCC, 0x89, 0x00, Keys::AltGr('j')),
        entry(0xC4, 0xB8, 0x00, Keys::AltGr('k')),
        entry(0xC5, 0x82, 0x00, Keys::AltGr('l')),
        entry(0xC2, 0xB5, 0x00, Keys::AltGr('m')),
        entry(0xE2, 0x80, 0x9D, Keys::AltGr('n')),
        entry(0x7E, 0x00, 0x00, Keys::AltGr('ñ')),
        entry(0xC3, 0xB8, 0x00, Keys::AltGr('o')),
        entry(0xC3, 0xBE, 0x00, Keys::AltGr('p')),
        entry(0x40, 0x00, 0x00, Keys::AltGr('q')),
        entry(0xC2, 0xB6, 0x00, Keys::AltGr('r')),
        entry(0xC3, 0x9F, 0x00, Keys::AltGr('s')),
        entry(0xC5, 0xA7, 0x00, Keys::AltGr('t')),
        entry(0xE2, 0x86, 0x93, Keys::AltGr('u')),
        entry(0xE2, 0x80, 0x9E, Keys::AltGr('v')),
        entry(0xC5, 0xBF, 0x00, Keys::AltGr('w')),
        entry(0xC2, 0xBB, 0x00, Keys::AltGr('x')),
        entry(0xE2, 0x86, 0x90, Keys::AltGr('y')),
        entry(0xC2, 0xAB, 0x00, Keys::AltGr('z')),
    ]
}

pub open spec fn alt_gr_upper_letters() -> Seq<PatternEntry> {
    seq![
        entry(0xC3, 0xA6, 0x00, Keys::AltGr('A')),
        entry(0xE2, 0x80, 0x9C, Keys::AltGr('b')),
        entry(0xC2, 0xA2, 0x00, Keys::AltGr('c')),
        entry(0xC3, 0xB0, 0x00, Keys::AltGr('d')),
        entry(0xE2, 0x82, 0xAC, Keys::AltGr('e')),
        entry(0xC4, 0x91, 0x00, Keys::AltGr('f')),
        entry(0xC5, 0x8B, 0x00, Keys::AltGr('g')),
        entry(0xC4, 0xA7, 0x00, Keys::AltGr('h')),
        entry(0xE2, 0x86, 0x92, Keys::AltGr('i')),
        entry(0xCC, 0x89, 0x00, Keys::AltGr('j')),
        entry(0xC4, 0xB8, 0x00, Keys::AltGr('k')),
        entry(0xC5, 0x82, 0x00, Keys::AltGr('l')),
        entry(0xC2, 0xB5, 0x00, Keys::AltGr('m')),
        entry(0xE2, 0x80, 0x9D, Keys::AltGr('n')),
        entry(0x7E, 0x00, 0x00, Keys::AltGr('ñ')),
        entry(0xC3, 0xB8, 0x00, Keys::AltGr('o')),
        entry(0xC3, 0xBE, 0x00, Keys::AltGr('p')),
        entry(0x40, 0x00, 0x00, Keys::AltGr('q')),
        entry(0xC2, 0xB6, 0x00, Keys::AltGr('r')),
        entry(0xC3, 0x9F, 0x00, Keys::AltGr('s')),
        entry(0xC5, 0xA7, 0x00, Keys::AltGr('t')),
        entry(0xE2, 0x86, 0x93, Keys::AltGr('u')),
        entry(0xE2, 0x80, 0x9E, Keys::AltGr('v')),
        entry(0xC5, 0xBF, 0x00, Keys::AltGr('w')),
        entry(0xC2, 0xBB, 0x00, Keys::AltGr('x')),
        entry(0xE2, 0x86, 0x90, Keys::AltGr('y')),
        entry(0xC2, 0xAB, 0x00, Keys::AltGr('z')),
    ]
}

pub open spec fn alt_gr_numbers() -> Seq<PatternEntry> {
    seq![
        entry(0x30, 0x00, 0x00, Keys::AltGr('0')),
        entry(0x31, 0x00, 0x00, Keys::AltGr('1')),
        entry(0x32, 0x00, 0x00, Keys::AltGr('2')),
        entry(0x33, 0x00, 0x00, Keys::AltGr('3')),
        entry(0x34, 0x00, 0x00, Keys::AltGr('4')),
        entry(0x35, 0x00, 0x00, Keys::AltGr('5')),
        entry(0x36, 0x00, 0x00, Keys::AltGr('6')),
        entry(0x37, 0x00, 0x00, Keys::AltGr('7')),
        entry(0x38, 0x00, 0x00, Keys::AltGr('8')),
        entry(0x39, 0x00, 0x00, Keys::AltGr('9')),
    ]
}

fn arrows_enter_table() -> (r: Vec<PatternEntry>)
    ensures
        r@ == arrows_enter(),
{
    let mut v: Vec<PatternEntry> = Vec::new();
    push_entry(&mut v, 0x1B, 0x5B, 0x41, Keys::Up);
    push_entry(&mut v, 0x1B, 0x5B, 0x42, Keys::Down);
    push_entry(&mut v, 0x1B, 0x5B, 0x43, Keys::Right);
    push_entry(&mut v, 0x1B, 0x5B, 0x44, Keys::Left);
    push_entry(&mut v, 0x0A, 0x00, 0x00, Keys::Enter);
    push_entry(&mut v, 0x0D, 0x00, 0x00, Keys::Enter);
    assert(v@ =~= arrows_enter());
    v
}

fn standard_table() -> (r: Vec<PatternEntry>)
    ensures
        r@ == standard(),
{
    let mut v: Vec<PatternEntry> = Vec::new();
    push_entry(&mut v, 0x1B, 0x5B, 0x48, Keys::Home);
    push_entry(&mut v, 0x09, 0x00, 0x00, Keys::Tab);
    push_entry(&mut v, 0x1B, 0x5B, 0x46, Keys::End);
    push_entry(&mut v, 0x1B, 0x5B, 0x5A, Keys::Backtab);
    push_entry(&mut v, 0x1B, 0x00, 0x00, Keys::Escape);
    push_entry(&mut v, 0x20, 0x00, 0x00, Keys::Space);
    push_entry(&mut v, 0x7F, 0x00, 0x00, Keys::Delete);
    push_entry(&mut v, 0x2B, 0x00, 0x00, Keys::Char('+'));
    push_entry(&mut v, 0x2D, 0x00, 0x00, Keys::Char('-'));
    push_entry(&mut v, 0x3D, 0x00, 0x00, Keys::Char('='));
    push_entry(&mut v, 0x2F, 0x00, 0x00, Keys::Char('/'));
    push_entry(&mut v, 0x5C, 0x00, 0x00, Keys::Char('\\'));
    push_entry(&mut v, 0x5E, 0x00, 0x00, Keys::Char('^'));
    push_entry(&mut v, 0x2A, 0x00, 0x00, Keys::Char('*'));
    push_entry(&mut v, 0x2E, 0x00, 0x00, Keys::Char('.'));
    push_entry(&mut v, 0x2C, 0x00, 0x00, Keys::Char(','));
    push_entry(&mut v, 0x23, 0x00, 0x00, Keys::Char('#'));
    push_entry(&mut v, 0x26, 0x00, 0x00, Keys::Char('&'));
    push_entry(&mut v, 0x25, 0x00, 0x00, Keys::Char('%'));
    push_entry(&mut v, 0x7C, 0x00, 0x00, Keys::Char('|'));
    push_entry(&mut v, 0x24, 0x00, 0x00, Keys::Char('$'));
    push_entry(&mut v, 0x3A, 0x00, 0x00, Keys::Char(':'));
    push_entry(&mut v, 0x3B, 0x00, 0x00, Keys::Char(';'));
    push_entry(&mut v, 0xC2, 0xBF, 0x00, Keys::Char('¿'));
    push_entry(&mut v, 0x3F, 0x00, 0x00, Keys::Char('?'));
    push_entry(&mut v, 0x5B, 0x00, 0x00, Keys::Char('['));
    push_entry(&mut v, 0x5D, 0x00, 0x00, Keys::Char(']'));
    push_entry(&mut v, 0x7B, 0x00, 0x00, Keys::Char('{'));
    push_entry(&mut v, 0x7D, 0x00, 0x00, Keys::Char('}'));
    push_entry(&mut v, 0x28, 0x00, 0x00, Keys::Char('('));
    push_entry(&mut v, 0x29, 0x00, 0x00, Keys::Char(')'));
    push_entry(&mut v, 0x3C, 0x00, 0x00, Keys::Char('<'));
    push_entry(&mut v, 0x3E, 0x00, 0x00, Keys::Char('>'));
    push_entry(&mut v, 0x27, 0x00, 0x00, Keys::Char('\''));
    push_entry(&mut v, 0x40, 0x00, 0x00, Keys::Char('@'));
    push_entry(&mut v, 0xC2, 0xA1, 0x00, Keys::Char('¡'));
    push_entry(&mut v, 0x21, 0x00, 0x00, Keys::Char('!'));
    push_entry(&mut v, 0x22, 0x00, 0x00, Keys::Char('"'));
    push_entry(&mut v, 0x60, 0x00, 0x00, Keys::Char('`'));
    push_entry(&mut v, 0xC2, 0xB4, 0x00, Keys::Char('´'));
    assert(v@ =~= standard());
    v
}

fn numbers_table() -> (r: Vec<PatternEntry>)
    ensures
        r@ == numbers(),
{
    let mut v: Vec<PatternEntry> = Vec::new();
    push_entry(&mut v, 0x30, 0x00, 0x00, Keys::Digit(0));
    push_entry(&mut v, 0x31, 0x00, 0x00, Keys::Digit(1));
    push_entry(&mut v, 0x32, 0x00, 0x00, Keys::Digit(2));
    push_entry(&mut v, 0x33, 0x00, 0x00, Keys::Digit(3));
    push_entry(&mut v, 0x34, 0x00, 0x00, Keys::Digit(4));
    push_entry(&mut v, 0x35, 0x00, 0x00, Keys::Digit(5));
    push_entry(&mut v, 0x36, 0x00, 0x00, Keys::Digit(6));
    push_entry(&mut v, 0x37, 0x00, 0x00, Keys::Digit(7));
    push_entry(&mut v, 0x38, 0x00, 0x00, Keys::Digit(8));
    push_entry(&mut v, 0x39, 0x00, 0x00, Keys::Digit(9));
    assert(v@ =~= numbers());
    v
}

fn lower_letters_table() -> (r: Vec<PatternEntry>)
    ensures
        r@ == lower_letters(),
{
    let mut v: Vec<PatternEntry> = Vec::new();
    push_entry(&mut v, 0x61, 0x00, 0x00, Keys::Char('a'));
    push_entry(&mut v, 0x62, 0x00, 0x00, Keys::Char('b'));
    push_entry(&mut v, 0x63, 0x00, 0x00, Keys::Char('c'));
    push_entry(&mut v, 0x64, 0x00, 0x00, Keys::Char('d'));
    push_entry(&mut v, 0x65, 0x00, 0x00, Keys::Char('e'));
    push_entry(&mut v, 0x66, 0x00, 0x00, Keys::Char('f'));
    push_entry(&mut v, 0x67, 0x00, 0x00, Keys::Char('g'));
    push_entry(&mut v, 0x68, 0x00, 0x00, Keys::Char('h'));
    push_entry(&mut v, 0x69, 0x00, 0x00, Keys::Char('i'));
    push_entry(&mut v, 0x6A, 0x00, 0x00, Keys::Char('j'));
    push_entry(&mut v, 0x6B, 0x00, 0x00, Keys::Char('k'));
    push_entry(&mut v, 0x6C, 0x00, 0x00, Keys::Char('l'));
    push_entry(&mut v, 0x6D, 0x00, 0x00, Keys::Char('m'));
    push_entry(&mut v, 0x6E, 0x00, 0x00, Keys::Char('n'));
    push_entry(&mut v, 0xB1, 0xB1, 0x00, Keys::Char('ñ'));
    push_entry(&mut v, 0x6F, 0x00, 0x00, Keys::Char('o'));
    push_entry(&mut v, 0x70, 0x00, 0x00, Keys::Char('p'));
    push_entry(&mut v, 0x71, 0x00, 0x00, Keys::Char('q'));
    push_entry(&mut v, 0x72, 0x00, 0x00, Keys::Char('r'));
    push_entry(&mut v, 0x73, 0x00, 0x00, Keys::Char('s'));
    push_entry(&mut v, 0x74, 0x00, 0x00, Keys::Char('t'));
    push_entry(&mut v, 0x75, 0x00, 0x00, Keys::Char('u'));
    push_entry(&mut v, 0x76, 0x00, 0x00, Keys::Char('v'));
    push_entry(&mut v, 0x77, 0x00, 0x00, Keys::Char('w'));
    push_entry(&mut v, 0x78, 0x00, 0x00, Keys::Char('x'));
    push_entry(&mut v, 0x79, 0x00, 0x00, Keys::Char('y'));
    push_entry(&mut v, 0x7A, 0x00, 0x00, Keys::Char('z'));
    assert(v@ =~= lower_letters());
    v
}

fn upper_letters_table() -> (r: Vec<PatternEntry>)
    ensures
        r@ == upper_letters(),
{
    let mut v: Vec<PatternEntry> = Vec::new();
    push_entry(&mut v, 0x41, 0x00, 0x00, Keys::Char('A'));
    push_entry(&mut v, 0x42, 0x00, 0x00, Keys::Char('B'));
    push_entry(&mut v, 0x43, 0x00, 0x00, Keys::Char('C'));
    push_entry(&mut v, 0x44, 0x00, 0x00, Keys::Char('D'));
    push_entry(&mut v, 0x45, 0x00, 0x00, Keys::Char('E'));
    push_entry(&mut v, 0x46, 0x00, 0x00, Keys::Char('F'));
    push_entry(&mut v, 0x47, 0x00, 0x00, Keys::Char('G'));
    push_entry(&mut v, 0x48, 0x00, 0x00, Keys::Char('H'));
    push_entry(&mut v, 0x49, 0x00, 0x00, Keys::Char('I'));
    push_entry(&mut v, 0x4A, 0x00, 0x00, Keys::Char('J'));
    push_entry(&mut v, 0x4B, 0x00, 0x00, Keys::Char('K'));
    push_entry(&mut v, 0x4C, 0x00, 0x00, Keys::Char('L'));
    push_entry(&mut v, 0x4D, 0x00, 0x00, Keys::Char('M'));
    push_entry(&mut v, 0x4E, 0x00, 0x00, Keys::Char('N'));
    push_entry(&mut v, 0xB1, 0x91, 0x00, Keys::Char('Ñ'));
    push_entry(&mut v, 0x4F, 0x00, 0x00, Keys::Char('O'));
    push_entry(&mut v, 0x50, 0x00, 0x00, Keys::Char('P'));
    push_entry(&mut v, 0x51, 0x00, 0x00, Keys::Char('Q'));
    push_entry(&mut v, 0x52, 0x00, 0x00, Keys::Char('R'));
    push_entry(&mut v, 0x53, 0x00, 0x00, Keys::Char('S'));
    push_entry(&mut v, 0x54, 0x00, 0x00, Keys::Char('T'));
    push_entry(&mut v, 0x55, 0x00, 0x00, Keys::Char('U'));
    push_entry(&mut v, 0x56, 0x00, 0x00, Keys::Char('V'));
    push_entry(&mut v, 0x57, 0x00, 0x00, Keys::Char('W'));
    push_entry(&mut v, 0x58, 0x00, 0x00, Keys::Char('X'));
    push_entry(&mut v, 0x59, 0x00, 0x00, Keys::Char('Y'));
    push_entry(&mut v, 0x5A, 0x00, 0x00, Keys::Char('Z'));
    assert(v@ =~= upper_letters());
    v
}

fn function_keys_table() -> (r: Vec<PatternEntry>)
    ensures
        r@ == function_keys(),
{
    let mut v: Vec<PatternEntry> = Vec::new();
    push_entry(&mut v, 0x1B, 0x4F, 0x50, Keys::F(1));
    push_entry(&mut v, 0x1B, 0x4F, 0x51, Keys::F(2));
    push_entry(&mut v, 0x1B, 0x4F, 0x52, Keys::F(3));
    push_entry(&mut v, 0x1B, 0x4F, 0x53, Keys::F(4));
    push_entry(&mut v, 0x35, 0x7E, 0x00, Keys::F(5));
    push_entry(&mut v, 0x37, 0x7E, 0x00, Keys::F(6));
    push_entry(&mut v, 0x38, 0x7E, 0x00, Keys::F(7));
    push_entry(&mut v, 0x39, 0x7E, 0x00, Keys::F(8));
    push_entry(&mut v, 0x30, 0x7E, 0x00, Keys::F(9));
    push_entry(&mut v, 0x31, 0x7E, 0x00, Keys::F(10));
    push_entry(&mut v, 0x33, 0x7E, 0x00, Keys::F(11));
    push_entry(&mut v, 0x34, 0x7E, 0x00, Keys::F(12));
    assert(v@ =~= function_keys());
    v
}

fn ctrl_lower_letters_table() -> (r: Vec<PatternEntry>)
    ensures
        r@ == ctrl_lower_letters(),
{
    let mut v: Vec<PatternEntry> = Vec::new();
    push_entry(&mut v, 0x01, 0x00, 0x00, Keys::Ctrl('a'));
    push_entry(&mut v, 0x02, 0x00, 0x00, Keys::Ctrl('b'));
    push_entry(&mut v, 0x03, 0x00, 0x00, Keys::Ctrl('c'));
    push_entry(&mut v, 0x04, 0x00, 0x00, Keys::Ctrl('d'));
    push_entry(&mut v, 0x05, 0x00, 0x00, Keys::Ctrl('e'));
    push_entry(&mut v, 0x06, 0x00, 0x00, Keys::Ctrl('f'));
    push_entry(&mut v, 0x07, 0x00, 0x00, Keys::Ctrl('g'));
    push_entry(&mut v, 0x08, 0x00, 0x00, Keys::Ctrl('h'));
    push_entry(&mut v, 0x0B, 0x00, 0x00, Keys::Ctrl('k'));
    push_entry(&mut v, 0x0C, 0x00, 0x00, Keys::Ctrl('l'));
    push_entry(&mut v, 0x0D, 0x00, 0x00, Keys::Ctrl('m'));
    push_entry(&mut v, 0x0E, 0x00, 0x00, Keys::Ctrl('n'));
    push_entry(&mut v, 0x0F, 0x00, 0x00, Keys::Ctrl('o'));
    push_entry(&mut v, 0x10, 0x00, 0x00, Keys::Ctrl('p'));
    push_entry(&mut v, 0x11, 0x00, 0x00, Keys::Ctrl('q'));
    push_entry(&mut v, 0x12, 0x00, 0x00, Keys::Ctrl('r'));
    push_entry(&mut v, 0x13, 0x00, 0x00, Keys::Ctrl('s'));
    push_entry(&mut v, 0x14, 0x00, 0x00, Keys::Ctrl('t'));
    push_entry(&mut v, 0x15, 0x00, 0x00, Keys::Ctrl('u'));
    push_entry(&mut v, 0x16, 0x00, 0x00, Keys::Ctrl('v'));
    push_entry(&mut v, 0x17, 0x00, 0x00, Keys::Ctrl('w'));
    push_entry(&mut v, 0x18, 0x00, 0x00, Keys::Ctrl('x'));
    push_entry(&mut v, 0x19, 0x00, 0x00, Keys::Ctrl('y'));
    push_entry(&mut v, 0x1A, 0x00, 0x00, Keys::Ctrl('z'));
    assert(v@ =~= ctrl_lower_letters());
    v
}

fn ctrl_upper_letters_table() -> (r: Vec<PatternEntry>)
    ensures
        r@ == ctrl_upper_letters(),
{
    let mut v: Vec<PatternEntry> = Vec::new();
    push_entry(&mut v, 0x01, 0x00, 0x00, Keys::Ctrl('A'));
    push_entry(&mut v, 0x02, 0x00, 0x00, Keys::Ctrl('B'));
    push_entry(&mut v, 0x03, 0x00, 0x00, Keys::Ctrl('C'));
    push_entry(&mut v, 0x04, 0x00, 0x00, Keys::Ctrl('D'));
    push_entry(&mut v, 0x05, 0x00, 0x00, Keys::Ctrl('E'));
    push_entry(&mut v, 0x06, 0x00, 0x00, Keys::Ctrl('F'));
    push_entry(&mut v, 0x07, 0x00, 0x00, Keys::Ctrl('G'));
    push_entry(&mut v, 0x08, 0x00, 0x00, Keys::Ctrl('H'));
    push_entry(&mut v, 0x0B, 0x00, 0x00, Keys::Ctrl('K'));
    push_entry(&mut v, 0x0C, 0x00, 0x00, Keys::Ctrl('L'));
    push_entry(&mut v, 0x0D, 0x00, 0x00, Keys::Ctrl('M'));
    push_entry(&mut v, 0x0E, 0x00, 0x00, Keys::Ctrl('N'));
    push_entry(&mut v, 0x0F, 0x00, 0x00, Keys::Ctrl('O'));
    push_entry(&mut v, 0x10, 0x00, 0x00, Keys::Ctrl('P'));
    push_entry(&mut v, 0x11, 0x00, 0x00, Keys::Ctrl('Q'));
    push_entry(&mut v, 0x12, 0x00, 0x00, Keys::Ctrl('R'));
    push_entry(&mut v, 0x13, 0x00, 0x00, Keys::Ctrl('S'));
    push_entry(&mut v, 0x14, 0x00, 0x00, Keys::Ctrl('T'));
    push_entry(&mut v, 0x15, 0x00, 0x00, Keys::Ctrl('U'));
    push_entry(&mut v, 0x16, 0x00, 0x00, Keys::Ctrl('V'));
    push_entry(&mut v, 0x17, 0x00, 0x00, Keys::Ctrl('W'));
    push_entry(&mut v, 0x18, 0x00, 0x00, Keys::Ctrl('X'));
    push_entry(&mut v, 0x19, 0x00, 0x00, Keys::Ctrl('Y'));
    push_entry(&mut v, 0x1A, 0x00, 0x00, Keys::Ctrl('Z'));
    assert(v@ =~= ctrl_upper_letters());
    v
}

fn ctrl_standard_table() -> (r: Vec<PatternEntry>)
    ensures
        r@ == ctrl_standard(),
{
    let mut v: Vec<PatternEntry> = Vec::new();
    push_entry(&mut v, 0x2B, 0x00, 0x00, Keys::Ctrl('+'));
    push_entry(&mut v, 0x1F, 0x00, 0x00, Keys::Ctrl('-'));
    assert(v@ =~= ctrl_standard());
    v
}

fn ctrl_numbers_table() -> (r: Vec<PatternEntry>)
    ensures
        r@ == ctrl_numbers(),
{
    let mut v: Vec<PatternEntry> = Vec::new();
    push_entry(&mut v, 0x30, 0x00, 0x00, Keys::Ctrl('0'));
    push_entry(&mut v, 0x31, 0x00, 0x00, Keys::Ctrl('1'));
    push_entry(&mut v, 0x32, 0x00, 0x00, Keys::Ctrl('2'));
    push_entry(&mut v, 0x33, 0x00, 0x00, Keys::Ctrl('3'));
    push_entry(&mut v, 0x34, 0x00, 0x00, Keys::Ctrl('4'));
    push_entry(&mut v, 0x35, 0x00, 0x00, Keys::Ctrl('5'));
    push_entry(&mut v, 0x36, 0x00, 0x00, Keys::Ctrl('6'));
    push_entry(&mut v, 0x37, 0x00, 0x00, Keys::Ctrl('7'));
    push_entry(&mut v, 0x38, 0x00, 0x00, Keys::Ctrl('8'));
    push_entry(&mut v, 0x39, 0x00, 0x00, Keys::Ctrl('9'));
    assert(v@ =~= ctrl_numbers());
    v
}

fn alt_lower_letters_table() -> (r: Vec<PatternEntry>)
    ensures
        r@ == alt_lower_letters(),
{
    let mut v: Vec<PatternEntry> = Vec::new();
    push_entry(&mut v, 0x1B, 0x61, 0x00, Keys::Alt('a'));
    push_entry(&mut v, 0x1B, 0x62, 0x00, Keys::Alt('b'));
    push_entry(&mut v, 0x1B, 0x63, 0x00, Keys::Alt('c'));
    push_entry(&mut v, 0x1B, 0x64, 0x00, Keys::Alt('d'));
    push_entry(&mut v, 0x1B, 0x65, 0x00, Keys::Alt('e'));
    push_entry(&mut v, 0x1B, 0x66, 0x00, Keys::Alt('f'));
    push_entry(&mut v, 0x1B, 0x67, 0x00, Keys::Alt('g'));
    push_entry(&mut v, 0x1B, 0x68, 0x00, Keys::Alt('h'));
    push_entry(&mut v, 0x1B, 0x69, 0x00, Keys::Alt('i'));
    push_entry(&mut v, 0x1B, 0x6A, 0x00, Keys::Alt('j'));
    push_entry(&mut v, 0x1B, 0x6B, 0x00, Keys::Alt('k'));
    push_entry(&mut v, 0x1B, 0x6C, 0x00, Keys::Alt('l'));
    push_entry(&mut v, 0x1B, 0x6D, 0x00, Keys::Alt('m'));
    push_entry(&mut v, 0x1B, 0x6E, 0x00, Keys::Alt('n'));
    push_entry(&mut v, 0x1B, 0xC3, 0xB1, Keys::Alt('ñ'));
    push_entry(&mut v, 0x1B, 0x6F, 0x00, Keys::Alt('o'));
    push_entry(&mut v, 0x1B, 0x70, 0x00, Keys::Alt('p'));
    push_entry(&mut v, 0x1B, 0x71, 0x00, Keys::Alt('q'));
    push_entry(&mut v, 0x1B, 0x72, 0x00, Keys::Alt('r'));
    push_entry(&mut v, 0x1B, 0x73, 0x00, Keys::Alt('s'));
    push_entry(&mut v, 0x1B, 0x74, 0x00, Keys::Alt('t'));
    push_entry(&mut v, 0x1B, 0x75, 0x00, Keys::Alt('u'));
    push_entry(&mut v, 0x1B, 0x76, 0x00, Keys::Alt('v'));
    push_entry(&mut v, 0x1B, 0x77, 0x00, Keys::Alt('w'));
    push_entry(&mut v, 0x1B, 0x78, 0x00, Keys::Alt('x'));
    push_entry(&mut v, 0x1B, 0x79, 0x00, Keys::Alt('y'));
    push_entry(&mut v, 0x1B, 0x7A, 0x00, Keys::Alt('z'));
    assert(v@ =~= alt_lower_letters());
    v
}

fn alt_upper_letters_table() -> (r: Vec<PatternEntry>)
    ensures
        r@ == alt_upper_letters(),
{
    let mut v: Vec<PatternEntry> = Vec::new();
    push_entry(&mut v, 0x1B, 0x41, 0x00, Keys::Alt('A'));
    push_entry(&mut v, 0x1B, 0x42, 0x00, Keys::Alt('B'));
    push_entry(&mut v, 0x1B, 0x43, 0x00, Keys::Alt('C'));
    push_entry(&mut v, 0x1B, 0x44, 0x00, Keys::Alt('D'));
    push_entry(&mut v, 0x1B, 0x45, 0x00, Keys::Alt('E'));
    push_entry(&mut v, 0x1B, 0x46, 0x00, Keys::Alt('F'));
    push_entry(&mut v, 0x1B, 0x47, 0x00, Keys::Alt('G'));
    push_entry(&mut v, 0x1B, 0x48, 0x00, Keys::Alt('H'));
    push_entry(&mut v, 0x1B, 0x49, 0x00, Keys::Alt('I'));
    push_entry(&mut v, 0x1B, 0x4A, 0x00, Keys::Alt('J'));
    push_entry(&mut v, 0x1B, 0x4B, 0x00, Keys::Alt('K'));
    push_entry(&mut v, 0x1B, 0x4C, 0x00, Keys::Alt('L'));
    push_entry(&mut v, 0x1B, 0x4D, 0x00, Keys::Alt('M'));
    push_entry(&mut v, 0x1B, 0x4E, 0x00, Keys::Alt('N'));
    push_entry(&mut v, 0x1B, 0xC3, 0x91, Keys::Alt('Ñ'));
    push_entry(&mut v, 0x1B, 0x4F, 0x00, Keys::Alt('O'));
    push_entry(&mut v, 0x1B, 0x50, 0x00, Keys::Alt('P'));
    push_entry(&mut v, 0x1B, 0x51, 0x00, Keys::Alt('Q'));
    push_entry(&mut v, 0x1B, 0x52, 0x00, Keys::Alt('R'));
    push_entry(&mut v, 0x1B, 0x53, 0x00, Keys::Alt('S'));
    push_entry(&mut v, 0x1B, 0x54, 0x00, Keys::Alt('T'));
    push_entry(&mut v, 0x1B, 0x55, 0x00, Keys::Alt('U'));
    push_entry(&mut v, 0x1B, 0x56, 0x00, Keys::Alt('V'));
    push_entry(&mut v, 0x1B, 0x57, 0x00, Keys::Alt('W'));
    push_entry(&mut v, 0x1B, 0x58, 0x00, Keys::Alt('X'));
    push_entry(&mut v, 0x1B, 0x59, 0x00, Keys::Alt('Y'));
    push_entry(&mut v, 0x1B, 0x5A, 0x00, Keys::Alt('Z'));
    assert(v@ =~= alt_upper_letters());
    v
}

fn alt_numbers_table() -> (r: Vec<PatternEntry>)
    ensures
        r@ == alt_numbers(),
{
    let mut v: Vec<PatternEntry> = Vec::new();
    push_entry(&mut v, 0x30, 0x00, 0x00, Keys::Alt('0'));
    push_entry(&mut v, 0x31, 0x00, 0x00, Keys::Alt('1'));
    push_entry(&mut v, 0x32, 0x00, 0x00, Keys::Alt('2'));
    push_entry(&mut v, 0x33, 0x00, 0x00, Keys::Alt('3'));
    push_entry(&mut v, 0x34, 0x00, 0x00, Keys::Alt('4'));
    push_entry(&mut v, 0x35, 0x00, 0x00, Keys::Alt('5'));
    push_entry(&mut v, 0x36, 0x00, 0x00, Keys::Alt('6'));
    push_entry(&mut v, 0x37, 0x00, 0x00, Keys::Alt('7'));
    push_entry(&mut v, 0x38, 0x00, 0x00, Keys::Alt('8'));
    push_entry(&mut v, 0x39, 0x00, 0x00, Keys::Alt('9'));
    assert(v@ =~= alt_numbers());
    v
}

fn alt_gr_lower_letters_table() -> (r: Vec<PatternEntry>)
    ensures
        r@ == alt_gr_lower_letters(),
{
    let mut v: Vec<PatternEntry> = Vec::new();
    push_entry(&mut v, 0xC3, 0xA6, 0x00, Keys::AltGr('a'));
    push_entry(&mut v, 0xE2, 0x80, 0x9C, Keys::AltGr('b'));
    push_entry(&mut v, 0xC2, 0xA2, 0x00, Keys::AltGr('c'));
    push_entry(&mut v, 0xC3, 0xB0, 0x00, Keys::AltGr('d'));
    push_entry(&mut v, 0xE2, 0x82, 0xAC, Keys::AltGr('e'));
    push_entry(&mut v, 0xC4, 0x91, 0x00, Keys::AltGr('f'));
    push_entry(&mut v, 0xC5, 0x8B, 0x00, Keys::AltGr('g'));
    push_entry(&mut v, 0xC4, 0xA7, 0x00, Keys::AltGr('h'));
    push_entry(&mut v, 0xE2, 0x86, 0x92, Keys::AltGr('i'));
    push_entry(&mut v, 0xCC, 0x89, 0x00, Keys::AltGr('j'));
    push_entry(&mut v, 0xC4, 0xB8, 0x00, Keys::AltGr('k'));
    push_entry(&mut v, 0xC5, 0x82, 0x00, Keys::AltGr('l'));
    push_entry(&mut v, 0xC2, 0xB5, 0x00, Keys::AltGr('m'));
    push_entry(&mut v, 0xE2, 0x80, 0x9D, Keys::AltGr('n'));
    push_entry(&mut v, 0x7E, 0x00, 0x00, Keys::AltGr('ñ'));
    push_entry(&mut v, 0xC3, 0xB8, 0x00, Keys::AltGr('o'));
    push_entry(&mut v, 0xC3, 0xBE, 0x00, Keys::AltGr('p'));
    push_entry(&mut v, 0x40, 0x00, 0x00, Keys::AltGr('q'));
    push_entry(&mut v, 0xC2, 0xB6, 0x00, Keys::AltGr('r'));
    push_entry(&mut v, 0xC3, 0x9F, 0x00, Keys::AltGr('s'));
    push_entry(&mut v, 0xC5, 0xA7, 0x00, Keys::AltGr('t'));
    push_entry(&mut v, 0xE2, 0x86, 0x93, Keys::AltGr('u'));
    push_entry(&mut v, 0xE2, 0x80, 0x9E, Keys::AltGr('v'));
    push_entry(&mut v, 0xC5, 0xBF, 0x00, Keys::AltGr('w'));
    push_entry(&mut v, 0xC2, 0xBB, 0x00, Keys::AltGr('x'));
    push_entry(&mut v, 0xE2, 0x86, 0x90, Keys::AltGr('y'));
    push_entry(&mut v, 0xC2, 0xAB, 0x00, Keys::AltGr('z'));
    assert(v@ =~= alt_gr_lower_letters());
    v
}

fn alt_gr_upper_letters_table() -> (r: Vec<PatternEntry>)
    ensures
        r@ == alt_gr_upper_letters(),
{
    let mut v: Vec<PatternEntry> = Vec::new();
    push_entry(&mut v, 0xC3, 0xA6, 0x00, Keys::AltGr('A'));
    push_entry(&mut v, 0xE2, 0x80, 0x9C, Keys::AltGr('b'));
    push_entry(&mut v, 0xC2, 0xA2, 0x00, Keys::AltGr('c'));
    push_entry(&mut v, 0xC3, 0xB0, 0x00, Keys::AltGr('d'));
    push_entry(&mut v, 0xE2, 0x82, 0xAC, Keys::AltGr('e'));
    push_entry(&mut v, 0xC4, 0x91, 0x00, Keys::AltGr('f'));
    push_entry(&mut v, 0xC5, 0x8B, 0x00, Keys::AltGr('g'));
    push_entry(&mut v, 0xC4, 0xA7, 0x00, Keys::AltGr('h'));
    push_entry(&mut v, 0xE2, 0x86, 0x92, Keys::AltGr('i'));
    push_entry(&mut v, 0xCC, 0x89, 0x00, Keys::AltGr('j'));
    push_entry(&mut v, 0xC4, 0xB8, 0x00, Keys::AltGr('k'));
    push_entry(&mut v, 0xC5, 0x82, 0x00, Keys::AltGr('l'));
    push_entry(&mut v, 0xC2, 0xB5, 0x00, Keys::AltGr('m'));
    push_entry(&mut v, 0xE2, 0x80, 0x9D, Keys::AltGr('n'));
    push_entry(&mut v, 0x7E, 0x00, 0x00, Keys::AltGr('ñ'));
    push_entry(&mut v, 0xC3, 0xB8, 0x00, Keys::AltGr('o'));
    push_entry(&mut v, 0xC3, 0xBE, 0x00, Keys::AltGr('p'));
    push_entry(&mut v, 0x40, 0x00, 0x00, Keys::AltGr('q'));
    push_entry(&mut v, 0xC2, 0xB6, 0x00, Keys::AltGr('r'));
    push_entry(&mut v, 0xC3, 0x9F, 0x00, Keys::AltGr('s'));
    push_entry(&mut v, 0xC5, 0xA7, 0x00, Keys::AltGr('t'));
    push_entry(&mut v, 0xE2, 0x86, 0x93, Keys::AltGr('u'));
    push_entry(&mut v, 0xE2, 0x80, 0x9E, Keys::AltGr('v'));
    push_entry(&mut v, 0xC5, 0xBF, 0x00, Keys::AltGr('w'));
    push_entry(&mut v, 0xC2, 0xBB, 0x00, Keys::AltGr('x'));
    push_entry(&mut v, 0xE2, 0x86, 0x90, Keys::AltGr('y'));
    push_entry(&mut v, 0xC2, 0xAB, 0x00, Keys::AltGr('z'));
    assert(v@ =~= alt_gr_upper_letters());
    v
}

fn alt_gr_numbers_table() -> (r: Vec<PatternEntry>)
    ensures
        r@ == alt_gr_numbers(),
{
    let mut v: Vec<PatternEntry> = Vec::new();
    push_entry(&mut v, 0x30, 0x00, 0x00, Keys::AltGr('0'));
    push_entry(&mut v, 0x31, 0x00, 0x00, Keys::AltGr('1'));
    push_entry(&mut v, 0x32, 0x00, 0x00, Keys::AltGr('2'));
    push_entry(&mut v, 0x33, 0x00, 0x00, Keys::AltGr('3'));
    push_entry(&mut v, 0x34, 0x00, 0x00, Keys::AltGr('4'));
    push_entry(&mut v, 0x35, 0x00, 0x00, Keys::AltGr('5'));
    push_entry(&mut v, 0x36, 0x00, 0x00, Keys::AltGr('6'));
    push_entry(&mut v, 0x37, 0x00, 0x00, Keys::AltGr('7'));
    push_entry(&mut v, 0x38, 0x00, 0x00, Keys::AltGr('8'));
    push_entry(&mut v, 0x39, 0x00, 0x00, Keys::AltGr('9'));
    assert(v@ =~= alt_gr_numbers());
    v
}

} // verus!
