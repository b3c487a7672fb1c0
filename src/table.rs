//! The key table: the pattern groups that a configuration enables, in scan
//! order, and the decoder that reads a window against them.
use vstd::prelude::*;
use crate::keys::{same_window, Keys, PatternEntry, BYTES};
use crate::patterns::{group_entries, group_table, Group};
use crate::termio::InterruptFlag;

verus! {

/// Number of pattern groups.
pub const GROUP_COUNT: usize = 16;

/// The order in which the groups are scanned.
pub open spec fn scan_order() -> Seq<Group> {
    seq![
        Group::ArrowsEnter,
        Group::Standard,
        Group::Numbers,
        Group::LowerLetters,
        Group::UpperLetters,
        Group::Function,
        Group::CtrlLowerLetters,
        Group::CtrlUpperLetters,
        Group::CtrlStandard,
        Group::CtrlNumbers,
        Group::AltLowerLetters,
        Group::AltUpperLetters,
        Group::AltNumbers,
        Group::AltGrLowerLetters,
        Group::AltGrUpperLetters,
        Group::AltGrNumbers,
    ]
}

/// The group at position `i` of the scan order.
fn group_at(i: usize) -> (g: Group)
    requires
        i < GROUP_COUNT,
    ensures
        g == scan_order()[i as int],
{
    match i {
        0 => Group::ArrowsEnter,
        1 => Group::Standard,
        2 => Group::Numbers,
        3 => Group::LowerLetters,
        4 => Group::UpperLetters,
        5 => Group::Function,
        6 => Group::CtrlLowerLetters,
        7 => Group::CtrlUpperLetters,
        8 => Group::CtrlStandard,
        9 => Group::CtrlNumbers,
        10 => Group::AltLowerLetters,
        11 => Group::AltUpperLetters,
        12 => Group::AltNumbers,
        13 => Group::AltGrLowerLetters,
        14 => Group::AltGrUpperLetters,
        _ => Group::AltGrNumbers,
    }
}

/// Which optional classes of keys a table recognises. Arrows and Enter are
/// always recognised.
#[derive(PartialEq, Eq, Structural, Clone, Copy, Debug)]
pub struct KeyClasses {
    pub standard: bool,
    pub numbers: bool,
    pub lower_letters: bool,
    pub upper_letters: bool,
    pub function_keys: bool,
    pub ctrl_lower_letters: bool,
    pub ctrl_upper_letters: bool,
    pub ctrl_standard: bool,
    pub ctrl_numbers: bool,
    pub alt_lower_letters: bool,
    pub alt_upper_letters: bool,
    pub alt_numbers: bool,
    pub alt_gr_lower_letters: bool,
    pub alt_gr_upper_letters: bool,
    pub alt_gr_numbers: bool,
}

impl KeyClasses {
    /// Whether the group `g` takes part.
    pub open spec fn enables(self, g: Group) -> bool {
        match g {
            Group::ArrowsEnter => true,
            Group::Standard => self.standard,
            Group::Numbers => self.numbers,
            Group::LowerLetters => self.lower_letters,
            Group::UpperLetters => self.upper_letters,
            Group::Function => self.function_keys,
            Group::CtrlLowerLetters => self.ctrl_lower_letters,
            Group::CtrlUpperLetters => self.ctrl_upper_letters,
            Group::CtrlStandard => self.ctrl_standard,
            Group::CtrlNumbers => self.ctrl_numbers,
            Group::AltLowerLetters => self.alt_lower_letters,
            Group::AltUpperLetters => self.alt_upper_letters,
            Group::AltNumbers => self.alt_numbers,
            Group::AltGrLowerLetters => self.alt_gr_lower_letters,
            Group::AltGrUpperLetters => self.alt_gr_upper_letters,
            Group::AltGrNumbers => self.alt_gr_numbers,
        }
    }

    /// The predicate `enables`, as a value.
    pub open spec fn enabled(self) -> spec_fn(Group) -> bool {
        |g: Group| self.enables(g)
    }

    /// Whether the group `g` takes part.
    pub fn is_enabled(&self, g: Group) -> (r: bool)
        ensures
            r == self.enables(g),
    {
        match g {
            Group::ArrowsEnter => true,
            Group::Standard => self.standard,
            Group::Numbers => self.numbers,
            Group::LowerLetters => self.lower_letters,
            Group::UpperLetters => self.upper_letters,
            Group::Function => self.function_keys,
            Group::CtrlLowerLetters => self.ctrl_lower_letters,
            Group::CtrlUpperLetters => self.ctrl_upper_letters,
            Group::CtrlStandard => self.ctrl_standard,
            Group::CtrlNumbers => self.ctrl_numbers,
            Group::AltLowerLetters => self.alt_lower_letters,
            Group::AltUpperLetters => self.alt_upper_letters,
            Group::AltNumbers => self.alt_numbers,
            Group::AltGrLowerLetters => self.alt_gr_lower_letters,
            Group::AltGrUpperLetters => self.alt_gr_upper_letters,
            Group::AltGrNumbers => self.alt_gr_numbers,
        }
    }

    /// Every class.
    pub fn all() -> (c: KeyClasses)
        ensures
            forall|g: Group| c.enables(g),
    {
        KeyClasses {
            standard: true,
            numbers: true,
            lower_letters: true,
            upper_letters: true,
            function_keys: true,
            ctrl_lower_letters: true,
            ctrl_upper_letters: true,
            ctrl_standard: true,
            ctrl_numbers: true,
            alt_lower_letters: true,
            alt_upper_letters: true,
            alt_numbers: true,
            alt_gr_lower_letters: true,
            alt_gr_upper_letters: true,
            alt_gr_numbers: true,
        }
    }

    /// No optional class: arrows and Enter only.
    pub fn none() -> (c: KeyClasses)
        ensures
            forall|g: Group| c.enables(g) == (g == Group::ArrowsEnter),
    {
        KeyClasses {
            standard: false,
            numbers: false,
            lower_letters: false,
            upper_letters: false,
            function_keys: false,
            ctrl_lower_letters: false,
            ctrl_upper_letters: false,
            ctrl_standard: false,
            ctrl_numbers: false,
            alt_lower_letters: false,
            alt_upper_letters: false,
            alt_numbers: false,
            alt_gr_lower_letters: false,
            alt_gr_upper_letters: false,
            alt_gr_numbers: false,
        }
    }
}

/// The groups that `c` enables, in scan order.
pub open spec fn enabled_groups(c: KeyClasses) -> Seq<Group> {
    scan_order().filter(c.enabled())
}

/// All entries of the groups `gs`, group after group.
pub open spec fn table_entries(gs: Seq<Group>) -> Seq<PatternEntry>
    decreases gs.len(),
{
    if gs.len() == 0 {
        Seq::empty()
    } else {
        table_entries(gs.drop_last()) + group_entries(gs.last())
    }
}

/// The key of the last entry of `es` whose pattern is `w`, if any.
pub open spec fn last_match(es: Seq<PatternEntry>, w: [u8; BYTES]) -> Option<Keys>
    decreases es.len(),
{
    if es.len() == 0 {
        None
    } else if es.last().pattern == w {
        Some(es.last().key)
    } else {
        last_match(es.drop_last(), w)
    }
}

/// The key that the groups `gs` give the window `w`: that of the last matching
/// entry in scan order, or `Null` where none matches.
pub open spec fn matched_key(gs: Seq<Group>, w: [u8; BYTES]) -> Keys {
    match last_match(table_entries(gs), w) {
        Some(k) => k,
        None => Keys::Null,
    }
}

/// The key that a group with Ctrl and letters reports for a keyboard interrupt.
pub open spec fn interrupt_key_of(g: Group) -> Option<Keys> {
    match g {
        Group::CtrlLowerLetters => Some(Keys::Ctrl('c')),
        Group::CtrlUpperLetters => Some(Keys::Ctrl('C')),
        _ => None,
    }
}

impl Group {
    /// The key that this group reports for a keyboard interrupt, if it reports one.
    pub fn interrupt_key(&self) -> (r: Option<Keys>)
        ensures
            r == interrupt_key_of(*self),
    {
        match self {
            Group::CtrlLowerLetters => Some(Keys::Ctrl('c')),
            Group::CtrlUpperLetters => Some(Keys::Ctrl('C')),
            _ => None,
        }
    }
}

/// The interrupt key of the first group of `gs` that has one.
pub open spec fn first_interrupt_key(gs: Seq<Group>) -> Option<Keys>
    decreases gs.len(),
{
    if gs.len() == 0 {
        None
    } else if interrupt_key_of(gs[0]) is Some {
        interrupt_key_of(gs[0])
    } else {
        first_interrupt_key(gs.drop_first())
    }
}

/// Decoding `w` against the groups `gs` while an interrupt is pending or not:
/// the key, and whether an interrupt is pending afterwards. A pending interrupt
/// is reported, and consumed, by the first group that has an interrupt key;
/// otherwise the window's matched key comes out and the flag stays as it was.
pub open spec fn decode_spec(gs: Seq<Group>, w: [u8; BYTES], pending: bool) -> (Keys, bool) {
    match first_interrupt_key(gs) {
        Some(k) if pending => (k, false),
        _ => (matched_key(gs, w), pending),
    }
}

/// The last entry of `es` with the pattern of entry `i`, when it is entry `i`
/// itself, gives its key.
proof fn lemma_last_match_at(es: Seq<PatternEntry>, i: int)
    requires
        0 <= i < es.len(),
        forall|j: int| i < j < es.len() ==> (#[trigger] es[j]).pattern != es[i].pattern,
    ensures
        last_match(es, es[i].pattern) == Some(es[i].key),
    decreases es.len(),
{
    if i < es.len() - 1 {
        assert(es.last() == es[es.len() - 1]);
        lemma_last_match_at(es.drop_last(), i);
    }
}

/// A window that no entry of `es` has gives no match.
proof fn lemma_last_match_none(es: Seq<PatternEntry>, w: [u8; BYTES])
    requires
        forall|j: int| 0 <= j < es.len() ==> (#[trigger] es[j]).pattern != w,
    ensures
        last_match(es, w) is None,
    decreases es.len(),
{
    if es.len() > 0 {
        assert(es.last() == es[es.len() - 1]);
        lemma_last_match_none(es.drop_last(), w);
    }
}

/// Every entry of a table decodes to its own key, with no interrupt pending,
/// unless an entry scanned after it has the same pattern; then the last such
/// entry in scan order wins, which is this statement for that entry.
pub proof fn lemma_entry_decodes(gs: Seq<Group>, i: int)
    requires
        0 <= i < table_entries(gs).len(),
        forall|j: int|
            i < j < table_entries(gs).len() ==> (#[trigger] table_entries(gs)[j]).pattern
                != table_entries(gs)[i].pattern,
    ensures
        decode_spec(gs, table_entries(gs)[i].pattern, false) == (table_entries(gs)[i].key, false),
{
    lemma_last_match_at(table_entries(gs), i);
}

/// A window that matches no entry of the table decodes to `Null`, unless an
/// interrupt is pending and the table reports interrupts.
pub proof fn lemma_unmatched_window(gs: Seq<Group>, w: [u8; BYTES], pending: bool)
    requires
        forall|j: int|
            0 <= j < table_entries(gs).len() ==> (#[trigger] table_entries(gs)[j]).pattern != w,
        !pending || first_interrupt_key(gs) is None,
    ensures
        decode_spec(gs, w, pending) == (Keys::Null, pending),
{
    lemma_last_match_none(table_entries(gs), w);
}

/// A pending interrupt is consumed by exactly one decoding: the first reports
/// the interrupt key and clears the flag, and the next, with no new interrupt,
/// gives the key that its window matches.
pub proof fn lemma_interrupt_consumed_once(gs: Seq<Group>, w1: [u8; BYTES], w2: [u8; BYTES])
    requires
        first_interrupt_key(gs) is Some,
    ensures
        decode_spec(gs, w1, true) == (first_interrupt_key(gs)->0, false),
        decode_spec(gs, w2, decode_spec(gs, w1, true).1) == (matched_key(gs, w2), false),
{
}

/// One enabled group and its entries.
#[derive(Debug)]
struct KeyGroup {
    group: Group,
    entries: Vec<PatternEntry>,
}

/// No group of `gs` has an interrupt key.
pub open spec fn no_interrupt_key(gs: Seq<Group>) -> bool {
    forall|i: int| 0 <= i < gs.len() ==> interrupt_key_of(#[trigger] gs[i]) is None
}

/// The interrupt key of the table that `c` configures: Ctrl with `c` where Ctrl
/// with lowercase letters takes part, else Ctrl with `C` where Ctrl with
/// uppercase letters does, else none.
pub open spec fn classes_interrupt_key(c: KeyClasses) -> Option<Keys> {
    if c.ctrl_lower_letters {
        Some(Keys::Ctrl('c'))
    } else if c.ctrl_upper_letters {
        Some(Keys::Ctrl('C'))
    } else {
        None
    }
}

/// Groups without an interrupt key in front of `b` change nothing.
proof fn lemma_first_interrupt_key_skips(a: Seq<Group>, b: Seq<Group>)
    requires
        no_interrupt_key(a),
    ensures
        first_interrupt_key(a + b) == first_interrupt_key(b),
    decreases a.len(),
{
    if a.len() == 0 {
        assert(a + b =~= b);
    } else {
        assert((a + b)[0] == a[0]);
        assert((a + b).drop_first() =~= a.drop_first() + b);
        lemma_first_interrupt_key_skips(a.drop_first(), b);
    }
}

/// Filtering keeps a sequence free of interrupt keys.
proof fn lemma_filter_no_interrupt_key(a: Seq<Group>, f: spec_fn(Group) -> bool)
    requires
        no_interrupt_key(a),
    ensures
        no_interrupt_key(a.filter(f)),
    decreases a.len(),
{
    reveal(Seq::filter);
    if a.len() > 0 {
        assert(interrupt_key_of(a[a.len() - 1]) is None);
        lemma_filter_no_interrupt_key(a.drop_last(), f);
    }
}

/// The table that `c` configures reports a keyboard interrupt with the key
/// `classes_interrupt_key(c)`.
pub proof fn lemma_classes_interrupt_key(c: KeyClasses)
    ensures
        first_interrupt_key(enabled_groups(c)) == classes_interrupt_key(c),
{
    let f = c.enabled();
    let a = scan_order().take(6);
    let lower = seq![Group::CtrlLowerLetters];
    let upper = seq![Group::CtrlUpperLetters];
    let rest = scan_order().skip(8);
    assert(scan_order() =~= a + lower + upper + rest);
    assert(no_interrupt_key(a));
    assert(no_interrupt_key(rest));
    lemma_filter_no_interrupt_key(a, f);
    lemma_filter_no_interrupt_key(rest, f);
    Seq::filter_distributes_over_add(a + lower + upper, rest, f);
    Seq::filter_distributes_over_add(a + lower, upper, f);
    Seq::filter_distributes_over_add(a, lower, f);
    reveal_with_fuel(Seq::filter, 2);
    let fa = a.filter(f);
    let fl = lower.filter(f);
    let fu = upper.filter(f);
    let fr = rest.filter(f);
    assert(enabled_groups(c) == fa + fl + fu + fr);
    assert(fa + fl + fu + fr =~= fa + (fl + fu + fr));
    lemma_first_interrupt_key_skips(fa, fl + fu + fr);
    lemma_first_interrupt_key_skips(fr, Seq::empty());
    assert(fr + Seq::<Group>::empty() =~= fr);
    if c.ctrl_lower_letters {
        assert((fl + fu + fr)[0] == Group::CtrlLowerLetters);
    } else {
        assert(fl + fu + fr =~= fu + fr);
        if c.ctrl_upper_letters {
            assert((fu + fr)[0] == Group::CtrlUpperLetters);
        } else {
            assert(fu + fr =~= fr);
        }
    }
}

/// Each of `groups` holds the entries of its group.
spec fn groups_hold_entries(groups: Seq<KeyGroup>) -> bool {
    forall|i: int|
        0 <= i < groups.len() ==> (#[trigger] groups[i]).entries@ == group_entries(groups[i].group)
}

/// The ordered groups of patterns that one configuration enables.
#[derive(Debug)]
pub struct KeyTable {
    groups: Vec<KeyGroup>,
}

impl View for KeyTable {
    type V = Seq<Group>;

    /// The groups of the table, in scan order.
    closed spec fn view(&self) -> Seq<Group> {
        self.groups@.map_values(|kg: KeyGroup| kg.group)
    }
}

impl KeyTable {
    /// Each group holds its own entries.
    #[verifier::type_invariant]
    spec fn wf(self) -> bool {
        groups_hold_entries(self.groups@)
    }

    /// The table of the groups that `classes` enables.
    pub fn new(classes: KeyClasses) -> (t: KeyTable)
        ensures
            t@ == enabled_groups(classes),
            first_interrupt_key(t@) == classes_interrupt_key(classes),
    {
        proof {
            lemma_classes_interrupt_key(classes);
        }
        let mut groups: Vec<KeyGroup> = Vec::new();
        let mut i: usize = 0;
        while i < GROUP_COUNT
            invariant
                i <= GROUP_COUNT,
                groups_hold_entries(groups@),
                groups@.map_values(|kg: KeyGroup| kg.group) == scan_order().take(i as int).filter(
                    classes.enabled(),
                ),
            decreases GROUP_COUNT - i,
        {
            let g = group_at(i);
            let ghost before = groups@.map_values(|kg: KeyGroup| kg.group);
            if classes.is_enabled(g) {
                groups.push(KeyGroup { group: g, entries: group_table(g) });
                assert(groups@.map_values(|kg: KeyGroup| kg.group) =~= before.push(g));
            }
            proof {
                reveal(Seq::filter);
                assert(scan_order().take(i + 1).drop_last() =~= scan_order().take(i as int));
            }
            i = i + 1;
        }
        assert(scan_order().take(GROUP_COUNT as int) =~= scan_order());
        KeyTable { groups }
    }

    /// Whether a keyboard interrupt is reported by this table's decoding, so
    /// that the interrupt must be intercepted while a read is pending.
    pub fn intercepts_interrupt(&self) -> (r: bool)
        ensures
            r == first_interrupt_key(self@) is Some,
    {
        let mut i: usize = 0;
        assert(self@.skip(0) =~= self@);
        while i < self.groups.len()
            invariant
                i <= self.groups@.len(),
                first_interrupt_key(self@) == first_interrupt_key(self@.skip(i as int)),
            decreases self.groups@.len() - i,
        {
            assert(self@.skip(i as int)[0] == self.groups@[i as int].group);
            if self.groups[i].group.interrupt_key().is_some() {
                return true;
            }
            assert(self@.skip(i as int).drop_first() =~= self@.skip(i + 1));
            i = i + 1;
        }
        assert(self@.skip(i as int) =~= Seq::<Group>::empty());
        false
    }

    /// Decodes one window: the key of the last entry, in scan order, whose
    /// pattern equals the window, or `Null`; but a pending interrupt is
    /// reported, and cleared, on reaching the first group with Ctrl and letters.
    pub fn decode(&self, window: &[u8; BYTES], flag: &mut InterruptFlag) -> (r: Keys)
        ensures
            (r, final(flag)@) == decode_spec(self@, *window, old(flag)@),
    {
        proof {
            use_type_invariant(self);
        }
        let mut key = Keys::Null;
        let mut gi: usize = 0;
        assert(self@.skip(0) =~= self@);
        assert(self@.take(0) =~= Seq::<Group>::empty());
        while gi < self.groups.len()
            invariant
                groups_hold_entries(self.groups@),
                gi <= self.groups@.len(),
                flag@ == old(flag)@,
                key == matched_key(self@.take(gi as int), *window),
                old(flag)@ ==> first_interrupt_key(self@) == first_interrupt_key(
                    self@.skip(gi as int),
                ),
            decreases self.groups@.len() - gi,
        {
            let kg = &self.groups[gi];
            assert(self@.skip(gi as int)[0] == kg.group);
            let ghost prefix = table_entries(self@.take(gi as int));
            match kg.group.interrupt_key() {
                Some(k) => {
                    if flag.take() {
                        return k;
                    }
                },
                None => {},
            }
            let mut ei: usize = 0;
            while ei < kg.entries.len()
                invariant
                    groups_hold_entries(self.groups@),
                    gi < self.groups@.len(),
                    kg == self.groups@[gi as int],
                    prefix == table_entries(self@.take(gi as int)),
                    ei <= kg.entries@.len(),
                    key == (match last_match(prefix + kg.entries@.take(ei as int), *window) {
                        Some(k) => k,
                        None => Keys::Null,
                    }),
                decreases kg.entries@.len() - ei,
            {
                let e = &kg.entries[ei];
                let ghost s = prefix + kg.entries@.take(ei + 1);
                assert(s.drop_last() =~= prefix + kg.entries@.take(ei as int));
                assert(s.last() == *e);
                if same_window(window, &e.pattern) {
                    key = e.key;
                }
                ei = ei + 1;
            }
            proof {
                assert(kg.entries@.take(ei as int) =~= kg.entries@);
                assert(self@.take(gi + 1).drop_last() =~= self@.take(gi as int));
                assert(self@.skip(gi as int).drop_first() =~= self@.skip(gi + 1));
            }
            gi = gi + 1;
        }
        proof {
            assert(self@.take(gi as int) =~= self@);
            assert(self@.skip(gi as int) =~= Seq::<Group>::empty());
        }
        key
    }
}

} // verus!
