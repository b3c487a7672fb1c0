//! The keyboard: a key table and the interrupt flag that its reads share with
//! the keyboard-interrupt handler.
use vstd::prelude::*;
use crate::keys::{empty_window, Keys, BYTES};
use crate::patterns::Group;
use crate::table::{
    classes_interrupt_key, decode_spec, enabled_groups, first_interrupt_key, scan_order, KeyClasses,
    KeyTable,
};
use crate::termio::{sig_handler, InterruptFlag};

verus! {

/// Keeping the elements of `s` that every element satisfies keeps all of `s`.
proof fn lemma_filter_keeps_all(s: Seq<Group>, f: spec_fn(Group) -> bool)
    requires
        forall|g: Group| #[trigger] f(g),
    ensures
        s.filter(f) == s,
    decreases s.len(),
{
    reveal(Seq::filter);
    if s.len() > 0 {
        lemma_filter_keeps_all(s.drop_last(), f);
        assert(s.drop_last().push(s.last()) =~= s);
    }
}

/// A source of keys: each window read from the terminal decodes to one key.
#[derive(Debug)]
pub struct Keyboard {
    table: KeyTable,
    interrupt: InterruptFlag,
}

impl Keyboard {
    /// The groups that this keyboard scans, in order.
    pub closed spec fn groups(&self) -> Seq<Group> {
        self.table@
    }

    /// Whether a keyboard interrupt is waiting to be reported.
    pub closed spec fn pending(&self) -> bool {
        self.interrupt@
    }

    /// A keyboard that recognises every class of keys, with no interrupt pending.
    pub fn new() -> (k: Keyboard)
        ensures
            k.groups() == scan_order(),
            first_interrupt_key(k.groups()) == Some(Keys::Ctrl('c')),
            !k.pending(),
    {
        let classes = KeyClasses::all();
        proof {
            lemma_filter_keeps_all(scan_order(), classes.enabled());
        }
        Keyboard { table: KeyTable::new(classes), interrupt: InterruptFlag::new() }
    }

    /// A keyboard that recognises the classes `classes`, with no interrupt pending.
    pub fn with_classes(classes: KeyClasses) -> (k: Keyboard)
        ensures
            k.groups() == enabled_groups(classes),
            first_interrupt_key(k.groups()) == classes_interrupt_key(classes),
            !k.pending(),
    {
        Keyboard { table: KeyTable::new(classes), interrupt: InterruptFlag::new() }
    }

    /// Whether a keyboard interrupt must be intercepted while a read is pending:
    /// whether one of the groups reports it.
    pub fn intercepts_interrupt(&self) -> (r: bool)
        ensures
            r == first_interrupt_key(self.groups()) is Some,
    {
        self.table.intercepts_interrupt()
    }

    /// Whether a keyboard interrupt is waiting to be reported.
    pub fn has_pending_interrupt(&self) -> (r: bool)
        ensures
            r == self.pending(),
    {
        self.interrupt.is_raised()
    }

    /// Records a keyboard interrupt, as the interrupt handler does.
    pub fn interrupt(&mut self)
        ensures
            final(self).groups() == old(self).groups(),
            final(self).pending(),
    {
        sig_handler(&mut self.interrupt);
    }

    /// Decodes one window read from the terminal.
    pub fn decode(&mut self, window: &[u8; BYTES]) -> (r: Keys)
        ensures
            final(self).groups() == old(self).groups(),
            (r, final(self).pending()) == decode_spec(old(self).groups(), *window, old(self).pending()),
    {
        self.table.decode(window, &mut self.interrupt)
    }

    /// The key for the outcome of one read: the window it filled, or `None`
    /// where the read failed, which counts as a read of no byte.
    pub fn next_key(&mut self, read: Option<[u8; BYTES]>) -> (r: Keys)
        ensures
            final(self).groups() == old(self).groups(),
            (r, final(self).pending()) == decode_spec(
                old(self).groups(),
                match read {
                    Some(w) => w,
                    None => empty_window(),
                },
                old(self).pending(),
            ),
    {
        let window: [u8; BYTES] = match read {
            Some(w) => w,
            None => [0, 0, 0],
        };
        self.decode(&window)
    }
}

impl Default for Keyboard {
    /// The same keyboard as `new`.
    fn default() -> (k: Keyboard)
        ensures
            k.groups() == scan_order(),
            first_interrupt_key(k.groups()) == Some(Keys::Ctrl('c')),
            !k.pending(),
    {
        Keyboard::new()
    }
}

} // verus!
