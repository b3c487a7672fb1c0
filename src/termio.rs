//! Terminal line-discipline attributes, raw mode, and the keyboard-interrupt flag.
use vstd::prelude::*;

verus! {

/// Number of the keyboard-interrupt signal.
pub const SIGINT: i32 = 2;

/// Number of control characters in the attribute record.
pub const NCCS: usize = 32;

/// Local flag: canonical (line-buffered) input.
pub const ICANON: u32 = 0x0000_0002;

/// Local flag: echo of input characters.
pub const ECHO: u32 = 0x0000_0008;

/// Input flag: ignore carriage return.
pub const IGNCR: u32 = 0x0000_0080;

/// Input flag: translate carriage return to line feed.
pub const ICRNL: u32 = 0x0000_0100;

/// Input flag: translate line feed to carriage return.
pub const INLCR: u32 = 0x0000_0040;

/// Input flag: start/stop output control.
pub const IXON: u32 = 0x0000_0400;

/// Input flag: any character restarts stopped output.
pub const IXANY: u32 = 0x0000_0800;

/// Input flag: start/stop input control.
pub const IXOFF: u32 = 0x0000_1000;

/// Index of the read timeout, in deciseconds, among the control characters.
pub const VTIME: usize = 5;

/// Index of the minimum byte count of a read among the control characters.
pub const VMIN: usize = 6;

/// The line-discipline attributes of a terminal, field for field.
#[allow(non_camel_case_types)]
#[derive(Clone, Copy, Debug)]
pub struct termios {
    pub c_iflag: u32,
    pub c_oflag: u32,
    pub c_cflag: u32,
    pub c_lflag: u32,
    pub c_line: u8,
    pub c_cc: [u8; NCCS],
    pub c_ispeed: u32,
    pub c_ospeed: u32,
}

/// `raw` is `t` with canonical input, echo, software flow control and the
/// translation of line endings on input switched off, and reads that return after one decisecond with whatever has arrived.
pub open spec fn is_raw_mode_of(raw: termios, t: termios) -> bool {
    &&& raw.c_iflag == t.c_iflag & !(IXON | IXOFF | IXANY | INLCR | IGNCR | ICRNL)
    &&& raw.c_oflag == t.c_oflag
    &&& raw.c_cflag == t.c_cflag
    &&& raw.c_lflag == t.c_lflag & !(ICANON | ECHO)
    &&& raw.c_line == t.c_line
    &&& raw.c_cc@ == t.c_cc@.update(VMIN as int, 0).update(VTIME as int, 1)
    &&& raw.c_ispeed == t.c_ispeed
    &&& raw.c_ospeed == t.c_ospeed
}

/// The attributes of raw mode derived from `t`.
pub fn raw_mode_attributes(t: &termios) -> (r: termios)
    ensures
        is_raw_mode_of(r, *t),
{
    let mut r = *t;
    r.c_lflag = r.c_lflag & !(ICANON | ECHO);
    r.c_iflag = r.c_iflag & !(IXON | IXOFF | IXANY | INLCR | IGNCR | ICRNL);
    r.c_cc[VMIN] = 0;
    r.c_cc[VTIME] = 1;
    r
}

/// What entering raw mode decides: the attributes to apply, and the snapshot
/// that a later restore applies to undo them.
#[derive(Clone, Copy, Debug)]
pub struct RawModeEntry {
    pub snapshot: termios,
    pub raw: termios,
}

/// Entering raw mode from the attributes `current`: the snapshot is `current`
/// unchanged.
pub fn enter_raw(current: &termios) -> (e: RawModeEntry)
    ensures
        e.snapshot == *current,
        is_raw_mode_of(e.raw, *current),
{
    RawModeEntry { snapshot: *current, raw: raw_mode_attributes(current) }
}

/// The attributes of a terminal whose attributes were `state` after `applied`
/// has been set on it at once: setting replaces the whole record.
pub open spec fn after_set(state: termios, applied: termios) -> termios {
    applied
}

/// Setting the raw attributes that `enter_raw` derived from `before`, then
/// restoring its snapshot, leaves the terminal with exactly the attributes
/// `before`, whatever they were.
pub proof fn lemma_enter_then_restore(before: termios, e: RawModeEntry)
    requires
        e.snapshot == before,
        is_raw_mode_of(e.raw, before),
    ensures
        after_set(after_set(before, e.raw), e.snapshot) == before,
{
}

/// Restoring the same snapshot twice leaves the terminal as restoring it once.
pub proof fn lemma_restore_idempotent(state: termios, snapshot: termios)
    ensures
        after_set(after_set(state, snapshot), snapshot) == after_set(state, snapshot),
{
}

/// A single-slot record of a keyboard interrupt that has not been reported yet.
#[derive(Debug)]
pub struct InterruptFlag {
    raised: bool,
}

impl View for InterruptFlag {
    type V = bool;

    /// Whether an interrupt is pending.
    closed spec fn view(&self) -> bool {
        self.raised
    }
}

impl InterruptFlag {
    /// A flag with no interrupt pending.
    pub fn new() -> (f: InterruptFlag)
        ensures
            !f@,
    {
        InterruptFlag { raised: false }
    }

    /// Whether an interrupt is pending.
    pub fn is_raised(&self) -> (r: bool)
        ensures
            r == self@,
    {
        self.raised
    }

    /// Reports whether an interrupt was pending and clears the flag.
    pub fn take(&mut self) -> (r: bool)
        ensures
            r == old(self)@,
            !final(self)@,
    {
        let r = self.raised;
        self.raised = false;
        r
    }
}

/// What the keyboard-interrupt handler does: it marks an interrupt as pending,
/// and nothing else.
pub fn sig_handler(flag: &mut InterruptFlag)
    ensures
        final(flag)@,
{
    flag.raised = true;
}

} // verus!
