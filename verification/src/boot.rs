//! The double-tap boot selector.
//!
//! One 32-bit word lives in storage that survives a warm reset (it is kept
//! out of the runtime's zero-fill of uninitialized memory). The earliest
//! phase of boot reads it: finding the magic constant means a second reset
//! arrived inside the watch window, so the selector clears the flag and
//! signals a diversion into the persistent bootloader. Otherwise it writes
//! the magic constant, has the caller block for the watch window, and clears
//! the flag again, so an isolated reset is not misread later as a double
//! tap. The blocking waits and the bootloader ROM entry are hardware
//! effects, performed by the surrounding program; every decision on the
//! flag's value is verified here.

use vstd::prelude::*;

verus! {

/// The value that marks "a boot happened recently" in the persistent cell.
pub const BOOT_MAGIC: u32 = 0x0B0075E1;

/// How long, in time-units of the hardware time base, a first boot keeps the
/// flag set while watching for a second reset.
pub const WATCH_WINDOW_MS: u64 = 500;

/// How long the diversion path blocks before entering the bootloader, to let
/// the bootloader's enumeration stabilize. Deliberately the same duration as
/// the watch window; the two are named apart so either could be retuned.
pub const DEBOUNCE_MS: u64 = 500;

/// The reset-persistent cell, modelled as a plain owned word. The
/// surrounding program keeps one such value alive across simulated warm
/// resets; on the board it is the one word excluded from zero-fill.
pub struct BootFlag {
    value: u32,
}

/// What the selector signals to the rest of boot.
#[derive(Clone, Copy, PartialEq, Eq, Structural, Debug)]
pub enum BootDecision {
    /// Divert into the persistent bootloader; nothing after this runs.
    EnterBootloader,
    /// Proceed with the rest of boot.
    ContinueNormally,
}

/// The one hardware effect the caller owes the selector next.
#[derive(Clone, Copy, PartialEq, Eq, Structural, Debug)]
pub enum BootAction {
    /// Block for `debounce_ms`, then transfer control to the bootloader
    /// entry point; that transfer never returns.
    Divert { debounce_ms: u64 },
    /// Block for `window_ms` on the hardware time base, then call
    /// [`finish_watch`]. A reset during the wait leaves the flag set.
    Watch { window_ms: u64 },
}

/// The decision owed for a flag holding `v`.
pub open spec fn spec_decision(v: u32) -> BootDecision {
    if v == BOOT_MAGIC {
        BootDecision::EnterBootloader
    } else {
        BootDecision::ContinueNormally
    }
}

/// The value the persistent cell holds when a second boot reads it
/// `elapsed` time-units after a first boot wrote the magic constant: still
/// magic while the watch window runs, cleared once the window expired.
pub open spec fn spec_flag_after_first_boot(elapsed: u64) -> u32 {
    if elapsed < WATCH_WINDOW_MS {
        BOOT_MAGIC
    } else {
        0
    }
}

impl BootFlag {
    /// The word currently in the cell.
    pub closed spec fn value(self) -> u32 {
        self.value
    }

    /// A cell holding `v`. A freshly powered board may hold any value here;
    /// only a warm reset preserves it.
    pub fn from_raw(v: u32) -> (f: BootFlag)
        ensures
            f.value() == v,
    {
        BootFlag { value: v }
    }

    /// The raw word, for the surrounding program to park in its persistent
    /// cell.
    pub fn raw(&self) -> (v: u32)
        ensures
            v == self.value(),
    {
        self.value
    }
}

/// The check-and-set step, run before any other subsystem touches memory.
/// On the magic value it clears the flag and asks for the diversion; on any
/// other value it arms the flag and asks for the watch wait.
pub fn probe_step(flag: &mut BootFlag) -> (a: BootAction)
    ensures
        old(flag).value() == BOOT_MAGIC ==> a == (BootAction::Divert { debounce_ms: DEBOUNCE_MS })
            && final(flag).value() == 0,
        old(flag).value() != BOOT_MAGIC ==> a == (BootAction::Watch { window_ms: WATCH_WINDOW_MS })
            && final(flag).value() == BOOT_MAGIC,
{
    if flag.value == BOOT_MAGIC {
        flag.value = 0;
        BootAction::Divert { debounce_ms: DEBOUNCE_MS }
    } else {
        flag.value = BOOT_MAGIC;
        BootAction::Watch { window_ms: WATCH_WINDOW_MS }
    }
}

/// The self-clear once the watch window expired without a second reset: the
/// flag goes back to its non-magic value, so a later unrelated reset is not
/// taken for a double tap.
pub fn finish_watch(flag: &mut BootFlag)
    ensures
        final(flag).value() == 0,
{
    flag.value = 0;
}

/// One whole selector pass in which no second reset interrupts the wait:
/// the decision for the value found, with the cell left cleared either way.
/// On the board the diversion branch never returns; here the caller performs
/// the waits and the bootloader entry on the returned decision.
pub fn probe_double_reset(flag: &mut BootFlag) -> (d: BootDecision)
    ensures
        d == spec_decision(old(flag).value()),
        final(flag).value() == 0,
{
    match probe_step(flag) {
        BootAction::Divert { debounce_ms: _ } => BootDecision::EnterBootloader,
        BootAction::Watch { window_ms: _ } => {
            finish_watch(flag);
            BootDecision::ContinueNormally
        },
    }
}

/// The cell a second boot finds, `elapsed` time-units after a first boot
/// armed the flag on a previously clear cell: the first boot's own steps,
/// with the self-clear reached only once the watch window has expired.
pub fn flag_after_first_boot(elapsed: u64) -> (f: BootFlag)
    ensures
        f.value() == spec_flag_after_first_boot(elapsed),
{
    let mut flag = BootFlag::from_raw(0);
    let _armed = probe_step(&mut flag);
    if elapsed >= WATCH_WINDOW_MS {
        finish_watch(&mut flag);
    }
    flag
}

/// The watch window does what it promises: a second boot `elapsed`
/// time-units after the flag was armed diverts into the bootloader exactly
/// when it falls inside the window; once the window has expired and the flag
/// has self-cleared, boot continues normally.
pub proof fn lemma_watch_window(elapsed: u64)
    ensures
        spec_decision(spec_flag_after_first_boot(elapsed)) == BootDecision::EnterBootloader
            <==> elapsed < WATCH_WINDOW_MS,
{
}

} // verus!
