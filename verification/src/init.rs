//! Start-up of the library: hooks stay bypassed until it has completed.
//!
//! The process-wide flag that records it is shared between threads; the
//! library gives its starting value and its value after start-up, reads it,
//! and the caller keeps the flag itself.

use vstd::prelude::*;
use crate::dispatch::{entry_action, Action, Fallback, Interposer};

verus! {

/// The value the process-wide initialization flag starts with: lowered.
pub const UNINITIALIZED: bool = false;

/// Whether hooks may run while the initialization flag holds `flag`.
pub open spec fn hooks_may_run(flag: bool) -> bool {
    flag
}

/// Whether hooks may run, given the value `flag` read from the process-wide
/// initialization flag: they may exactly when the flag is raised.
pub fn initialized(flag: bool) -> (ready: bool)
    ensures
        ready == hooks_may_run(flag),
{
    flag
}

/// Runs the start-up work that must happen before any hook and returns the
/// value to store in the process-wide initialization flag: raised.
///
/// The start-up work is an allocation that is freed again before this returns,
/// so that an allocator that initializes lazily does so, and a hooked
/// deallocation runs, while every hook is still bypassed.
pub fn initialize() -> (flag: bool)
    ensures
        hooks_may_run(flag),
{
    {
        let _warm: Box<u8> = Box::new(0u8);
    }
    true
}

/// Hooks wait for start-up: while the flag holds its starting value no hook
/// may run, and a guarded symbol hands every call to its fallback; the value
/// that `initialize` returns lets hooks run.
pub proof fn hooks_wait_for_initialize<R>(fallback: Fallback, raised: bool)
    requires
        hooks_may_run(raised),
    ensures
        !hooks_may_run(UNINITIALIZED),
        entry_action::<R>(Interposer::Guarded(fallback), hooks_may_run(UNINITIALIZED))
            == Action::<R>::Forward(fallback),
        entry_action::<R>(Interposer::Guarded(fallback), hooks_may_run(raised)) is RunHook,
{
}

} // verus!
