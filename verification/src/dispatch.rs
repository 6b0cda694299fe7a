//! What an interposed symbol does with a call.
//!
//! An interposed symbol either runs its hook or hands the call on. A guarded
//! symbol runs its hook only once the library is initialized and answers a
//! hook that panicked by handing the call on; an unguarded symbol always runs
//! its hook and lets a panic of the hook through. A call is handed on to the
//! raw system call where the symbol is needed during start-up and has a system
//! call number, and to the next definition of the symbol otherwise.

use vstd::prelude::*;

verus! {

/// Where a call goes when the hook does not answer it.
#[derive(PartialEq, Eq, Structural, Clone, Copy, Debug)]
pub enum Fallback {
    /// The raw system call with this number.
    Syscall(i64),
    /// The next definition of the symbol in the lookup order.
    Original,
}

/// How an interposed symbol treats its hook.
#[derive(PartialEq, Eq, Structural, Clone, Copy, Debug)]
pub enum Interposer {
    /// The hook runs only after initialization; when it is skipped or panics,
    /// the call goes to the fallback.
    Guarded(Fallback),
    /// The hook always runs, and a panic in it is not caught.
    Unguarded,
}

/// The next thing an interposed symbol does.
#[derive(Clone, Copy, Debug)]
pub enum Action<R> {
    /// Run the hook, catching a panic.
    RunHook,
    /// Return this value to the caller.
    Return(R),
    /// Hand the call on.
    Forward(Fallback),
    /// The hook panicked and nothing catches it: panic.
    Propagate,
}

/// The fallback of a symbol: the system call `syscall` where the symbol is
/// needed during start-up and `syscall` is a system call number (not
/// negative), the next definition otherwise.
pub open spec fn fallback_of(needed_for_init: bool, syscall: i64) -> Fallback {
    if needed_for_init && syscall >= 0 {
        Fallback::Syscall(syscall)
    } else {
        Fallback::Original
    }
}

/// What a symbol does when it is called.
pub open spec fn entry_action<R>(kind: Interposer, initialized: bool) -> Action<R> {
    match kind {
        Interposer::Guarded(fallback) => if initialized {
            Action::RunHook
        } else {
            Action::Forward(fallback)
        },
        Interposer::Unguarded => Action::RunHook,
    }
}

/// What a symbol does once its hook has run: `outcome` is the hook's value,
/// or `None` where the hook panicked.
pub open spec fn completion_action<R>(kind: Interposer, outcome: Option<R>) -> Action<R> {
    match outcome {
        Some(value) => Action::Return(value),
        None => match kind {
            Interposer::Guarded(fallback) => Action::Forward(fallback),
            Interposer::Unguarded => Action::Propagate,
        },
    }
}

/// The fallback of a symbol declared with `needed_for_init` and the system
/// call number `syscall` (negative for none).
pub fn fallback_for(needed_for_init: bool, syscall: i64) -> (fallback: Fallback)
    ensures
        fallback == fallback_of(needed_for_init, syscall),
{
    if needed_for_init && syscall >= 0 {
        Fallback::Syscall(syscall)
    } else {
        Fallback::Original
    }
}

/// Decides what a symbol of kind `kind` does when called, given whether the
/// library is initialized.
pub fn on_entry<R>(kind: Interposer, initialized: bool) -> (action: Action<R>)
    ensures
        action == entry_action::<R>(kind, initialized),
{
    match kind {
        Interposer::Guarded(fallback) => {
            if initialized {
                Action::RunHook
            } else {
                Action::Forward(fallback)
            }
        },
        Interposer::Unguarded => Action::RunHook,
    }
}

/// Decides what a symbol of kind `kind` does after its hook ran: `outcome` is
/// the hook's value, or `None` where the hook panicked.
pub fn on_hook_done<R>(kind: Interposer, outcome: Option<R>) -> (action: Action<R>)
    ensures
        action == completion_action(kind, outcome),
{
    match outcome {
        Some(value) => Action::Return(value),
        None => match kind {
            Interposer::Guarded(fallback) => Action::Forward(fallback),
            Interposer::Unguarded => Action::Propagate,
        },
    }
}

/// A guarded symbol never lets a panic of its hook through: neither on entry
/// nor after its hook ran does it decide to propagate a panic.
pub proof fn guarded_never_propagates<R>(fallback: Fallback, initialized: bool, outcome: Option<R>)
    ensures
        !(entry_action::<R>(Interposer::Guarded(fallback), initialized) is Propagate),
        !(completion_action(Interposer::Guarded(fallback), outcome) is Propagate),
{
}

/// A call of a guarded symbol is answered by its hook exactly when the library
/// is initialized and the hook returned a value; on every other path the call
/// goes to the symbol's fallback. Before initialization the hook does not run.
pub proof fn guarded_answer<R>(fallback: Fallback, initialized: bool, outcome: Option<R>)
    ensures
        !initialized ==> entry_action::<R>(Interposer::Guarded(fallback), initialized)
            == Action::<R>::Forward(fallback),
        initialized ==> entry_action::<R>(Interposer::Guarded(fallback), initialized)
            is RunHook,
        completion_action(Interposer::Guarded(fallback), outcome) == (match outcome {
            Some(value) => Action::Return(value),
            None => Action::<R>::Forward(fallback),
        }),
{
}

/// An unguarded symbol always runs its hook, whether or not the library is
/// initialized, and then returns the hook's value or lets its panic through.
pub proof fn unguarded_always_hooks<R>(initialized: bool, outcome: Option<R>)
    ensures
        entry_action::<R>(Interposer::Unguarded, initialized) is RunHook,
        completion_action(Interposer::Unguarded, outcome) == (match outcome {
            Some(value) => Action::Return(value),
            None => Action::<R>::Propagate,
        }),
{
}

/// A call goes to the raw system call only for a symbol needed during start-up
/// that has a system call number, and then to the system call of that number.
pub proof fn syscall_only_for_startup(needed_for_init: bool, syscall: i64)
    ensures
        fallback_of(needed_for_init, syscall) is Syscall <==> (needed_for_init && syscall >= 0),
        fallback_of(needed_for_init, syscall) is Syscall ==> fallback_of(needed_for_init, syscall)
            == Fallback::Syscall(syscall),
{
}

} // verus!
