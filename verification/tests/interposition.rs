use redhook::dispatch::{
    fallback_for, on_entry, on_hook_done, Action, Fallback, Interposer,
};
use redhook::lookup::{found_address, lookup_plan, missing_symbol_message, LookupPlan};
use redhook::{initialize, initialized, UNINITIALIZED};

#[test]
fn lowered_flag_is_not_initialized() {
    assert!(!initialized(false));
    assert!(initialized(true));
}

#[test]
fn flag_starts_lowered() {
    assert!(!UNINITIALIZED);
    assert!(!initialized(UNINITIALIZED));
    let kind = Interposer::Guarded(Fallback::Original);
    assert!(matches!(
        on_entry::<i32>(kind, initialized(UNINITIALIZED)),
        Action::Forward(Fallback::Original)
    ));
}

#[test]
fn initialize_raises_the_flag() {
    let flag = initialize();
    assert!(flag);
    assert!(initialized(flag));
    assert!(initialized(initialize()));
}

#[test]
fn startup_symbol_with_syscall_falls_back_to_syscall() {
    assert_eq!(fallback_for(true, 89), Fallback::Syscall(89));
    assert_eq!(fallback_for(true, 0), Fallback::Syscall(0));
}

#[test]
fn symbol_without_syscall_falls_back_to_original() {
    assert_eq!(fallback_for(true, -1), Fallback::Original);
    assert_eq!(fallback_for(false, 89), Fallback::Original);
    assert_eq!(fallback_for(false, -1), Fallback::Original);
}

#[test]
fn guarded_symbol_bypasses_hook_before_initialization() {
    let kind = Interposer::Guarded(Fallback::Syscall(89));
    assert!(matches!(on_entry::<i32>(kind, false), Action::Forward(Fallback::Syscall(89))));
    assert!(matches!(on_entry::<i32>(kind, true), Action::RunHook));
}

#[test]
fn unguarded_symbol_always_runs_hook() {
    assert!(matches!(on_entry::<i32>(Interposer::Unguarded, false), Action::RunHook));
    assert!(matches!(on_entry::<i32>(Interposer::Unguarded, true), Action::RunHook));
}

#[test]
fn hook_value_is_returned() {
    let kind = Interposer::Guarded(Fallback::Original);
    assert!(matches!(on_hook_done(kind, Some(7i32)), Action::Return(7)));
    assert!(matches!(on_hook_done(Interposer::Unguarded, Some(-3i64)), Action::Return(-3)));
}

#[test]
fn panicking_guarded_hook_is_forwarded() {
    let kind = Interposer::Guarded(Fallback::Original);
    assert!(matches!(on_hook_done::<i32>(kind, None), Action::Forward(Fallback::Original)));
    let kind = Interposer::Guarded(Fallback::Syscall(2));
    assert!(matches!(on_hook_done::<i32>(kind, None), Action::Forward(Fallback::Syscall(2))));
}

#[test]
fn panicking_unguarded_hook_propagates() {
    assert!(matches!(on_hook_done::<i32>(Interposer::Unguarded, None), Action::Propagate));
}

#[test]
fn lookup_plans() {
    assert_eq!(lookup_plan(true, false), LookupPlan::Resolve);
    assert_eq!(lookup_plan(true, true), LookupPlan::Reuse);
    assert_eq!(lookup_plan(false, false), LookupPlan::ResolveOnce);
    assert_eq!(lookup_plan(false, true), LookupPlan::ResolveOnce);
}

#[test]
fn null_address_is_not_found() {
    assert_eq!(found_address(0), None);
    assert_eq!(found_address(0x7f00_1234), Some(0x7f00_1234));
}

#[test]
fn missing_symbol_message_names_symbol() {
    assert_eq!(
        missing_symbol_message("readlink\0"),
        "redhook: Unable to find underlying function for readlink\0"
    );
    assert_eq!(
        missing_symbol_message(""),
        "redhook: Unable to find underlying function for "
    );
}
