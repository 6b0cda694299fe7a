//! Finding the next definition of an interposed symbol.
//!
//! The address of the next definition is looked up lazily, on the first call
//! that needs it. A symbol needed during start-up looks it up directly each
//! time no address is held yet; any other symbol looks it up once, under a
//! one-time guard. A lookup that finds nothing is fatal.

use vstd::prelude::*;

verus! {

/// How the address of the next definition is obtained on a call.
#[derive(PartialEq, Eq, Structural, Clone, Copy, Debug)]
pub enum LookupPlan {
    /// The address is already held: use it.
    Reuse,
    /// Look the address up now.
    Resolve,
    /// Look the address up under the one-time guard, which runs the lookup
    /// on the first call only.
    ResolveOnce,
}

/// How a symbol declared with `needed_for_init` obtains the address, given
/// whether an address is already held.
pub open spec fn lookup_plan_of(needed_for_init: bool, resolved: bool) -> LookupPlan {
    if needed_for_init {
        if resolved {
            LookupPlan::Reuse
        } else {
            LookupPlan::Resolve
        }
    } else {
        LookupPlan::ResolveOnce
    }
}

/// Decides how the address of the next definition is obtained on a call, for
/// a symbol declared with `needed_for_init`, given whether an address is
/// already held.
pub fn lookup_plan(needed_for_init: bool, resolved: bool) -> (plan: LookupPlan)
    ensures
        plan == lookup_plan_of(needed_for_init, resolved),
{
    if needed_for_init {
        if resolved {
            LookupPlan::Reuse
        } else {
            LookupPlan::Resolve
        }
    } else {
        LookupPlan::ResolveOnce
    }
}

/// A symbol needed during start-up looks its next definition up exactly while
/// no address is held, and reuses the address once one is; any other symbol
/// always goes through the one-time guard.
pub proof fn startup_lookup_until_resolved(needed_for_init: bool, resolved: bool)
    ensures
        needed_for_init ==> (lookup_plan_of(needed_for_init, resolved) == LookupPlan::Resolve
            <==> !resolved),
        needed_for_init && resolved ==> lookup_plan_of(needed_for_init, resolved)
            == LookupPlan::Reuse,
        !needed_for_init ==> lookup_plan_of(needed_for_init, resolved) == LookupPlan::ResolveOnce,
{
}

/// Checks the address a lookup returned: the null address means that no
/// further definition of the symbol exists.
pub fn found_address(address: usize) -> (found: Option<usize>)
    ensures
        found == (if address == 0 { None::<usize> } else { Some(address) }),
{
    if address == 0 {
        None
    } else {
        Some(address)
    }
}

/// The text of the failure when no further definition of `symbol` exists.
pub open spec fn missing_symbol_text(symbol: Seq<char>) -> Seq<char> {
    "redhook: Unable to find underlying function for "@ + symbol
}

/// Builds the message with which a failed lookup of `symbol` stops the
/// process.
pub fn missing_symbol_message(symbol: &str) -> (message: String)
    ensures
        message@ == missing_symbol_text(symbol@),
{
    let mut message = String::from_str("redhook: Unable to find underlying function for ");
    message.append(symbol);
    message
}

} // verus!
