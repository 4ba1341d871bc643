//! The two steps of lending a slot's value out: emptying an occupied slot and
//! filling an empty one.
//!
//! Each step states as a precondition what it relies on, so a caller proves
//! the slot's state instead of having it tested, and each is proved to
//! return.
use vstd::prelude::*;

verus! {

/// What a caller that was not verified is told when it asks for a value that
/// is no longer there.
pub const PANIC_MESSAGE: &'static str = "the value has already been removed from the Takeable";

/// Moves the value out of an option that is known to hold one.
#[inline(always)]
pub fn unwrap_some<T>(value: Option<T>) -> (inner: T)
    requires
        value is Some,
    ensures
        value == Some(inner),
    no_unwind
{
    match value {
        Some(inner) => inner,
        // Out of reach of a caller that meets the precondition.
        gone => gone.expect(PANIC_MESSAGE),
    }
}

/// Stores `value` in a slot that is known to be empty.
#[inline(always)]
pub fn write_none<T>(loc: &mut Option<T>, value: T)
    requires
        *old(loc) is None,
    ensures
        *final(loc) == Some(value),
    no_unwind
{
    *loc = Some(value);
}

} // verus!
