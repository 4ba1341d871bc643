//! What holds of a container when the closures lent to are functions of
//! their argument.
//!
//! The contracts of [`Takeable::borrow`] and [`Takeable::borrow_result`]
//! speak of any closure, also one whose outcome is not fixed by its argument.
//! The statements here are about closures whose outcome is.
use crate::Takeable;
use vstd::prelude::*;

verus! {

/// `f` is a function of its argument: a call of `f` on `x` that returns,
/// returns `model(x)`.
pub open spec fn computes<A, B, F>(f: F, model: spec_fn(A) -> B) -> bool where F: FnOnce(A) -> B {
    forall|x: A, y: B| call_ensures(f, (x,), y) ==> y == model(x)
}

/// Lending to a closure that computes `h` leaves `h` of the held value in the
/// container.
pub proof fn lemma_borrow_applies<T, F>(
    before: Takeable<T>,
    f: F,
    h: spec_fn(T) -> T,
    after: Takeable<T>,
) where F: FnOnce(T) -> T
    requires
        before.passes_through(f, after),
        computes(f, h),
    ensures
        after@ == Some(h(before.held())),
{
}

/// Lending twice composes: to a closure that computes `hf` and then to one
/// that computes `hg` leaves `hg(hf(v))` in a container that held `v`.
pub proof fn lemma_borrow_composes<T, F, G>(
    before: Takeable<T>,
    f: F,
    hf: spec_fn(T) -> T,
    between: Takeable<T>,
    g: G,
    hg: spec_fn(T) -> T,
    after: Takeable<T>,
) where F: FnOnce(T) -> T, G: FnOnce(T) -> T
    requires
        before.passes_through(f, between),
        between.passes_through(g, after),
        computes(f, hf),
        computes(g, hg),
    ensures
        after@ == Some(hg(hf(before.held()))),
{
    lemma_borrow_applies(before, f, hf, between);
    lemma_borrow_applies(between, g, hg, after);
}

/// Lending to a closure that computes the pair of `h` and `side` leaves `h`
/// of the held value in the container and returns `side` of it.
pub proof fn lemma_borrow_result_passes_result<T, R, F>(
    before: Takeable<T>,
    f: F,
    h: spec_fn(T) -> T,
    side: spec_fn(T) -> R,
    after: Takeable<T>,
    result: R,
) where F: FnOnce(T) -> (T, R)
    requires
        before.lends_to(f, after, result),
        computes(f, |v: T| (h(v), side(v))),
    ensures
        after@ == Some(h(before.held())),
        result == side(before.held()),
{
}

} // verus!
