//! A single-slot container for moving a value out of a place that is only
//! reachable through `&mut`.
//!
//! A [`Takeable<T>`] is created holding one `T`. [`Takeable::borrow`] and
//! [`Takeable::borrow_result`] lend the value to a closure by ownership and
//! store what the closure hands back. [`Takeable::take`] moves the value out
//! for good. A container whose value is gone is unusable: every accessor but
//! [`Takeable::is_usable`] demands an occupied container.
use crate::primitives::{unwrap_some, write_none, PANIC_MESSAGE};
use vstd::prelude::*;

pub mod laws;
pub mod primitives;

verus! {

/// A wrapper that holds a single `T`, or nothing once the value has been
/// moved out.
///
/// The model of a container is the `Option<T>` given by its view: `Some(v)`
/// while it holds `v`, `None` once it is unusable.
#[derive(Clone, Copy, Debug, PartialEq, Eq, PartialOrd, Ord, Hash)]
pub struct Takeable<T> {
    value: Option<T>,
}

impl<T> View for Takeable<T> {
    type V = Option<T>;

    closed spec fn view(&self) -> Option<T> {
        self.value
    }
}

impl<T> Takeable<T> {
    /// Whether the container holds a value.
    pub open spec fn spec_is_usable(&self) -> bool {
        self@ is Some
    }

    /// The container that holds `value`.
    pub closed spec fn holding(value: T) -> Takeable<T> {
        Takeable { value: Some(value) }
    }

    /// The container that holds `value` is the one whose view is
    /// `Some(value)`.
    pub proof fn lemma_holding(value: T)
        ensures
            Takeable::holding(value)@ == Some(value),
            forall|other: Takeable<T>| other@ == Some(value) ==> other == Takeable::holding(value),
    {
    }

    /// Constructs a container that holds `value`.
    #[inline(always)]
    pub fn new(value: T) -> (made: Takeable<T>)
        ensures
            made@ == Some(value),
            made.is_usable(),
        no_unwind
    {
        Takeable { value: Some(value) }
    }

    /// Checks whether the container still holds a value.
    ///
    /// A container starts out usable and stops being so when its value is
    /// moved out with [`take`](Self::take), or when a closure given to
    /// [`borrow`](Self::borrow) or [`borrow_result`](Self::borrow_result)
    /// does not return.
    #[verifier::when_used_as_spec(spec_is_usable)]
    #[inline(always)]
    pub fn is_usable(&self) -> (usable: bool)
        ensures
            usable == self.spec_is_usable(),
        no_unwind
    {
        match &self.value {
            Some(_) => true,
            None => false,
        }
    }

    /// The value held by a usable container.
    pub open spec fn held(&self) -> T
        recommends
            self.is_usable(),
    {
        self@->0
    }

    /// What a call of `f` on the held value may leave behind: `after` holds
    /// a value and `result` is returned, where the pair of both is an outcome
    /// of `f` on the value that `self` held.
    pub open spec fn lends_to<F, R>(&self, f: F, after: Takeable<T>, result: R) -> bool where
        F: FnOnce(T) -> (T, R),
     {
        &&& self.is_usable()
        &&& after.is_usable()
        &&& call_ensures(f, (self.held(),), (after.held(), result))
    }

    /// What a call of `f` on the held value may leave behind: `after` holds
    /// an outcome of `f` on the value that `self` held.
    pub open spec fn passes_through<F>(&self, f: F, after: Takeable<T>) -> bool where
        F: FnOnce(T) -> T,
     {
        &&& self.is_usable()
        &&& after.is_usable()
        &&& call_ensures(f, (self.held(),), after.held())
    }

    /// Updates the held value with `f`.
    ///
    /// This is [`borrow_result`](Self::borrow_result) for a closure that has
    /// nothing to report.
    #[inline(always)]
    pub fn borrow<F>(&mut self, f: F) where F: FnOnce(T) -> T
        requires
            old(self).is_usable(),
            call_requires(f, (old(self).held(),)),
        ensures
            old(self).passes_through(f, *final(self)),
            final(self).is_usable(),
    {
        let paired = |v: T| -> (out: (T, ()))
            requires
                call_requires(f, (v,)),
            ensures
                call_ensures(f, (v,), out.0),
            {
                let next = f(v);
                (next, ())
            };
        self.borrow_result(paired)
    }

    /// Updates the held value with `f`, which also produces a result.
    ///
    /// The value is moved out of the container before `f` runs, handed to `f`
    /// by ownership, and what `f` returns beside its result is stored again.
    /// The slot is empty while `f` runs, so a call of `f` that does not
    /// return leaves the container unusable.
    #[inline(always)]
    pub fn borrow_result<F, R>(&mut self, f: F) -> (result: R) where F: FnOnce(T) -> (T, R)
        requires
            old(self).is_usable(),
            call_requires(f, (old(self).held(),)),
        ensures
            old(self).lends_to(f, *final(self), result),
            final(self).is_usable(),
    {
        let lent = self.take();
        // The slot stays empty unless `f` returns.
        assert(!self.is_usable());
        let (next, result) = f(lent);
        write_none(&mut self.value, next);
        result
    }

    /// Moves the held value out and leaves the container unusable.
    #[inline(always)]
    pub fn take(&mut self) -> (value: T)
        requires
            old(self).is_usable(),
        ensures
            old(self)@ == Some(value),
            !final(self).is_usable(),
        no_unwind
    {
        let mut slot: Option<T> = None;
        core::mem::swap(&mut self.value, &mut slot);
        unwrap_some(slot)
    }

    /// Consumes the container and returns the held value.
    #[inline(always)]
    pub fn into_inner(self) -> (value: T)
        requires
            self.is_usable(),
        ensures
            self@ == Some(value),
        no_unwind
    {
        unwrap_some(self.value)
    }

    /// A reference to the held value.
    #[inline(always)]
    pub fn get_ref(&self) -> (value: &T)
        requires
            self.is_usable(),
        ensures
            self@ == Some(*value),
        no_unwind
    {
        match &self.value {
            Some(held) => held,
            // Out of reach of a caller that meets the precondition.
            gone => gone.as_ref().expect(PANIC_MESSAGE),
        }
    }

    /// A mutable reference to the held value. What is written through it is
    /// what the container holds afterwards.
    #[inline(always)]
    pub fn get_mut(&mut self) -> (value: &mut T)
        requires
            old(self).is_usable(),
        ensures
            old(self)@ == Some(*value),
            final(self)@ == Some(*final(value)),
            final(self).is_usable(),
        no_unwind
    {
        match &mut self.value {
            Some(held) => held,
            // Out of reach of a caller that meets the precondition.
            gone => gone.as_mut().expect(PANIC_MESSAGE),
        }
    }
}

impl<T> From<T> for Takeable<T> {
    /// Converts a `T` into a container that holds it.
    fn from(value: T) -> (made: Takeable<T>)
        ensures
            made@ == Some(value),
    {
        Takeable::new(value)
    }
}

impl<T> vstd::std_specs::convert::FromSpecImpl<T> for Takeable<T> {
    open spec fn obeys_from_spec() -> bool {
        true
    }

    open spec fn from_spec(value: T) -> Takeable<T> {
        Takeable::holding(value)
    }
}

} // verus!
