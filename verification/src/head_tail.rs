//! The lowest layer of the scan: a pair of slots, one for each end of a
//! sequence. Almost every step of the reconciliation touches only the head
//! and the tail of a sequence, so the pair is its own small object, with
//! move-based merge and split operations per end.

use vstd::prelude::*;

use crate::operators::{MergeTrait, SplitTrait};
use crate::reconcilable::{Reconcilable, Unchanged};

verus! {

/// A head slot and a tail slot. Either slot may hold `Nothing`.
#[derive(Debug, PartialEq)]
pub struct HeadTail<H, T> {
    pub head: H,
    pub tail: T,
}

/// Marks an empty slot of a `HeadTail`.
#[derive(Debug, PartialEq)]
pub struct Nothing;

impl<H, T> HeadTail<H, T> {
    pub fn new(head: H, tail: T) -> (r: HeadTail<H, T>)
        ensures
            r == (HeadTail { head, tail }),
    {
        HeadTail { head, tail }
    }

    pub fn merge_head<V>(self, head: V) -> (r: HeadTail<V, T>)
        ensures
            r == (HeadTail { head, tail: self.tail }),
    {
        HeadTail { head, tail: self.tail }
    }

    pub fn merge_tail<V>(self, tail: V) -> (r: HeadTail<H, V>)
        ensures
            r == (HeadTail { head: self.head, tail }),
    {
        HeadTail { head: self.head, tail }
    }
}

impl HeadTail<Nothing, Nothing> {
    pub fn nothing() -> (r: HeadTail<Nothing, Nothing>)
        ensures
            r == (HeadTail { head: Nothing, tail: Nothing }),
    {
        HeadTail::new(Nothing, Nothing)
    }
}

impl<H> HeadTail<H, Nothing> {
    pub fn head(head: H) -> (r: HeadTail<H, Nothing>)
        ensures
            r == (HeadTail { head, tail: Nothing }),
    {
        HeadTail { head, tail: Nothing }
    }
}

impl<T> HeadTail<Nothing, T> {
    pub fn tail(tail: T) -> (r: HeadTail<Nothing, T>)
        ensures
            r == (HeadTail { head: Nothing, tail }),
    {
        HeadTail { head: Nothing, tail }
    }
}

/// Identifies the head slot in merge and split operations, carrying the
/// slot's content when there is any.
#[derive(Debug, PartialEq)]
pub struct Head<H>(pub H);

/// Identifies the tail slot in merge and split operations, carrying the
/// slot's content when there is any.
#[derive(Debug, PartialEq)]
pub struct Tail<T>(pub T);

/// Wraps a bare value in the marker of one end.
pub trait Wrapper<T>: Sized {
    type Wrapped;

    spec fn wrap_spec(value: T) -> Self::Wrapped;

    fn wrap(value: T) -> (r: Self::Wrapped)
        ensures
            r == Self::wrap_spec(value),
    ;
}

/// Takes the bare value back out of the marker of one end.
pub trait Unwrapper: Sized {
    type Unwrapped;

    spec fn unwrap_spec(self) -> Self::Unwrapped;

    fn unwrap(self) -> (r: Self::Unwrapped)
        ensures
            r == self.unwrap_spec(),
    ;
}

impl<H, T> Wrapper<T> for Head<H> {
    type Wrapped = Head<T>;

    open spec fn wrap_spec(value: T) -> Head<T> {
        Head(value)
    }

    fn wrap(value: T) -> (r: Head<T>) {
        Head(value)
    }
}

impl<H, T> Wrapper<T> for Tail<H> {
    type Wrapped = Tail<T>;

    open spec fn wrap_spec(value: T) -> Tail<T> {
        Tail(value)
    }

    fn wrap(value: T) -> (r: Tail<T>) {
        Tail(value)
    }
}

impl<H> Unwrapper for Head<H> {
    type Unwrapped = H;

    open spec fn unwrap_spec(self) -> H {
        self.0
    }

    fn unwrap(self) -> (r: H) {
        self.0
    }
}

impl<T> Unwrapper for Tail<T> {
    type Unwrapped = T;

    open spec fn unwrap_spec(self) -> T {
        self.0
    }

    fn unwrap(self) -> (r: T) {
        self.0
    }
}

impl<CurrentHead, H, T> MergeTrait<Head<H>> for HeadTail<CurrentHead, T> {
    type MergedObject = HeadTail<H, T>;

    open spec fn merge_spec(self, head: Head<H>) -> HeadTail<H, T> {
        HeadTail { head: head.0, tail: self.tail }
    }

    fn merge(self, head: Head<H>) -> (r: HeadTail<H, T>) {
        self.merge_head(head.0)
    }
}

impl<CurrentTail, H, T> MergeTrait<Tail<T>> for HeadTail<H, CurrentTail> {
    type MergedObject = HeadTail<H, T>;

    open spec fn merge_spec(self, tail: Tail<T>) -> HeadTail<H, T> {
        HeadTail { head: self.head, tail: tail.0 }
    }

    fn merge(self, tail: Tail<T>) -> (r: HeadTail<H, T>) {
        self.merge_tail(tail.0)
    }
}

impl<H, T> SplitTrait<Head<H>> for HeadTail<H, T> {
    type Other = HeadTail<Nothing, T>;

    open spec fn split_spec(self) -> (HeadTail<Nothing, T>, Head<H>) {
        (HeadTail { head: Nothing, tail: self.tail }, Head(self.head))
    }

    fn split(self) -> (r: (HeadTail<Nothing, T>, Head<H>)) {
        (HeadTail::tail(self.tail), Head(self.head))
    }
}

impl<H, T> SplitTrait<Tail<T>> for HeadTail<H, T> {
    type Other = HeadTail<H, Nothing>;

    open spec fn split_spec(self) -> (HeadTail<H, Nothing>, Tail<T>) {
        (HeadTail { head: self.head, tail: Nothing }, Tail(self.tail))
    }

    fn split(self) -> (r: (HeadTail<H, Nothing>, Tail<T>)) {
        (HeadTail::head(self.head), Tail(self.tail))
    }
}

/// Recycling a `Head`-tagged value runs the recycler of the content and
/// keeps the tag on both outcomes.
impl<C, V> Reconcilable<V> for Head<C> where C: Reconcilable<V> {
    type Reconciled = Head<C::Reconciled>;

    open spec fn compatible(self, value: V) -> bool {
        self.0.compatible(value)
    }

    open spec fn recycled(self, value: V) -> Head<C::Reconciled> {
        Head(self.0.recycled(value))
    }

    fn reconcile(self, new_value: V) -> (result: Result<Head<C::Reconciled>, Unchanged<Self, V>>) {
        match self.0.reconcile(new_value) {
            Ok(recycled) => Ok(Head(recycled)),
            Err(unchanged) => Err(Unchanged { source: Head(unchanged.source), value: unchanged.value }),
        }
    }
}

/// Recycling a `Tail`-tagged value runs the recycler of the content and
/// keeps the tag on both outcomes.
impl<C, V> Reconcilable<V> for Tail<C> where C: Reconcilable<V> {
    type Reconciled = Tail<C::Reconciled>;

    open spec fn compatible(self, value: V) -> bool {
        self.0.compatible(value)
    }

    open spec fn recycled(self, value: V) -> Tail<C::Reconciled> {
        Tail(self.0.recycled(value))
    }

    fn reconcile(self, new_value: V) -> (result: Result<Tail<C::Reconciled>, Unchanged<Self, V>>) {
        match self.0.reconcile(new_value) {
            Ok(recycled) => Ok(Tail(recycled)),
            Err(unchanged) => Err(Unchanged { source: Tail(unchanged.source), value: unchanged.value }),
        }
    }
}

/// Recycling a pair against a `Head`-tagged value recycles the head slot and
/// leaves the tail slot alone; a rejection rebuilds the pair untouched.
impl<C, T, V> Reconcilable<Head<V>> for HeadTail<C, T> where C: Reconcilable<V> {
    type Reconciled = HeadTail<C::Reconciled, T>;

    open spec fn compatible(self, value: Head<V>) -> bool {
        self.head.compatible(value.0)
    }

    open spec fn recycled(self, value: Head<V>) -> HeadTail<C::Reconciled, T> {
        HeadTail { head: self.head.recycled(value.0), tail: self.tail }
    }

    fn reconcile(self, new_value: Head<V>) -> (result: Result<
        HeadTail<C::Reconciled, T>,
        Unchanged<Self, Head<V>>,
    >) {
        let HeadTail { head, tail } = self;
        match head.reconcile(new_value.0) {
            Ok(recycled) => Ok(HeadTail { head: recycled, tail }),
            Err(unchanged) => Err(
                Unchanged {
                    source: HeadTail { head: unchanged.source, tail },
                    value: Head(unchanged.value),
                },
            ),
        }
    }
}

/// Recycling a pair against a `Tail`-tagged value recycles the tail slot and
/// leaves the head slot alone; a rejection rebuilds the pair untouched.
impl<H, C, V> Reconcilable<Tail<V>> for HeadTail<H, C> where C: Reconcilable<V> {
    type Reconciled = HeadTail<H, C::Reconciled>;

    open spec fn compatible(self, value: Tail<V>) -> bool {
        self.tail.compatible(value.0)
    }

    open spec fn recycled(self, value: Tail<V>) -> HeadTail<H, C::Reconciled> {
        HeadTail { head: self.head, tail: self.tail.recycled(value.0) }
    }

    fn reconcile(self, new_value: Tail<V>) -> (result: Result<
        HeadTail<H, C::Reconciled>,
        Unchanged<Self, Tail<V>>,
    >) {
        let HeadTail { head, tail } = self;
        match tail.reconcile(new_value.0) {
            Ok(recycled) => Ok(HeadTail { head, tail: recycled }),
            Err(unchanged) => Err(
                Unchanged {
                    source: HeadTail { head, tail: unchanged.source },
                    value: Tail(unchanged.value),
                },
            ),
        }
    }
}

} // verus!
