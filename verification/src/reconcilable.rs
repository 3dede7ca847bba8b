//! The recycler contract: a component either recycles itself into a new
//! value, or rejects the pairing and hands both inputs back untouched.

use vstd::prelude::*;

use crate::operators::SplitTrait;

verus! {

/// A component of the old sequence. `compatible` is the compatibility
/// predicate of the implementation; `recycled` names the updated output.
/// `reconcile` must recycle exactly the compatible pairings, and a rejection
/// must return both inputs unchanged, so that the same component and value
/// can be retried against other candidates without corruption.
pub trait Reconcilable<V>: Sized {
    type Reconciled;

    spec fn compatible(self, value: V) -> bool;

    spec fn recycled(self, value: V) -> Self::Reconciled;

    fn reconcile(self, new_value: V) -> (result: Result<Self::Reconciled, Unchanged<Self, V>>)
        ensures
            self.compatible(new_value) ==> (result matches Ok(r) && r == self.recycled(
                new_value,
            )),
            !self.compatible(new_value) ==> (result matches Err(u) && u == (Unchanged {
                source: self,
                value: new_value,
            })),
    ;
}

/// The payload of a rejected recycling attempt: the component and the value,
/// exactly as they were handed in.
#[derive(Debug, PartialEq)]
pub struct Unchanged<S, V> {
    pub source: S,
    pub value: V,
}

/// Marks an absent slot.
#[derive(Debug, PartialEq)]
pub struct Nothing;

impl<S, V> Unchanged<S, V> {
    pub fn new(source: S, value: V) -> (r: Unchanged<S, V>)
        ensures
            r == (Unchanged { source, value }),
    {
        Unchanged { source, value }
    }
}

impl<S> Unchanged<S, Nothing> {
    pub fn source(source: S) -> (r: Unchanged<S, Nothing>)
        ensures
            r == (Unchanged { source, value: Nothing }),
    {
        Unchanged::new(source, Nothing)
    }
}

impl<V> Unchanged<Nothing, V> {
    pub fn value(value: V) -> (r: Unchanged<Nothing, V>)
        ensures
            r == (Unchanged { source: Nothing, value }),
    {
        Unchanged::new(Nothing, value)
    }
}

/// Tags the component half of an `Unchanged` pair when it is split out.
#[derive(Debug, PartialEq)]
pub struct Source<T>(pub T);

/// Tags the value half of an `Unchanged` pair when it is split out.
#[derive(Debug, PartialEq)]
pub struct Value<T>(pub T);

impl<S, V> SplitTrait<Value<V>> for Unchanged<S, V> {
    type Other = Unchanged<S, Nothing>;

    open spec fn split_spec(self) -> (Unchanged<S, Nothing>, Value<V>) {
        (Unchanged { source: self.source, value: Nothing }, Value(self.value))
    }

    fn split(self) -> (r: (Unchanged<S, Nothing>, Value<V>)) {
        (Unchanged::new(self.source, Nothing), Value(self.value))
    }
}

impl<S, V> SplitTrait<Source<S>> for Unchanged<S, V> {
    type Other = Unchanged<Nothing, V>;

    open spec fn split_spec(self) -> (Unchanged<Nothing, V>, Source<S>) {
        (Unchanged { source: Nothing, value: self.value }, Source(self.source))
    }

    fn split(self) -> (r: (Unchanged<Nothing, V>, Source<S>)) {
        (Unchanged::new(Nothing, self.value), Source(self.source))
    }
}

/// The return type of a recycler that never succeeds: no verified path
/// produces a value of it.
#[derive(Debug, PartialEq)]
pub enum Never {
    Unreachable,
}

/// A component that recycles into every value, yielding the value itself.
#[derive(Debug, PartialEq)]
pub struct AlwaysReconcileValue<T> {
    phantom: core::marker::PhantomData<T>,
}

impl<T> AlwaysReconcileValue<T> {
    pub fn new() -> AlwaysReconcileValue<T> {
        AlwaysReconcileValue { phantom: core::marker::PhantomData }
    }
}

impl<T> Reconcilable<T> for AlwaysReconcileValue<T> {
    type Reconciled = T;

    open spec fn compatible(self, value: T) -> bool {
        true
    }

    open spec fn recycled(self, value: T) -> T {
        value
    }

    fn reconcile(self, new_value: T) -> (result: Result<T, Unchanged<Self, T>>) {
        Ok(new_value)
    }
}

/// A component that rejects every value, handing both inputs back.
#[derive(Debug, PartialEq)]
pub struct AlwaysUnreconcileValue<T> {
    phantom: core::marker::PhantomData<T>,
}

impl<T> AlwaysUnreconcileValue<T> {
    pub fn new() -> AlwaysUnreconcileValue<T> {
        AlwaysUnreconcileValue { phantom: core::marker::PhantomData }
    }
}

impl<T> Reconcilable<T> for AlwaysUnreconcileValue<T> {
    type Reconciled = Never;

    open spec fn compatible(self, value: T) -> bool {
        false
    }

    open spec fn recycled(self, value: T) -> Never {
        Never::Unreachable
    }

    fn reconcile(self, new_value: T) -> (result: Result<Never, Unchanged<Self, T>>) {
        Err(Unchanged { source: self, value: new_value })
    }
}

/// An integer component that recycles a value equal to itself, yielding the
/// wrapped sum of the two.
impl Reconcilable<i32> for i32 {
    type Reconciled = i32;

    open spec fn compatible(self, value: i32) -> bool {
        self == value
    }

    open spec fn recycled(self, value: i32) -> i32 {
        vstd::wrapping::i32_specs::wrapping_add(self, value)
    }

    fn reconcile(self, new_value: i32) -> (result: Result<i32, Unchanged<i32, i32>>) {
        if self == new_value {
            Ok(self.wrapping_add(new_value))
        } else {
            Err(Unchanged { source: self, value: new_value })
        }
    }
}

} // verus!
