//! A component together with its skip state: one flag per end of the new
//! sequence, recording that a recycling attempt against the value at that
//! end has already failed and need not be retried. Fresh content at either
//! side renews the flags.

use vstd::prelude::*;

use crate::head_tail::HeadTail;
use crate::operators::{MergeTrait, SplitTrait};
use crate::reconcilable::{Nothing, Reconcilable, Unchanged};

verus! {

/// A component and the two skip flags. A raised flag means the pairing
/// with the value at that end of the new sequence is known to fail.
#[derive(Debug)]
pub struct ComponentState<C> {
    pub component: C,
    pub skip: HeadTail<bool, bool>,
}

impl<C> ComponentState<C> {
    /// Wraps fresh content: nothing is known to fail yet, so neither end
    /// is skipped.
    pub fn component(component: C) -> (r: ComponentState<C>)
        ensures
            r == (ComponentState { component, skip: HeadTail { head: false, tail: false } }),
    {
        ComponentState { component, skip: HeadTail::new(false, false) }
    }

    /// Marks the pairing with the new sequence's head value as known to
    /// fail.
    pub fn skip_vh(self) -> (r: ComponentState<C>)
        requires
            !self.skip.head,
        ensures
            r == (ComponentState {
                component: self.component,
                skip: HeadTail { head: true, tail: self.skip.tail },
            }),
    {
        let ComponentState { component, skip } = self;
        ComponentState { component, skip: skip.merge_head(true) }
    }

    /// Clears the head-side skip flag: a fresh head value may match after
    /// all.
    pub fn allow_vh(self) -> (r: ComponentState<C>)
        requires
            self.skip.head,
        ensures
            r == (ComponentState {
                component: self.component,
                skip: HeadTail { head: false, tail: self.skip.tail },
            }),
    {
        let ComponentState { component, skip } = self;
        ComponentState { component, skip: skip.merge_head(false) }
    }

    /// Marks the pairing with the new sequence's tail value as known to
    /// fail.
    pub fn skip_vt(self) -> (r: ComponentState<C>)
        requires
            !self.skip.tail,
        ensures
            r == (ComponentState {
                component: self.component,
                skip: HeadTail { head: self.skip.head, tail: true },
            }),
    {
        let ComponentState { component, skip } = self;
        ComponentState { component, skip: skip.merge_tail(true) }
    }

    /// Clears the tail-side skip flag: a fresh tail value may match after
    /// all.
    pub fn allow_vt(self) -> (r: ComponentState<C>)
        requires
            self.skip.tail,
        ensures
            r == (ComponentState {
                component: self.component,
                skip: HeadTail { head: self.skip.head, tail: false },
            }),
    {
        let ComponentState { component, skip } = self;
        ComponentState { component, skip: skip.merge_tail(false) }
    }

    /// Tries the component against the value at the head of the new
    /// sequence. Success empties the slot and hands the recycled output
    /// out; a rejection keeps both inputs and raises the head-side skip
    /// flag.
    pub fn recycle_vh<V>(self, value: V) -> (r: Result<
        (C::Reconciled, ComponentState<Nothing>),
        ComponentState<Unchanged<C, V>>,
    >) where C: Reconcilable<V>
        requires
            !self.skip.head,
        ensures
            self.component.compatible(value) ==> (r matches Ok((data, state)) && data
                == self.component.recycled(value) && state == (ComponentState {
                component: Nothing,
                skip: self.skip,
            })),
            !self.component.compatible(value) ==> (r matches Err(state) && state
                == (ComponentState {
                component: Unchanged { source: self.component, value },
                skip: HeadTail { head: true, tail: self.skip.tail },
            })),
    {
        let ComponentState { component, skip } = self;
        match component.reconcile(value) {
            Ok(data) => Ok((data, ComponentState { component: Nothing, skip })),
            Err(unchanged) => Err(
                ComponentState { component: unchanged, skip }.skip_vh(),
            ),
        }
    }

    /// Tries the component against the value at the tail of the new
    /// sequence, mirroring `recycle_vh`.
    pub fn recycle_vt<V>(self, value: V) -> (r: Result<
        (C::Reconciled, ComponentState<Nothing>),
        ComponentState<Unchanged<C, V>>,
    >) where C: Reconcilable<V>
        requires
            !self.skip.tail,
        ensures
            self.component.compatible(value) ==> (r matches Ok((data, state)) && data
                == self.component.recycled(value) && state == (ComponentState {
                component: Nothing,
                skip: self.skip,
            })),
            !self.component.compatible(value) ==> (r matches Err(state) && state
                == (ComponentState {
                component: Unchanged { source: self.component, value },
                skip: HeadTail { head: self.skip.head, tail: true },
            })),
    {
        let ComponentState { component, skip } = self;
        match component.reconcile(value) {
            Ok(data) => Ok((data, ComponentState { component: Nothing, skip })),
            Err(unchanged) => Err(
                ComponentState { component: unchanged, skip }.skip_vt(),
            ),
        }
    }
}

impl ComponentState<Nothing> {
    /// Fills an emptied slot with fresh content, renewing the skip flags.
    pub fn new_component<C>(self, component: C) -> (r: ComponentState<C>)
        ensures
            r == (ComponentState { component, skip: HeadTail { head: false, tail: false } }),
    {
        ComponentState::component(component)
    }
}

impl<C> SplitTrait<C> for ComponentState<C> {
    type Other = ComponentState<Nothing>;

    open spec fn split_spec(self) -> (ComponentState<Nothing>, C) {
        (
            ComponentState { component: Nothing, skip: HeadTail { head: false, tail: false } },
            self.component,
        )
    }

    fn split(self) -> (r: (ComponentState<Nothing>, C)) {
        (
            ComponentState { component: Nothing, skip: HeadTail::new(false, false) },
            self.component,
        )
    }
}

impl<C> MergeTrait<C> for ComponentState<Nothing> {
    type MergedObject = ComponentState<C>;

    open spec fn merge_spec(self, component: C) -> ComponentState<C> {
        ComponentState { component, skip: HeadTail { head: false, tail: false } }
    }

    fn merge(self, component: C) -> (r: ComponentState<C>) {
        ComponentState::component(component)
    }
}

} // verus!
