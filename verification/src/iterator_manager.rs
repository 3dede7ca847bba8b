//! A double-ended cursor over a finite sequence of items, consumed by move
//! from either end. Once the sequence runs out the manager turns exhausted,
//! and must not be queried again: the two states mirror the active and
//! exhausted states of a double-ended iterator that has returned its last
//! item.

use vstd::prelude::*;

use crate::reconcile::End;

verus! {

/// The not-yet-consumed items, in order, and whether the underlying sequence
/// may still be queried. `has_next` is false only once a query has come back
/// empty, so an exhausted manager holds no items.
#[derive(Debug)]
pub struct IteratorManager<T> {
    pub items: Vec<T>,
    pub has_next: bool,
}

/// One item taken from an end, together with the manager for the rest.
#[derive(Debug)]
pub struct IteratorResult<T> {
    pub value: T,
    pub manager: IteratorManager<T>,
}

/// A cursor that can fill one end slot: either it yields the next item of
/// the identified end, or it reports the sequence exhausted.
/// `repopulate_post` pins down both outcomes.
pub trait Repopulatable<EndIdentifier>: Sized {
    type OkGeneric;

    type FailureGeneric;

    spec fn repopulate_req(self, identifier: EndIdentifier) -> bool;

    spec fn repopulate_post(
        self,
        identifier: EndIdentifier,
        r: Result<Self::OkGeneric, Self::FailureGeneric>,
    ) -> bool;

    fn repopulate(self, identifier: EndIdentifier) -> (r: Result<
        Self::OkGeneric,
        Self::FailureGeneric,
    >)
        requires
            self.repopulate_req(identifier),
        ensures
            self.repopulate_post(identifier, r),
    ;
}

impl<T> IteratorManager<T> {
    /// An exhausted manager is empty: it has answered its last query and may
    /// not be asked again.
    pub open spec fn wf(self) -> bool {
        !self.has_next ==> self.items@.len() == 0
    }

    pub fn new(items: Vec<T>) -> (r: IteratorManager<T>)
        ensures
            r.items@ == items@,
            r.has_next,
            r.wf(),
    {
        IteratorManager { items, has_next: true }
    }

    /// Takes the next item from the front, or reports exhaustion.
    pub fn repopulate_h(self) -> (r: Result<IteratorResult<T>, IteratorManager<T>>)
        requires
            self.has_next,
        ensures
            self.items@.len() > 0 ==> (r matches Ok(res) && res.value == self.items@[0]
                && res.manager.items@ == self.items@.drop_first() && res.manager.has_next),
            self.items@.len() == 0 ==> (r matches Err(m) && m.items@ == self.items@
                && !m.has_next),
    {
        let IteratorManager { mut items, has_next: _ } = self;
        if items.len() > 0 {
            let value = items.remove(0);
            Ok(IteratorResult { value, manager: IteratorManager { items, has_next: true } })
        } else {
            Err(IteratorManager { items, has_next: false })
        }
    }

    /// Takes the next item from the back, or reports exhaustion.
    pub fn repopulate_t(self) -> (r: Result<IteratorResult<T>, IteratorManager<T>>)
        requires
            self.has_next,
        ensures
            self.items@.len() > 0 ==> (r matches Ok(res) && res.value == self.items@.last()
                && res.manager.items@ == self.items@.drop_last() && res.manager.has_next),
            self.items@.len() == 0 ==> (r matches Err(m) && m.items@ == self.items@
                && !m.has_next),
    {
        let IteratorManager { mut items, has_next: _ } = self;
        if items.len() > 0 {
            let value_opt = items.pop();
            match value_opt {
                Some(value) => Ok(
                    IteratorResult { value, manager: IteratorManager { items, has_next: true } },
                ),
                None => Err(IteratorManager { items, has_next: false }),
            }
        } else {
            Err(IteratorManager { items, has_next: false })
        }
    }
}

impl<T> Repopulatable<End> for IteratorManager<T> {
    type OkGeneric = IteratorResult<T>;

    type FailureGeneric = IteratorManager<T>;

    open spec fn repopulate_req(self, identifier: End) -> bool {
        self.has_next
    }

    open spec fn repopulate_post(
        self,
        identifier: End,
        r: Result<IteratorResult<T>, IteratorManager<T>>,
    ) -> bool {
        if self.items@.len() == 0 {
            r matches Err(m) && m.items@ == self.items@ && !m.has_next
        } else {
            match identifier {
                End::Head => r matches Ok(res) && res.value == self.items@[0]
                    && res.manager.items@ == self.items@.drop_first() && res.manager.has_next,
                End::Tail => r matches Ok(res) && res.value == self.items@.last()
                    && res.manager.items@ == self.items@.drop_last() && res.manager.has_next,
            }
        }
    }

    fn repopulate(self, identifier: End) -> (r: Result<IteratorResult<T>, IteratorManager<T>>) {
        match identifier {
            End::Head => self.repopulate_h(),
            End::Tail => self.repopulate_t(),
        }
    }
}

} // verus!
