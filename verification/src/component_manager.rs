//! A double-ended cursor with a one-slot held-back buffer per end. An item
//! taken for a comparison that then fails is stored back into its end's
//! buffer, and comes out again before anything fresh is drawn from the
//! underlying sequence — so nothing is dropped and nothing is read twice.

use vstd::prelude::*;

use crate::head_tail::HeadTail;
use crate::iterator_manager::{IteratorManager, IteratorResult};

verus! {

/// The underlying cursor plus the two held-back buffers. The live sequence
/// is the head buffer, then the unread items, then the tail buffer.
#[derive(Debug)]
pub struct ComponentManager<T> {
    pub iterator: IteratorManager<T>,
    pub ends: HeadTail<Option<T>, Option<T>>,
}

/// The content of a one-slot buffer, as a sequence.
pub open spec fn slot_seq<T>(slot: Option<T>) -> Seq<T> {
    match slot {
        Some(value) => seq![value],
        None => Seq::empty(),
    }
}

impl<T> ComponentManager<T> {
    /// The items still owned by the cursor, in sequence order.
    pub open spec fn remaining(self) -> Seq<T> {
        slot_seq(self.ends.head) + self.iterator.items@ + slot_seq(self.ends.tail)
    }

    pub open spec fn wf(self) -> bool {
        self.iterator.wf()
    }

    pub fn new(items: Vec<T>) -> (r: ComponentManager<T>)
        ensures
            r.remaining() == items@,
            r.wf(),
            r.ends.head is None,
            r.ends.tail is None,
    {
        let r = ComponentManager {
            iterator: IteratorManager::new(items),
            ends: HeadTail::new(None, None),
        };
        proof {
            assert(r.remaining() =~= items@);
        }
        r
    }

    /// Takes the next item from the front: the held-back one if there is
    /// one, else the next unread item, else the one held back at the tail.
    /// Reports exhaustion when nothing is left.
    pub fn take_front(self) -> (r: Result<(T, ComponentManager<T>), ComponentManager<T>>)
        requires
            self.wf(),
        ensures
            self.remaining().len() > 0 ==> (r matches Ok((value, m)) && value
                == self.remaining()[0] && m.remaining() == self.remaining().drop_first()
                && m.wf() && m.ends.head is None && (self.ends.tail is None
                ==> m.ends.tail is None)),
            self.remaining().len() == 0 ==> (r matches Err(m) && m.remaining()
                == Seq::<T>::empty() && m.wf() && m.ends.head is None && m.ends.tail is None),
    {
        let ComponentManager { iterator, ends } = self;
        let HeadTail { head, tail } = ends;
        match head {
            Some(value) => {
                let m = ComponentManager { iterator, ends: HeadTail::new(None, tail) };
                proof {
                    assert(m.remaining() =~= self.remaining().drop_first());
                }
                Ok((value, m))
            },
            None => {
                if iterator.has_next {
                    match iterator.repopulate_h() {
                        Ok(IteratorResult { value, manager }) => {
                            let m = ComponentManager {
                                iterator: manager,
                                ends: HeadTail::new(None, tail),
                            };
                            proof {
                                assert(m.remaining() =~= self.remaining().drop_first());
                            }
                            Ok((value, m))
                        },
                        Err(manager) => Self::front_from_tail_slot(manager, tail, Ghost(self)),
                    }
                } else {
                    Self::front_from_tail_slot(iterator, tail, Ghost(self))
                }
            },
        }
    }

    /// The front take once the head buffer and the unread items are known
    /// empty: only the tail buffer may still hold an item.
    fn front_from_tail_slot(
        iterator: IteratorManager<T>,
        tail: Option<T>,
        Ghost(original): Ghost<ComponentManager<T>>,
    ) -> (r: Result<(T, ComponentManager<T>), ComponentManager<T>>)
        requires
            iterator.wf(),
            iterator.items@.len() == 0,
            original.remaining() == slot_seq(tail),
        ensures
            original.remaining().len() > 0 ==> (r matches Ok((value, m)) && value
                == original.remaining()[0] && m.remaining()
                == original.remaining().drop_first() && m.wf() && m.ends.head is None
                && m.ends.tail is None),
            original.remaining().len() == 0 ==> (r matches Err(m) && m.remaining()
                == Seq::<T>::empty() && m.wf() && m.ends.head is None && m.ends.tail is None),
    {
        let m = ComponentManager { iterator, ends: HeadTail::new(None, None) };
        proof {
            assert(m.remaining() =~= Seq::<T>::empty());
        }
        match tail {
            Some(value) => {
                proof {
                    assert(m.remaining() =~= original.remaining().drop_first());
                }
                Ok((value, m))
            },
            None => Err(m),
        }
    }

    /// Takes the next item from the back, mirroring `take_front`.
    pub fn take_back(self) -> (r: Result<(T, ComponentManager<T>), ComponentManager<T>>)
        requires
            self.wf(),
        ensures
            self.remaining().len() > 0 ==> (r matches Ok((value, m)) && value
                == self.remaining().last() && m.remaining() == self.remaining().drop_last()
                && m.wf() && m.ends.tail is None && (self.ends.head is None
                ==> m.ends.head is None)),
            self.remaining().len() == 0 ==> (r matches Err(m) && m.remaining()
                == Seq::<T>::empty() && m.wf() && m.ends.head is None && m.ends.tail is None),
    {
        let ComponentManager { iterator, ends } = self;
        let HeadTail { head, tail } = ends;
        match tail {
            Some(value) => {
                let m = ComponentManager { iterator, ends: HeadTail::new(head, None) };
                proof {
                    assert(m.remaining() =~= self.remaining().drop_last());
                }
                Ok((value, m))
            },
            None => {
                if iterator.has_next {
                    match iterator.repopulate_t() {
                        Ok(IteratorResult { value, manager }) => {
                            let m = ComponentManager {
                                iterator: manager,
                                ends: HeadTail::new(head, None),
                            };
                            proof {
                                assert(m.remaining() =~= self.remaining().drop_last());
                            }
                            Ok((value, m))
                        },
                        Err(manager) => Self::back_from_head_slot(manager, head, Ghost(self)),
                    }
                } else {
                    Self::back_from_head_slot(iterator, head, Ghost(self))
                }
            },
        }
    }

    /// The back take once the tail buffer and the unread items are known
    /// empty: only the head buffer may still hold an item.
    fn back_from_head_slot(
        iterator: IteratorManager<T>,
        head: Option<T>,
        Ghost(original): Ghost<ComponentManager<T>>,
    ) -> (r: Result<(T, ComponentManager<T>), ComponentManager<T>>)
        requires
            iterator.wf(),
            iterator.items@.len() == 0,
            original.remaining() == slot_seq(head),
        ensures
            original.remaining().len() > 0 ==> (r matches Ok((value, m)) && value
                == original.remaining().last() && m.remaining()
                == original.remaining().drop_last() && m.wf() && m.ends.head is None
                && m.ends.tail is None),
            original.remaining().len() == 0 ==> (r matches Err(m) && m.remaining()
                == Seq::<T>::empty() && m.wf() && m.ends.head is None && m.ends.tail is None),
    {
        let m = ComponentManager { iterator, ends: HeadTail::new(None, None) };
        proof {
            assert(m.remaining() =~= Seq::<T>::empty());
        }
        match head {
            Some(value) => {
                proof {
                    assert(m.remaining() =~= original.remaining().drop_last());
                }
                Ok((value, m))
            },
            None => Err(m),
        }
    }

    /// Holds an item back at the front. The one-slot invariant: the front
    /// buffer must be free.
    pub fn store_front(self, value: T) -> (m: ComponentManager<T>)
        requires
            self.wf(),
            self.ends.head is None,
        ensures
            m.remaining() == seq![value] + self.remaining(),
            m.wf(),
            m.ends.head is Some,
            m.ends.tail == self.ends.tail,
    {
        let ComponentManager { iterator, ends } = self;
        let m = ComponentManager { iterator, ends: HeadTail::new(Some(value), ends.tail) };
        proof {
            assert(m.remaining() =~= seq![value] + self.remaining());
        }
        m
    }

    /// Holds an item back at the back. The one-slot invariant: the back
    /// buffer must be free.
    pub fn store_back(self, value: T) -> (m: ComponentManager<T>)
        requires
            self.wf(),
            self.ends.tail is None,
        ensures
            m.remaining() == self.remaining() + seq![value],
            m.wf(),
            m.ends.tail is Some,
            m.ends.head == self.ends.head,
    {
        let ComponentManager { iterator, ends } = self;
        let m = ComponentManager { iterator, ends: HeadTail::new(ends.head, Some(value)) };
        proof {
            assert(m.remaining() =~= self.remaining() + seq![value]);
        }
        m
    }

    /// Hands every item still owned by the cursor out, in order.
    pub fn into_remaining(self) -> (r: Vec<T>)
        requires
            self.wf(),
        ensures
            r@ == self.remaining(),
    {
        let ComponentManager { iterator, ends } = self;
        let HeadTail { head, tail } = ends;
        let mut out: Vec<T> = Vec::new();
        if let Some(value) = head {
            out.push(value);
        }
        let mut items = iterator.items;
        out.append(&mut items);
        if let Some(value) = tail {
            out.push(value);
        }
        proof {
            assert(out@ =~= self.remaining());
        }
        out
    }
}

} // verus!
