//! The reconciliation core: the four-corner scan over an old sequence of
//! components and a new sequence of values, emitted as a lazy stream of
//! instructions.
//!
//! `steps` is the mathematical description of the whole algorithm: at each
//! step the scan tries the old head against the new head, then — when both
//! sequences still have at least two live entries — the three other corner
//! pairings in the fixed priority order tail-tail, head-tail, tail-head, and
//! removes the old head when every corner fails. The executable machine is
//! proved to emit exactly that stream.

use vstd::prelude::*;

use crate::component_manager::ComponentManager;
use crate::reconcilable::Reconcilable;

verus! {

/// One end of a sequence.
#[derive(Clone, Copy, Debug, PartialEq, Eq, Structural)]
pub enum End {
    Head,
    Tail,
}

/// The corner a recycling happened at: which end of the old sequence met
/// which end of the new one.
#[derive(Clone, Copy, Debug, PartialEq, Eq, Structural)]
pub struct Position {
    pub old: End,
    pub new: End,
}

/// One non-final instruction of the stream. A recycled slot carries the
/// recycler's output; a removed component is handed back whole.
#[derive(Debug, PartialEq)]
pub enum ReconcileInstruction<C, R> {
    RecycledItem { position: Position, result: R },
    RemoveItem { end: End, component: C },
}

/// The final instruction of the stream: everything still alive when one
/// sequence ran out, handed over in order.
#[derive(Debug, PartialEq)]
pub enum Finished<C, V> {
    AddRemaining { values: Vec<V> },
    RemoveRemainingComponents { components: Vec<C> },
    Done,
}

/// One step of the mathematical instruction stream. A recycle step records
/// the corner and the exact component and value consumed, so the proofs can
/// follow every element from input to output.
pub enum SpecStep<C, V> {
    Recycle { position: Position, component: C, value: V },
    Remove { component: C },
    AddRemaining { values: Seq<V> },
    RemoveRemaining { components: Seq<C> },
    Done,
}

/// Whether a step closes the stream.
pub open spec fn is_final<C, V>(step: SpecStep<C, V>) -> bool {
    match step {
        SpecStep::Recycle { .. } => false,
        SpecStep::Remove { .. } => false,
        SpecStep::AddRemaining { .. } => true,
        SpecStep::RemoveRemaining { .. } => true,
        SpecStep::Done => true,
    }
}

/// The whole instruction stream for the given sequences, final step
/// included. The branch order is the algorithm's priority policy: head-head
/// first, then — with at least two live entries on each side — tail-tail,
/// head-tail, tail-head, and a head removal when all four corners fail.
/// When the new sequence has a single live value left and it rejects the
/// old head, or the old sequence a single live component that rejects the
/// new head, the old head is removed and the scan restarts.
pub open spec fn steps<C: Reconcilable<V>, V>(components: Seq<C>, values: Seq<V>) -> Seq<
    SpecStep<C, V>,
>
    decreases components.len() + values.len(),
{
    if components.len() == 0 && values.len() == 0 {
        seq![SpecStep::Done]
    } else if components.len() == 0 {
        seq![SpecStep::AddRemaining { values }]
    } else if values.len() == 0 {
        seq![SpecStep::RemoveRemaining { components }]
    } else if components[0].compatible(values[0]) {
        seq![
            SpecStep::Recycle {
                position: Position { old: End::Head, new: End::Head },
                component: components[0],
                value: values[0],
            },
        ] + steps(components.drop_first(), values.drop_first())
    } else if values.len() == 1 || components.len() == 1 {
        seq![SpecStep::Remove { component: components[0] }] + steps(
            components.drop_first(),
            values,
        )
    } else if components.last().compatible(values.last()) {
        seq![
            SpecStep::Recycle {
                position: Position { old: End::Tail, new: End::Tail },
                component: components.last(),
                value: values.last(),
            },
        ] + steps(components.drop_last(), values.drop_last())
    } else if components[0].compatible(values.last()) {
        seq![
            SpecStep::Recycle {
                position: Position { old: End::Head, new: End::Tail },
                component: components[0],
                value: values.last(),
            },
        ] + steps(components.drop_first(), values.drop_last())
    } else if components.last().compatible(values[0]) {
        seq![
            SpecStep::Recycle {
                position: Position { old: End::Tail, new: End::Head },
                component: components.last(),
                value: values[0],
            },
        ] + steps(components.drop_last(), values.drop_first())
    } else {
        seq![SpecStep::Remove { component: components[0] }] + steps(
            components.drop_first(),
            values,
        )
    }
}

/// The executable instruction matching a non-final step.
pub open spec fn step_matches_instruction<C: Reconcilable<V>, V>(
    step: SpecStep<C, V>,
    instruction: ReconcileInstruction<C, C::Reconciled>,
) -> bool {
    match step {
        SpecStep::Recycle { position, component, value } => instruction
            == (ReconcileInstruction::<C, C::Reconciled>::RecycledItem {
            position,
            result: component.recycled(value),
        }),
        SpecStep::Remove { component } => instruction
            == (ReconcileInstruction::<C, C::Reconciled>::RemoveItem {
            end: End::Head,
            component,
        }),
        _ => false,
    }
}

/// The executable final instruction matching a final step.
pub open spec fn step_matches_finished<C: Reconcilable<V>, V>(
    step: SpecStep<C, V>,
    finished: Finished<C, V>,
) -> bool {
    match step {
        SpecStep::AddRemaining { values } => finished matches Finished::AddRemaining {
            values: rest,
        } && rest@ == values,
        SpecStep::RemoveRemaining { components } => finished
            matches Finished::RemoveRemainingComponents { components: rest } && rest@
            == components,
        SpecStep::Done => finished is Done,
        _ => false,
    }
}

/// One advance of the executable machine: the instruction just emitted and
/// the machine for the rest of the stream.
#[derive(Debug)]
pub struct NextResult<C, V, R> {
    pub item: ReconcileInstruction<C, R>,
    pub next: ReconcileIterator<C, V>,
}

/// The executable scan state: the two buffered double-ended cursors. Each
/// call of `next` advances the stream by exactly one instruction.
#[derive(Debug)]
pub struct ReconcileIterator<C, V> {
    pub components: ComponentManager<C>,
    pub values: ComponentManager<V>,
}

impl<C: Reconcilable<V>, V> ReconcileIterator<C, V> {
    /// The old-sequence components not yet consumed, in order.
    pub open spec fn old_remaining(self) -> Seq<C> {
        self.components.remaining()
    }

    /// The new-sequence values not yet consumed, in order.
    pub open spec fn new_remaining(self) -> Seq<V> {
        self.values.remaining()
    }

    pub open spec fn wf(self) -> bool {
        self.components.wf() && self.values.wf()
    }

    pub fn new(components: Vec<C>, values: Vec<V>) -> (r: ReconcileIterator<C, V>)
        ensures
            r.wf(),
            r.old_remaining() == components@,
            r.new_remaining() == values@,
    {
        ReconcileIterator {
            components: ComponentManager::new(components),
            values: ComponentManager::new(values),
        }
    }

    /// Advances the stream by one instruction: the head of `steps` on the
    /// remaining sequences comes out, and the machine left behind stands for
    /// exactly the rest of the stream.
    pub fn next(self) -> (r: Result<NextResult<C, V, C::Reconciled>, Finished<C, V>>)
        requires
            self.wf(),
        ensures
            ({
                let s = steps(self.old_remaining(), self.new_remaining());
                match r {
                    Ok(step) => step.next.wf() && step_matches_instruction(s[0], step.item)
                        && steps(step.next.old_remaining(), step.next.new_remaining())
                        == s.drop_first() && step.next.old_remaining().len()
                        + step.next.new_remaining().len() < self.old_remaining().len()
                        + self.new_remaining().len(),
                    Err(finished) => s.len() == 1 && step_matches_finished(s[0], finished),
                }
            }),
    {
        let ghost rc = self.old_remaining();
        let ghost rv = self.new_remaining();
        let ReconcileIterator { components, values } = self;
        match components.take_front() {
            Err(_components) => {
                // No component is left: the remaining values, if any, are
                // appended as they stand.
                let rest = values.into_remaining();
                if rest.len() == 0 {
                    Err(Finished::Done)
                } else {
                    Err(Finished::AddRemaining { values: rest })
                }
            },
            Ok((c_h, components)) => {
                match values.take_front() {
                    Err(_values) => {
                        // No value is left: every remaining component is
                        // removed, the one just taken included.
                        let components = components.store_front(c_h);
                        let rest = components.into_remaining();
                        proof {
                            assert(rest@ =~= rc);
                        }
                        Err(Finished::RemoveRemainingComponents { components: rest })
                    },
                    Ok((v_h, values)) => {
                        match c_h.reconcile(v_h) {
                            Ok(result) => {
                                // Head-head match: both heads are consumed.
                                proof {
                                    assert(steps(rc, rv).drop_first() =~= steps(
                                        components.remaining(),
                                        values.remaining(),
                                    ));
                                }
                                Ok(NextResult {
                                    item: ReconcileInstruction::RecycledItem {
                                        position: Position { old: End::Head, new: End::Head },
                                        result,
                                    },
                                    next: ReconcileIterator { components, values },
                                })
                            },
                            Err(unchanged) => {
                                let c_h = unchanged.source;
                                let v_h = unchanged.value;
                                Self::corners(c_h, v_h, components, values, Ghost(rc), Ghost(rv))
                            },
                        }
                    },
                }
            },
        }
    }

    /// The scan step after a head-head rejection: fetch the two tails and
    /// try the other three corners in priority order, or remove the old
    /// head when a tail is not to be had or no corner matches.
    fn corners(
        c_h: C,
        v_h: V,
        components: ComponentManager<C>,
        values: ComponentManager<V>,
        Ghost(rc): Ghost<Seq<C>>,
        Ghost(rv): Ghost<Seq<V>>,
    ) -> (r: Result<NextResult<C, V, C::Reconciled>, Finished<C, V>>)
        requires
            components.wf(),
            values.wf(),
            components.ends.head is None,
            values.ends.head is None,
            rc.len() > 0,
            rv.len() > 0,
            c_h == rc[0],
            v_h == rv[0],
            components.remaining() == rc.drop_first(),
            values.remaining() == rv.drop_first(),
            !rc[0].compatible(rv[0]),
        ensures
            ({
                let s = steps(rc, rv);
                match r {
                    Ok(step) => step.next.wf() && step_matches_instruction(s[0], step.item)
                        && steps(step.next.old_remaining(), step.next.new_remaining())
                        == s.drop_first() && step.next.old_remaining().len()
                        + step.next.new_remaining().len() < rc.len() + rv.len(),
                    Err(finished) => s.len() == 1 && step_matches_finished(s[0], finished),
                }
            }),
    {
        match values.take_back() {
            Err(values) => {
                // The rejected value was the last one: the old head has no
                // candidate left and is removed; the value is held back.
                let values = values.store_front(v_h);
                proof {
                    assert(values.remaining() =~= rv);
                    assert(steps(rc, rv).drop_first() =~= steps(rc.drop_first(), rv));
                }
                Ok(NextResult {
                    item: ReconcileInstruction::RemoveItem { end: End::Head, component: c_h },
                    next: ReconcileIterator { components, values },
                })
            },
            Ok((v_t, values)) => {
                proof {
                    assert(rv.len() >= 2);
                    assert(v_t == rv.last());
                    assert(values.remaining() =~= rv.drop_first().drop_last());
                }
                match components.take_back() {
                    Err(components) => {
                        // The rejected component was the last one: it is
                        // removed, and both fetched values are held back.
                        let values = values.store_back(v_t);
                        let values = values.store_front(v_h);
                        proof {
                            assert(values.remaining() =~= rv);
                            assert(steps(rc, rv).drop_first() =~= steps(rc.drop_first(), rv));
                        }
                        Ok(NextResult {
                            item: ReconcileInstruction::RemoveItem {
                                end: End::Head,
                                component: c_h,
                            },
                            next: ReconcileIterator { components, values },
                        })
                    },
                    Ok((c_t, components)) => {
                        proof {
                            assert(rc.len() >= 2);
                            assert(c_t == rc.last());
                            assert(components.remaining() =~= rc.drop_first().drop_last());
                        }
                        match c_t.reconcile(v_t) {
                            Ok(result) => {
                                // Tail-tail match: both heads are held back.
                                let components = components.store_front(c_h);
                                let values = values.store_front(v_h);
                                proof {
                                    assert(components.remaining() =~= rc.drop_last());
                                    assert(values.remaining() =~= rv.drop_last());
                                    assert(steps(rc, rv).drop_first() =~= steps(
                                        rc.drop_last(),
                                        rv.drop_last(),
                                    ));
                                }
                                Ok(NextResult {
                                    item: ReconcileInstruction::RecycledItem {
                                        position: Position { old: End::Tail, new: End::Tail },
                                        result,
                                    },
                                    next: ReconcileIterator { components, values },
                                })
                            },
                            Err(unchanged) => {
                                let c_t = unchanged.source;
                                let v_t = unchanged.value;
                                match c_h.reconcile(v_t) {
                                    Ok(result) => {
                                        // Head-tail match: the old tail and
                                        // the new head are held back.
                                        let components = components.store_back(c_t);
                                        let values = values.store_front(v_h);
                                        proof {
                                            assert(components.remaining() =~= rc.drop_first());
                                            assert(values.remaining() =~= rv.drop_last());
                                            assert(steps(rc, rv).drop_first() =~= steps(
                                                rc.drop_first(),
                                                rv.drop_last(),
                                            ));
                                        }
                                        Ok(NextResult {
                                            item: ReconcileInstruction::RecycledItem {
                                                position: Position {
                                                    old: End::Head,
                                                    new: End::Tail,
                                                },
                                                result,
                                            },
                                            next: ReconcileIterator { components, values },
                                        })
                                    },
                                    Err(unchanged) => {
                                        let c_h = unchanged.source;
                                        let v_t = unchanged.value;
                                        match c_t.reconcile(v_h) {
                                            Ok(result) => {
                                                // Tail-head match: the old
                                                // head and the new tail are
                                                // held back.
                                                let components = components.store_front(c_h);
                                                let values = values.store_back(v_t);
                                                proof {
                                                    assert(components.remaining()
                                                        =~= rc.drop_last());
                                                    assert(values.remaining()
                                                        =~= rv.drop_first());
                                                    assert(steps(rc, rv).drop_first() =~= steps(
                                                        rc.drop_last(),
                                                        rv.drop_first(),
                                                    ));
                                                }
                                                Ok(NextResult {
                                                    item: ReconcileInstruction::RecycledItem {
                                                        position: Position {
                                                            old: End::Tail,
                                                            new: End::Head,
                                                        },
                                                        result,
                                                    },
                                                    next: ReconcileIterator {
                                                        components,
                                                        values,
                                                    },
                                                })
                                            },
                                            Err(unchanged) => {
                                                // Every corner failed: the
                                                // old head is removed, and
                                                // everything else is held
                                                // back for the next round.
                                                let c_t = unchanged.source;
                                                let v_h = unchanged.value;
                                                let components = components.store_back(c_t);
                                                let values = values.store_back(v_t);
                                                let values = values.store_front(v_h);
                                                proof {
                                                    assert(components.remaining()
                                                        =~= rc.drop_first());
                                                    assert(values.remaining() =~= rv);
                                                    assert(steps(rc, rv).drop_first() =~= steps(
                                                        rc.drop_first(),
                                                        rv,
                                                    ));
                                                }
                                                Ok(NextResult {
                                                    item:
                                                        ReconcileInstruction::RemoveItem {
                                                        end: End::Head,
                                                        component: c_h,
                                                    },
                                                    next: ReconcileIterator {
                                                        components,
                                                        values,
                                                    },
                                                })
                                            },
                                        }
                                    },
                                }
                            },
                        }
                    },
                }
            },
        }
    }

    /// Drives the stream to its end: the non-final instructions in order,
    /// and the final one. The whole run matches `steps` exactly.
    #[verifier::loop_isolation(false)]
    pub fn run(self) -> (r: (Vec<ReconcileInstruction<C, C::Reconciled>>, Finished<C, V>))
        requires
            self.wf(),
        ensures
            ({
                let s = steps(self.old_remaining(), self.new_remaining());
                &&& r.0@.len() + 1 == s.len()
                &&& forall|i: int|
                    0 <= i < r.0@.len() ==> step_matches_instruction(s[i], #[trigger] r.0@[i])
                &&& step_matches_finished(s.last(), r.1)
            }),
    {
        let ghost s_all = steps(self.old_remaining(), self.new_remaining());
        let mut current = self;
        let mut out: Vec<ReconcileInstruction<C, C::Reconciled>> = Vec::new();
        proof {
            assert(s_all.subrange(0, s_all.len() as int) =~= s_all);
        }
        loop
            invariant
                current.wf(),
                out@.len() + steps(current.old_remaining(), current.new_remaining()).len()
                    == s_all.len(),
                steps(current.old_remaining(), current.new_remaining()) == s_all.subrange(
                    out@.len() as int,
                    s_all.len() as int,
                ),
                forall|i: int|
                    0 <= i < out@.len() ==> step_matches_instruction(s_all[i], #[trigger] out@[i]),
            decreases current.old_remaining().len() + current.new_remaining().len(),
        {
            let ghost s_cur = steps(current.old_remaining(), current.new_remaining());
            match current.next() {
                Ok(step) => {
                    proof {
                        assert(s_cur[0] == s_all[out@.len() as int]);
                        assert(s_cur.drop_first() =~= s_all.subrange(
                            out@.len() as int + 1,
                            s_all.len() as int,
                        ));
                    }
                    out.push(step.item);
                    current = step.next;
                },
                Err(finished) => {
                    proof {
                        assert(s_cur[0] == s_all.last());
                    }
                    return (out, finished);
                },
            }
        }
    }
}

} // verus!
