//! The laws of the instruction stream: every component and value is
//! consumed exactly once, the stream closes with exactly one final
//! instruction, un-recycled values keep their order, removed components are
//! exactly the ones never matched, the corner priority is fixed, and a
//! fully compatible pair of sequences diffs to plain head recycles.

use vstd::prelude::*;
use vstd::seq_lib::lemma_multiset_commutative;

use crate::reconcilable::Reconcilable;
use crate::reconcile::{is_final, steps, End, Position, SpecStep};

verus! {

/// The components consumed by recycle steps, in consumption order.
pub open spec fn recycled_components<C, V>(s: Seq<SpecStep<C, V>>) -> Seq<C>
    decreases s.len(),
{
    if s.len() == 0 {
        Seq::empty()
    } else {
        match s[0] {
            SpecStep::Recycle { component, .. } => seq![component] + recycled_components(
                s.drop_first(),
            ),
            _ => recycled_components(s.drop_first()),
        }
    }
}

/// The values consumed by recycle steps, in consumption order.
pub open spec fn recycled_values<C, V>(s: Seq<SpecStep<C, V>>) -> Seq<V>
    decreases s.len(),
{
    if s.len() == 0 {
        Seq::empty()
    } else {
        match s[0] {
            SpecStep::Recycle { value, .. } => seq![value] + recycled_values(s.drop_first()),
            _ => recycled_values(s.drop_first()),
        }
    }
}

/// The components the stream removes: every removed head, and the payload
/// of a closing remove-the-rest instruction.
pub open spec fn removed_components<C, V>(s: Seq<SpecStep<C, V>>) -> Seq<C>
    decreases s.len(),
{
    if s.len() == 0 {
        Seq::empty()
    } else {
        match s[0] {
            SpecStep::Remove { component } => seq![component] + removed_components(
                s.drop_first(),
            ),
            SpecStep::RemoveRemaining { components } => components + removed_components(
                s.drop_first(),
            ),
            _ => removed_components(s.drop_first()),
        }
    }
}

/// The values the stream appends unrecycled: the payload of a closing
/// add-the-rest instruction.
pub open spec fn added_values<C, V>(s: Seq<SpecStep<C, V>>) -> Seq<V>
    decreases s.len(),
{
    if s.len() == 0 {
        Seq::empty()
    } else {
        match s[0] {
            SpecStep::AddRemaining { values } => values + added_values(s.drop_first()),
            _ => added_values(s.drop_first()),
        }
    }
}

/// How many recycle steps consumed their value at the head of the new
/// sequence.
pub open spec fn count_new_head_recycles<C, V>(s: Seq<SpecStep<C, V>>) -> nat
    decreases s.len(),
{
    if s.len() == 0 {
        0
    } else {
        (match s[0] {
            SpecStep::Recycle { position, .. } => if position.new is Head {
                1nat
            } else {
                0nat
            },
            _ => 0nat,
        }) + count_new_head_recycles(s.drop_first())
    }
}

/// How many recycle steps consumed their value at the tail of the new
/// sequence.
pub open spec fn count_new_tail_recycles<C, V>(s: Seq<SpecStep<C, V>>) -> nat
    decreases s.len(),
{
    if s.len() == 0 {
        0
    } else {
        (match s[0] {
            SpecStep::Recycle { position, .. } => if position.new is Tail {
                1nat
            } else {
                0nat
            },
            _ => 0nat,
        }) + count_new_tail_recycles(s.drop_first())
    }
}

/// On an empty stream every one of the bookkeeping functions is empty.
proof fn lemma_measures_empty<C, V>()
    ensures
        recycled_components::<C, V>(Seq::empty()) == Seq::<C>::empty(),
        recycled_values::<C, V>(Seq::empty()) == Seq::<V>::empty(),
        removed_components::<C, V>(Seq::empty()) == Seq::<C>::empty(),
        added_values::<C, V>(Seq::empty()) == Seq::<V>::empty(),
        count_new_head_recycles::<C, V>(Seq::empty()) == 0,
        count_new_tail_recycles::<C, V>(Seq::empty()) == 0,
{
}

/// Totality: the stream always closes, with exactly one final instruction,
/// and consumes each sequence exactly once — the recycled and removed
/// components add up to the old sequence, the recycled and appended values
/// to the new one.
pub proof fn lemma_totality<C: Reconcilable<V>, V>(components: Seq<C>, values: Seq<V>)
    ensures
        ({
            let s = steps(components, values);
            &&& s.len() >= 1
            &&& is_final(s.last())
            &&& forall|i: int| 0 <= i < s.len() - 1 ==> !is_final(#[trigger] s[i])
            &&& recycled_components(s).len() + removed_components(s).len() == components.len()
            &&& recycled_values(s).len() + added_values(s).len() == values.len()
        }),
    decreases components.len() + values.len(),
{
    let s = steps(components, values);
    if components.len() == 0 && values.len() == 0 {
        assert(s =~= seq![SpecStep::<C, V>::Done]);
        assert(s.drop_first() =~= Seq::<SpecStep<C, V>>::empty());
        lemma_measures_empty::<C, V>();
    } else if components.len() == 0 {
        assert(s =~= seq![SpecStep::<C, V>::AddRemaining { values }]);
        assert(s.drop_first() =~= Seq::<SpecStep<C, V>>::empty());
        lemma_measures_empty::<C, V>();
        assert(added_values(s) =~= values);
    } else if values.len() == 0 {
        assert(s =~= seq![SpecStep::<C, V>::RemoveRemaining { components }]);
        assert(s.drop_first() =~= Seq::<SpecStep<C, V>>::empty());
        lemma_measures_empty::<C, V>();
        assert(removed_components(s) =~= components);
    } else {
        let x = s[0];
        let t = s.drop_first();
        if components[0].compatible(values[0]) {
            lemma_totality::<C, V>(components.drop_first(), values.drop_first());
            assert(t =~= steps(components.drop_first(), values.drop_first()));
            assert(recycled_components(s) =~= seq![components[0]] + recycled_components(t));
            assert(recycled_values(s) =~= seq![values[0]] + recycled_values(t));
        } else if values.len() == 1 || components.len() == 1 {
            lemma_totality::<C, V>(components.drop_first(), values);
            assert(t =~= steps(components.drop_first(), values));
            assert(removed_components(s) =~= seq![components[0]] + removed_components(t));
        } else if components.last().compatible(values.last()) {
            lemma_totality::<C, V>(components.drop_last(), values.drop_last());
            assert(t =~= steps(components.drop_last(), values.drop_last()));
            assert(recycled_components(s) =~= seq![components.last()] + recycled_components(t));
            assert(recycled_values(s) =~= seq![values.last()] + recycled_values(t));
        } else if components[0].compatible(values.last()) {
            lemma_totality::<C, V>(components.drop_first(), values.drop_last());
            assert(t =~= steps(components.drop_first(), values.drop_last()));
            assert(recycled_components(s) =~= seq![components[0]] + recycled_components(t));
            assert(recycled_values(s) =~= seq![values.last()] + recycled_values(t));
        } else if components.last().compatible(values[0]) {
            lemma_totality::<C, V>(components.drop_last(), values.drop_first());
            assert(t =~= steps(components.drop_last(), values.drop_first()));
            assert(recycled_components(s) =~= seq![components.last()] + recycled_components(t));
            assert(recycled_values(s) =~= seq![values[0]] + recycled_values(t));
        } else {
            lemma_totality::<C, V>(components.drop_first(), values);
            assert(t =~= steps(components.drop_first(), values));
            assert(removed_components(s) =~= seq![components[0]] + removed_components(t));
        }
        assert(s.last() == t.last());
        assert(forall|i: int| 1 <= i < s.len() - 1 ==> s[i] == t[i - 1]);
    }
}

/// Conservation: recycling and removal partition the old sequence exactly,
/// and recycling and appending partition the new one — so the removed
/// components are exactly the ones never matched, and the appended values
/// exactly the ones never recycled.
pub proof fn lemma_conservation<C: Reconcilable<V>, V>(components: Seq<C>, values: Seq<V>)
    ensures
        ({
            let s = steps(components, values);
            &&& components.to_multiset() == recycled_components(s).to_multiset().add(
                removed_components(s).to_multiset(),
            )
            &&& values.to_multiset() == recycled_values(s).to_multiset().add(
                added_values(s).to_multiset(),
            )
        }),
    decreases components.len() + values.len(),
{
    broadcast use vstd::seq_lib::group_to_multiset_ensures;

    let s = steps(components, values);
    if components.len() == 0 && values.len() == 0 {
        assert(s.drop_first() =~= Seq::<SpecStep<C, V>>::empty());
        lemma_measures_empty::<C, V>();
        assert(components.to_multiset() =~= recycled_components(s).to_multiset().add(
            removed_components(s).to_multiset(),
        ));
        assert(values.to_multiset() =~= recycled_values(s).to_multiset().add(
            added_values(s).to_multiset(),
        ));
    } else if components.len() == 0 {
        assert(s.drop_first() =~= Seq::<SpecStep<C, V>>::empty());
        lemma_measures_empty::<C, V>();
        assert(added_values(s) =~= values);
        assert(components.to_multiset() =~= recycled_components(s).to_multiset().add(
            removed_components(s).to_multiset(),
        ));
        assert(values.to_multiset() =~= recycled_values(s).to_multiset().add(
            added_values(s).to_multiset(),
        ));
    } else if values.len() == 0 {
        assert(s.drop_first() =~= Seq::<SpecStep<C, V>>::empty());
        lemma_measures_empty::<C, V>();
        assert(removed_components(s) =~= components);
        assert(components.to_multiset() =~= recycled_components(s).to_multiset().add(
            removed_components(s).to_multiset(),
        ));
        assert(values.to_multiset() =~= recycled_values(s).to_multiset().add(
            added_values(s).to_multiset(),
        ));
    } else {
        let t = s.drop_first();
        if components[0].compatible(values[0]) {
            lemma_conservation::<C, V>(components.drop_first(), values.drop_first());
            assert(t =~= steps(components.drop_first(), values.drop_first()));
            lemma_split_first_multiset(components);
            lemma_split_first_multiset(values);
            assert(recycled_components(s) =~= seq![components[0]] + recycled_components(t));
            lemma_multiset_commutative(seq![components[0]], recycled_components(t));
            assert(recycled_values(s) =~= seq![values[0]] + recycled_values(t));
            lemma_multiset_commutative(seq![values[0]], recycled_values(t));
            assert(components.to_multiset() =~= recycled_components(s).to_multiset().add(
                removed_components(s).to_multiset(),
            ));
            assert(values.to_multiset() =~= recycled_values(s).to_multiset().add(
                added_values(s).to_multiset(),
            ));
        } else if values.len() == 1 || components.len() == 1 {
            lemma_conservation::<C, V>(components.drop_first(), values);
            assert(t =~= steps(components.drop_first(), values));
            lemma_split_first_multiset(components);
            assert(removed_components(s) =~= seq![components[0]] + removed_components(t));
            lemma_multiset_commutative(seq![components[0]], removed_components(t));
            assert(components.to_multiset() =~= recycled_components(s).to_multiset().add(
                removed_components(s).to_multiset(),
            ));
        } else if components.last().compatible(values.last()) {
            lemma_conservation::<C, V>(components.drop_last(), values.drop_last());
            assert(t =~= steps(components.drop_last(), values.drop_last()));
            lemma_split_last_multiset(components);
            lemma_split_last_multiset(values);
            assert(recycled_components(s) =~= seq![components.last()] + recycled_components(t));
            lemma_multiset_commutative(seq![components.last()], recycled_components(t));
            assert(recycled_values(s) =~= seq![values.last()] + recycled_values(t));
            lemma_multiset_commutative(seq![values.last()], recycled_values(t));
            assert(components.to_multiset() =~= recycled_components(s).to_multiset().add(
                removed_components(s).to_multiset(),
            ));
            assert(values.to_multiset() =~= recycled_values(s).to_multiset().add(
                added_values(s).to_multiset(),
            ));
        } else if components[0].compatible(values.last()) {
            lemma_conservation::<C, V>(components.drop_first(), values.drop_last());
            assert(t =~= steps(components.drop_first(), values.drop_last()));
            lemma_split_first_multiset(components);
            lemma_split_last_multiset(values);
            assert(recycled_components(s) =~= seq![components[0]] + recycled_components(t));
            lemma_multiset_commutative(seq![components[0]], recycled_components(t));
            assert(recycled_values(s) =~= seq![values.last()] + recycled_values(t));
            lemma_multiset_commutative(seq![values.last()], recycled_values(t));
            assert(components.to_multiset() =~= recycled_components(s).to_multiset().add(
                removed_components(s).to_multiset(),
            ));
            assert(values.to_multiset() =~= recycled_values(s).to_multiset().add(
                added_values(s).to_multiset(),
            ));
        } else if components.last().compatible(values[0]) {
            lemma_conservation::<C, V>(components.drop_last(), values.drop_first());
            assert(t =~= steps(components.drop_last(), values.drop_first()));
            lemma_split_last_multiset(components);
            lemma_split_first_multiset(values);
            assert(recycled_components(s) =~= seq![components.last()] + recycled_components(t));
            lemma_multiset_commutative(seq![components.last()], recycled_components(t));
            assert(recycled_values(s) =~= seq![values[0]] + recycled_values(t));
            lemma_multiset_commutative(seq![values[0]], recycled_values(t));
            assert(components.to_multiset() =~= recycled_components(s).to_multiset().add(
                removed_components(s).to_multiset(),
            ));
            assert(values.to_multiset() =~= recycled_values(s).to_multiset().add(
                added_values(s).to_multiset(),
            ));
        } else {
            lemma_conservation::<C, V>(components.drop_first(), values);
            assert(t =~= steps(components.drop_first(), values));
            lemma_split_first_multiset(components);
            assert(removed_components(s) =~= seq![components[0]] + removed_components(t));
            lemma_multiset_commutative(seq![components[0]], removed_components(t));
            assert(components.to_multiset() =~= recycled_components(s).to_multiset().add(
                removed_components(s).to_multiset(),
            ));
        }
    }
}

/// A non-empty sequence is its first element before the rest, as multisets.
proof fn lemma_split_first_multiset<A>(s: Seq<A>)
    requires
        s.len() > 0,
    ensures
        s.to_multiset() == seq![s[0]].to_multiset().add(s.drop_first().to_multiset()),
{
    assert(s =~= seq![s[0]] + s.drop_first());
    lemma_multiset_commutative(seq![s[0]], s.drop_first());
}

/// A non-empty sequence is the rest before its last element, as multisets.
proof fn lemma_split_last_multiset<A>(s: Seq<A>)
    requires
        s.len() > 0,
    ensures
        s.to_multiset() == seq![s.last()].to_multiset().add(s.drop_last().to_multiset()),
{
    assert(s =~= s.drop_last() + seq![s.last()]);
    lemma_multiset_commutative(s.drop_last(), seq![s.last()]);
    lemma_multiset_commutative(seq![s.last()], s.drop_last());
    assert((s.drop_last() + seq![s.last()]).to_multiset() =~= (seq![s.last()]
        + s.drop_last()).to_multiset());
}

/// Order preservation: the values recycled at the new sequence's head and
/// tail are counted off its two ends, and the un-recycled values come out
/// as one contiguous stretch of the new sequence, in input order.
pub proof fn lemma_order_preservation<C: Reconcilable<V>, V>(components: Seq<C>, values: Seq<V>)
    ensures
        ({
            let s = steps(components, values);
            let h = count_new_head_recycles(s) as int;
            let t = count_new_tail_recycles(s) as int;
            &&& h + t + added_values(s).len() == values.len()
            &&& added_values(s) == values.subrange(h, values.len() - t)
        }),
    decreases components.len() + values.len(),
{
    let s = steps(components, values);
    if components.len() == 0 && values.len() == 0 {
        assert(s.drop_first() =~= Seq::<SpecStep<C, V>>::empty());
        lemma_measures_empty::<C, V>();
        assert(added_values(s) =~= values.subrange(0, 0));
    } else if components.len() == 0 {
        assert(s.drop_first() =~= Seq::<SpecStep<C, V>>::empty());
        lemma_measures_empty::<C, V>();
        assert(added_values(s) =~= values.subrange(0, values.len() as int));
    } else if values.len() == 0 {
        assert(s.drop_first() =~= Seq::<SpecStep<C, V>>::empty());
        lemma_measures_empty::<C, V>();
        assert(added_values(s) =~= values.subrange(0, 0));
    } else {
        let t = s.drop_first();
        if components[0].compatible(values[0]) {
            lemma_order_preservation::<C, V>(components.drop_first(), values.drop_first());
            assert(t =~= steps(components.drop_first(), values.drop_first()));
            let h1 = count_new_head_recycles(t) as int;
            let t1 = count_new_tail_recycles(t) as int;
            assert(added_values(s) == added_values(t));
            assert(values.drop_first().subrange(h1, values.drop_first().len() - t1)
                =~= values.subrange(h1 + 1, values.len() - t1));
        } else if values.len() == 1 || components.len() == 1 {
            lemma_order_preservation::<C, V>(components.drop_first(), values);
            assert(t =~= steps(components.drop_first(), values));
        } else if components.last().compatible(values.last()) {
            lemma_order_preservation::<C, V>(components.drop_last(), values.drop_last());
            assert(t =~= steps(components.drop_last(), values.drop_last()));
            let h1 = count_new_head_recycles(t) as int;
            let t1 = count_new_tail_recycles(t) as int;
            assert(added_values(s) == added_values(t));
            assert(values.drop_last().subrange(h1, values.drop_last().len() - t1)
                =~= values.subrange(h1, values.len() - (t1 + 1)));
        } else if components[0].compatible(values.last()) {
            lemma_order_preservation::<C, V>(components.drop_first(), values.drop_last());
            assert(t =~= steps(components.drop_first(), values.drop_last()));
            let h1 = count_new_head_recycles(t) as int;
            let t1 = count_new_tail_recycles(t) as int;
            assert(added_values(s) == added_values(t));
            assert(values.drop_last().subrange(h1, values.drop_last().len() - t1)
                =~= values.subrange(h1, values.len() - (t1 + 1)));
        } else if components.last().compatible(values[0]) {
            lemma_order_preservation::<C, V>(components.drop_last(), values.drop_first());
            assert(t =~= steps(components.drop_last(), values.drop_first()));
            let h1 = count_new_head_recycles(t) as int;
            let t1 = count_new_tail_recycles(t) as int;
            assert(added_values(s) == added_values(t));
            assert(values.drop_first().subrange(h1, values.drop_first().len() - t1)
                =~= values.subrange(h1 + 1, values.len() - t1));
        } else {
            lemma_order_preservation::<C, V>(components.drop_first(), values);
            assert(t =~= steps(components.drop_first(), values));
        }
    }
}

/// Priority determinism, part one: whenever the head-head corner fails but
/// the tail-tail corner would match, the tail-tail pairing is the one
/// chosen — whatever the other corners would have done.
pub proof fn lemma_priority_tail_tail<C: Reconcilable<V>, V>(components: Seq<C>, values: Seq<V>)
    requires
        components.len() >= 2,
        values.len() >= 2,
        !components[0].compatible(values[0]),
        components.last().compatible(values.last()),
    ensures
        steps(components, values)[0] == (SpecStep::Recycle {
            position: Position { old: End::Tail, new: End::Tail },
            component: components.last(),
            value: values.last(),
        }),
{
}

/// Priority determinism, part two: when head-head and tail-tail both fail
/// but the old head would match the new tail, the head-tail pairing wins
/// over tail-head.
pub proof fn lemma_priority_head_tail<C: Reconcilable<V>, V>(components: Seq<C>, values: Seq<V>)
    requires
        components.len() >= 2,
        values.len() >= 2,
        !components[0].compatible(values[0]),
        !components.last().compatible(values.last()),
        components[0].compatible(values.last()),
    ensures
        steps(components, values)[0] == (SpecStep::Recycle {
            position: Position { old: End::Head, new: End::Tail },
            component: components[0],
            value: values.last(),
        }),
{
}

/// A no-op diff: when every value is compatible with the component in its
/// own position, the stream is one head-head recycle per position, in
/// order, closed by a plain end — nothing is removed or appended.
pub proof fn lemma_noop_diff<C: Reconcilable<V>, V>(components: Seq<C>, values: Seq<V>)
    requires
        components.len() == values.len(),
        forall|i: int|
            0 <= i < components.len() ==> #[trigger] components[i].compatible(values[i]),
    ensures
        ({
            let s = steps(components, values);
            &&& s.len() == components.len() + 1
            &&& forall|i: int|
                0 <= i < components.len() ==> #[trigger] s[i] == (SpecStep::Recycle {
                    position: Position { old: End::Head, new: End::Head },
                    component: components[i],
                    value: values[i],
                })
            &&& s.last() == SpecStep::<C, V>::Done
        }),
    decreases components.len(),
{
    let s = steps(components, values);
    if components.len() == 0 {
    } else {
        assert(components[0].compatible(values[0]));
        lemma_noop_diff::<C, V>(components.drop_first(), values.drop_first());
        let t = steps(components.drop_first(), values.drop_first());
        assert(s.drop_first() =~= t);
        assert(forall|i: int|
            1 <= i < components.len() ==> s[i] == t[i - 1] && components.drop_first()[i - 1]
                == components[i] && values.drop_first()[i - 1] == values[i]);
    }
}

} // verus!
