use reconcile_array::head_tail::{Head, Tail, Unwrapper, Wrapper};
use reconcile_array::operators::SplitTrait;
use reconcile_array::reconcilable::{
    AlwaysReconcileValue, AlwaysUnreconcileValue, Nothing, Reconcilable, Source, Unchanged, Value,
};

#[test]
fn rejection_hands_both_inputs_back() {
    // A failed pairing must leave no trace: the rejected pair is
    // structurally the original component and value.
    let rejected = 5.reconcile(7).unwrap_err();
    assert_eq!(rejected, Unchanged::new(5, 7));

    let rejected = AlwaysUnreconcileValue::<u32>::new().reconcile(9).unwrap_err();
    assert_eq!(
        rejected,
        Unchanged::new(AlwaysUnreconcileValue::<u32>::new(), 9)
    );
}

#[test]
fn equal_integers_recycle_to_their_sum() {
    assert_eq!(4.reconcile(4).unwrap(), 8);
    assert_eq!(0.reconcile(0).unwrap(), 0);
    assert_eq!((-3).reconcile(-3).unwrap(), -6);
}

#[test]
fn always_reconcile_yields_the_value() {
    assert_eq!(AlwaysReconcileValue::<u32>::new().reconcile(42).unwrap(), 42);
}

#[test]
fn unchanged_constructors_fill_the_slots() {
    let pair = Unchanged::new("source", "value");
    assert_eq!(pair.source, "source");
    assert_eq!(pair.value, "value");

    let source_only = Unchanged::source("source");
    assert_eq!(source_only.source, "source");
    assert_eq!(source_only.value, Nothing);

    let value_only = Unchanged::value("value");
    assert_eq!(value_only.source, Nothing);
    assert_eq!(value_only.value, "value");
}

#[test]
fn unchanged_splits_into_tagged_halves() {
    let (rest, Value(value)) = Unchanged::new("source", "value").split();
    assert_eq!(value, "value");
    assert_eq!(rest, Unchanged::new("source", Nothing));

    let (rest, Source(source)) = Unchanged::new("source", "value").split();
    assert_eq!(source, "source");
    assert_eq!(rest, Unchanged::new(Nothing, "value"));
}

#[test]
fn end_markers_wrap_and_unwrap() {
    assert_eq!(Head::<()>::wrap(3), Head(3));
    assert_eq!(Tail::<()>::wrap(3), Tail(3));
    assert_eq!(Head(5).unwrap(), 5);
    assert_eq!(Tail(5).unwrap(), 5);
}
