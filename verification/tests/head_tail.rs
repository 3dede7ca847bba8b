use reconcile_array::head_tail::{Head, HeadTail, Nothing, Tail};
use reconcile_array::operators::{MergeTrait, SplitTrait};
use reconcile_array::reconcilable::{AlwaysReconcileValue, Reconcilable};

fn expect_head_tail_strings(head_tail: HeadTail<&str, &str>) {
    assert_eq!(head_tail.head, "head");
    assert_eq!(head_tail.tail, "tail");
}

#[test]
fn new() {
    expect_head_tail_strings(HeadTail::new("head", "tail"));
}

#[test]
fn merge_head() {
    expect_head_tail_strings(HeadTail::head("head").merge(Tail("tail")));
}

#[test]
fn merge_tail() {
    expect_head_tail_strings(HeadTail::tail("tail").merge(Head("head")));
}

#[test]
fn merge_head_none() {
    assert_eq!(
        HeadTail::tail("tail")
            .merge_option(None::<Head<&'_ str>>)
            .unwrap_err(),
        HeadTail::tail("tail")
    );
}

#[test]
fn merge_head_some() {
    expect_head_tail_strings(
        HeadTail::tail("tail")
            .merge_option(Some(Head("head")))
            .unwrap(),
    );
}

#[test]
fn merge_tail_none() {
    assert_eq!(
        HeadTail::head("head")
            .merge_option(None::<Tail<&'_ str>>)
            .unwrap_err(),
        HeadTail::head("head")
    );
}

#[test]
fn merge_tail_some() {
    expect_head_tail_strings(
        HeadTail::head("head")
            .merge_option(Some(Tail("tail")))
            .unwrap(),
    );
}

#[test]
fn split_head() {
    let (tail_only, Head(head)) = HeadTail::new("split", "tail").split();
    assert_eq!(head, "split");
    assert_eq!(tail_only, HeadTail::tail("tail"));
}

#[test]
fn split_tail() {
    let (head_only, Tail(split_tail)) = HeadTail::new("head", "split").split();
    assert_eq!(split_tail, "split");
    assert_eq!(head_only, HeadTail::head("head"));
}

#[test]
fn reconcile_head() {
    let reconciled = HeadTail::new(AlwaysReconcileValue::<u32>::new(), Nothing)
        .reconcile(Head(1))
        .unwrap();
    assert_eq!(reconciled, HeadTail::head(1));
}
