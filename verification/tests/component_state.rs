use reconcile_array::component_state::ComponentState;
use reconcile_array::head_tail::{Head, HeadTail};
use reconcile_array::operators::SplitTrait;
use reconcile_array::reconcilable::{
    AlwaysReconcileValue, AlwaysUnreconcileValue, Nothing, Unchanged,
};

#[test]
fn skip_smoke_test() {
    ComponentState::component(Nothing)
        .skip_vt()
        .skip_vh()
        .allow_vt()
        .allow_vh()
        .skip_vt()
        .skip_vh();
}

#[test]
fn reconcile_vh_success() {
    let expected_value = 1;
    let (data, _state) = ComponentState::component(AlwaysReconcileValue::<u32>::new())
        .recycle_vh(expected_value)
        .unwrap();
    assert_eq!(data, expected_value);
}

#[test]
fn reconcile_vh_error() {
    let expected_value = 1;
    let original = AlwaysUnreconcileValue::<u32>::new();
    assert_eq!(
        ComponentState::component(original)
            .recycle_vh(expected_value)
            .unwrap_err()
            .split_value(),
        Unchanged::new(AlwaysUnreconcileValue::<u32>::new(), expected_value)
    )
}

#[test]
fn reconcile_vt_success() {
    let expected_value = 1;
    let (data, _state) = ComponentState::component(AlwaysReconcileValue::<u32>::new())
        .recycle_vt(expected_value)
        .unwrap();
    assert_eq!(data, expected_value)
}

#[test]
fn reconcile_vt_error() {
    let expected_value = 1;
    assert_eq!(
        ComponentState::component(AlwaysUnreconcileValue::<u32>::new())
            .recycle_vt(expected_value)
            .unwrap_err()
            .split_value(),
        Unchanged::new(AlwaysUnreconcileValue::<u32>::new(), expected_value)
    )
}

#[test]
fn reconcile_chvh() {
    let expected_value = 3;
    let components = HeadTail::new(
        ComponentState::component(AlwaysReconcileValue::<i32>::new()),
        ComponentState::component(Nothing),
    );

    let (_rest, Head(head_state)) = components.split();
    let (data, _state) = head_state.recycle_vh(expected_value).unwrap();

    assert_eq!(data, expected_value);
}

#[test]
fn skip_flags_follow_failed_ends() {
    let state = ComponentState::component(AlwaysUnreconcileValue::<u32>::new());
    let state = state.recycle_vh(5).unwrap_err();
    assert!(state.skip.head);
    assert!(!state.skip.tail);

    let state = ComponentState::component(AlwaysUnreconcileValue::<u32>::new());
    let state = state.recycle_vt(5).unwrap_err();
    assert!(!state.skip.head);
    assert!(state.skip.tail);
}
