use reconcile_array::component_manager::ComponentManager;
use reconcile_array::reconcilable::{AlwaysReconcileValue, Reconcilable};

#[test]
fn todo_reconcile_h() {
    let manager = ComponentManager::new(vec![AlwaysReconcileValue::<i32>::new()]);

    let (component, _manager) = manager.take_front().unwrap();
    let val = component.reconcile(4).unwrap();

    assert_eq!(val, 4);
}

#[test]
fn todo_reconcile_t() {
    let manager = ComponentManager::new(vec![AlwaysReconcileValue::<i32>::new()]);

    let (component, _manager) = manager.take_front().unwrap();
    let val = component.reconcile(4).unwrap();

    assert_eq!(val, 4);
}

#[test]
fn repopulate_success() {
    let manager = ComponentManager::new(vec![1, 2, 3]);

    let (tail_value, manager) = manager.take_back().unwrap();
    assert_eq!(tail_value, 3);

    let (head_value, _manager) = manager.take_front().unwrap();
    assert_eq!(head_value, 1);
}

#[test]
fn repopulate_t_error_when_empty() {
    let manager = ComponentManager::new(Vec::<AlwaysReconcileValue<i32>>::new());

    manager.take_back().unwrap_err();
}

#[test]
fn repopulate_h_error_when_empty() {
    let manager = ComponentManager::new(Vec::<AlwaysReconcileValue<i32>>::new());

    manager.take_front().unwrap_err();
}
