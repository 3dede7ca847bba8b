use reconcile_array::iterator_manager::{IteratorManager, Repopulatable};
use reconcile_array::reconcile::End;

#[test]
fn to_be_named() {
    let manager = IteratorManager::new(vec![1, 2, 3]);

    let head_result = manager.repopulate(End::Head).unwrap();
    assert_eq!(head_result.value, 1);

    let tail_result = head_result.manager.repopulate(End::Tail).unwrap();
    assert_eq!(tail_result.value, 3);

    let last_result = tail_result.manager.repopulate(End::Head).unwrap();
    assert_eq!(last_result.value, 2);

    last_result.manager.repopulate(End::Head).unwrap_err();
}
