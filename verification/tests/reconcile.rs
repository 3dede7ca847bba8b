use reconcile_array::reconcile::{
    End, Finished, Position, ReconcileInstruction, ReconcileIterator,
};

/// Folds an instruction stream into the positional output array, tracking a
/// write head and a write tail as the collaborator contract asks.
fn fold_stream(
    components: Vec<i32>,
    values: Vec<i32>,
) -> (Vec<ReconcileInstruction<i32, i32>>, Finished<i32, i32>, Vec<i32>) {
    let slots = values.len();
    let iterator = ReconcileIterator::new(components, values);
    let (instructions, finished) = iterator.run();

    let mut reconciled = vec![0; slots];
    let mut head = 0;
    let mut tail = slots.wrapping_sub(1);
    for instruction in &instructions {
        if let ReconcileInstruction::RecycledItem { position, result } = instruction {
            if position.new == End::Head {
                reconciled[head] = *result;
                head += 1;
            } else {
                reconciled[tail] = *result;
                tail = tail.wrapping_sub(1);
            }
        }
    }
    if let Finished::AddRemaining { values: rest } = &finished {
        for value in rest {
            reconciled[head] = *value;
            head += 1;
        }
    }
    (instructions, finished, reconciled)
}

#[test]
fn it_works() {
    let components = vec![1, 2, 3, 4];
    let values = vec![1, 3, 2, 5, 4];

    let (_instructions, _finished, reconciled) = fold_stream(components, values);

    assert_eq!(reconciled, vec![2, 6, 4, 5, 8]);
}

#[test]
fn empty_old_adds_all_values() {
    let iterator = ReconcileIterator::new(Vec::<i32>::new(), vec![10, 20]);
    let (instructions, finished) = iterator.run();
    assert!(instructions.is_empty());
    assert_eq!(finished, Finished::AddRemaining { values: vec![10, 20] });
}

#[test]
fn empty_new_removes_all_components() {
    let iterator = ReconcileIterator::new(vec![10, 20], Vec::<i32>::new());
    let (instructions, finished) = iterator.run();
    assert!(instructions.is_empty());
    assert_eq!(
        finished,
        Finished::RemoveRemainingComponents { components: vec![10, 20] }
    );
}

#[test]
fn both_empty_is_done_immediately() {
    let iterator = ReconcileIterator::new(Vec::<i32>::new(), Vec::<i32>::new());
    let (instructions, finished) = iterator.run();
    assert!(instructions.is_empty());
    assert_eq!(finished, Finished::Done);
}

#[test]
fn noop_diff_recycles_every_position_at_the_head() {
    let iterator = ReconcileIterator::new(vec![1, 2, 3], vec![1, 2, 3]);
    let (instructions, finished) = iterator.run();
    assert_eq!(
        instructions,
        vec![
            ReconcileInstruction::RecycledItem {
                position: Position { old: End::Head, new: End::Head },
                result: 2,
            },
            ReconcileInstruction::RecycledItem {
                position: Position { old: End::Head, new: End::Head },
                result: 4,
            },
            ReconcileInstruction::RecycledItem {
                position: Position { old: End::Head, new: End::Head },
                result: 6,
            },
        ]
    );
    assert_eq!(finished, Finished::Done);
}

#[test]
fn tail_tail_wins_over_head_tail() {
    // The old head would also match the new tail, but tail-tail is tried
    // first.
    let iterator = ReconcileIterator::new(vec![2, 2], vec![3, 2]);
    let (instructions, _finished) = iterator.run();
    assert_eq!(
        instructions[0],
        ReconcileInstruction::RecycledItem {
            position: Position { old: End::Tail, new: End::Tail },
            result: 4,
        }
    );
}

#[test]
fn head_tail_wins_over_tail_head() {
    // Both cross pairings match; the old head moving to the new tail is
    // tried first.
    let iterator = ReconcileIterator::new(vec![1, 2], vec![2, 1]);
    let (instructions, _finished) = iterator.run();
    assert_eq!(
        instructions[0],
        ReconcileInstruction::RecycledItem {
            position: Position { old: End::Head, new: End::Tail },
            result: 2,
        }
    );
}

#[test]
fn unmatched_head_is_removed_before_adding_the_rest() {
    let iterator = ReconcileIterator::new(vec![1], vec![2, 3]);
    let (instructions, finished) = iterator.run();
    assert_eq!(
        instructions,
        vec![ReconcileInstruction::RemoveItem { end: End::Head, component: 1 }]
    );
    assert_eq!(finished, Finished::AddRemaining { values: vec![2, 3] });
}

#[test]
fn single_value_tries_each_old_head_in_turn() {
    let iterator = ReconcileIterator::new(vec![1, 2, 9], vec![9]);
    let (instructions, finished) = iterator.run();
    assert_eq!(
        instructions,
        vec![
            ReconcileInstruction::RemoveItem { end: End::Head, component: 1 },
            ReconcileInstruction::RemoveItem { end: End::Head, component: 2 },
            ReconcileInstruction::RecycledItem {
                position: Position { old: End::Head, new: End::Head },
                result: 18,
            },
        ]
    );
    assert_eq!(finished, Finished::Done);
}

#[test]
fn every_input_is_consumed_exactly_once() {
    let iterator = ReconcileIterator::new(vec![1, 2, 3, 4], vec![1, 3, 2, 5, 4]);
    let (instructions, finished) = iterator.run();

    let recycles = instructions
        .iter()
        .filter(|i| matches!(i, ReconcileInstruction::RecycledItem { .. }))
        .count();
    let removes = instructions.len() - recycles;
    let added = match &finished {
        Finished::AddRemaining { values } => values.len(),
        _ => 0,
    };
    let removed_rest = match &finished {
        Finished::RemoveRemainingComponents { components } => components.len(),
        _ => 0,
    };

    assert_eq!(recycles + removes + removed_rest, 4);
    assert_eq!(recycles + added, 5);
}

#[test]
fn removed_components_are_exactly_the_unmatched_ones() {
    let iterator = ReconcileIterator::new(vec![1, 9, 2], vec![1, 2]);
    let (instructions, finished) = iterator.run();
    assert_eq!(
        instructions,
        vec![
            ReconcileInstruction::RecycledItem {
                position: Position { old: End::Head, new: End::Head },
                result: 2,
            },
            ReconcileInstruction::RemoveItem { end: End::Head, component: 9 },
            ReconcileInstruction::RecycledItem {
                position: Position { old: End::Head, new: End::Head },
                result: 4,
            },
        ]
    );
    assert_eq!(finished, Finished::Done);
}

#[test]
fn reversal_recycles_from_both_ends() {
    let (instructions, finished, reconciled) = fold_stream(vec![1, 2, 3], vec![3, 2, 1]);
    assert_eq!(instructions.len(), 3);
    assert_eq!(finished, Finished::Done);
    assert_eq!(reconciled, vec![6, 4, 2]);
}
