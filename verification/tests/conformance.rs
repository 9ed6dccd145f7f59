use typed_tuple::{
    generate_typed_tuple_impls, TupleIndex0, TupleIndex1, TupleIndex2, TupleIndex3, TypedTuple,
};

fn picked(values: &[usize], positions: &[usize]) -> Vec<usize> {
    positions.iter().map(|position| values[*position]).collect()
}

#[test]
fn pop_moves_the_elements_that_the_artifact_lists() {
    let family = generate_typed_tuple_impls(4);
    let values = [10usize, 11, 12, 13];
    let tuple = (10usize, 11usize, 12usize, 13usize);

    let (popped, rest) = TypedTuple::<TupleIndex0, usize>::pop(tuple);
    let artifact = family.find(4, 0).unwrap();
    assert_eq!(popped, values[artifact.index]);
    assert_eq!(vec![rest.0, rest.1, rest.2], picked(&values, &artifact.pop_output));

    let (popped, rest) = TypedTuple::<TupleIndex1, usize>::pop(tuple);
    let artifact = family.find(4, 1).unwrap();
    assert_eq!(popped, values[artifact.index]);
    assert_eq!(vec![rest.0, rest.1, rest.2], picked(&values, &artifact.pop_output));

    let (popped, rest) = TypedTuple::<TupleIndex2, usize>::pop(tuple);
    let artifact = family.find(4, 2).unwrap();
    assert_eq!(popped, values[artifact.index]);
    assert_eq!(vec![rest.0, rest.1, rest.2], picked(&values, &artifact.pop_output));

    let (popped, rest) = TypedTuple::<TupleIndex3, usize>::pop(tuple);
    let artifact = family.find(4, 3).unwrap();
    assert_eq!(popped, values[artifact.index]);
    assert_eq!(vec![rest.0, rest.1, rest.2], picked(&values, &artifact.pop_output));
}

#[test]
fn split_at_moves_the_elements_that_the_artifact_lists() {
    let family = generate_typed_tuple_impls(3);
    let values = [7usize, 8, 9];
    let tuple = (7usize, 8usize, 9usize);

    let (left, right) = TypedTuple::<TupleIndex0, usize>::split_at(tuple);
    let artifact = family.find(3, 0).unwrap();
    assert_eq!(vec![left.0], picked(&values, &artifact.split_left));
    assert_eq!(vec![right.0, right.1], picked(&values, &artifact.split_right));

    let (left, right) = TypedTuple::<TupleIndex1, usize>::split_at(tuple);
    let artifact = family.find(3, 1).unwrap();
    assert_eq!(vec![left.0, left.1], picked(&values, &artifact.split_left));
    assert_eq!(vec![right.0], picked(&values, &artifact.split_right));

    let (left, right) = TypedTuple::<TupleIndex2, usize>::split_at(tuple);
    let artifact = family.find(3, 2).unwrap();
    assert_eq!(vec![left.0, left.1, left.2], picked(&values, &artifact.split_left));
    assert_eq!(right, ());
    assert!(artifact.split_right.is_empty());
}

#[test]
fn index_constant_agrees_with_the_artifact() {
    let family = generate_typed_tuple_impls(3);
    let artifact = family.find(3, 2).unwrap();
    assert_eq!(<(u8, u8, u8) as TypedTuple<TupleIndex2, u8>>::INDEX, artifact.index);
}
