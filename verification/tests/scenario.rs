use typed_tuple::{TupleIndex0, TupleIndex1, TupleIndex2, TypedTuple};

#[test]
fn reads_the_number_as_the_third_field() {
    let tuple = ("a", 'b', 2usize);
    let by_type: &usize = tuple.get();
    assert_eq!(*by_type, 2);
    assert_eq!(*TypedTuple::<TupleIndex2, _>::get(&tuple), 2usize);
}

#[test]
fn writing_a_character_changes_only_that_field() {
    let mut tuple = ("a", 'b', 2usize);
    *TypedTuple::<TupleIndex1, _>::get_mut(&mut tuple) = 'z';
    assert_eq!(tuple, ("a", 'z', 2usize));
}

#[test]
fn pop_at_the_front_returns_text_and_remainder() {
    let tuple = ("a", 'b', 2usize);
    let (text, rest) = TypedTuple::<TupleIndex0, _>::pop(tuple);
    assert_eq!(text, "a");
    assert_eq!(rest, ('b', 2usize));
}

#[test]
fn split_at_the_middle_returns_both_halves() {
    let tuple = ("a", 'b', 2usize);
    let (left, right) = TypedTuple::<TupleIndex1, _>::split_at(tuple);
    assert_eq!(left, ("a", 'b'));
    assert_eq!(right, (2usize,));
}
