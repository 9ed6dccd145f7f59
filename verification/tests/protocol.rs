use typed_tuple::{
    TupleIndex0, TupleIndex1, TupleIndex10, TupleIndex11, TupleIndex2, TupleIndex3, TupleIndex5,
    TypedTuple,
};

#[test]
fn get_by_type() {
    let tuple = ("a", 'b', 2usize);
    let a: &&str = tuple.get();
    let b: &char = tuple.get();
    let c: &usize = tuple.get();
    assert_eq!(*a, "a");
    assert_eq!(*b, 'b');
    assert_eq!(*c, 2);
}

#[test]
fn get_by_marker() {
    let tuple = ("a", 'b', 2usize);
    assert_eq!(*TypedTuple::<TupleIndex0, _>::get(&tuple), "a");
    assert_eq!(*TypedTuple::<TupleIndex1, _>::get(&tuple), 'b');
    assert_eq!(*TypedTuple::<TupleIndex2, _>::get(&tuple), 2usize);
}

#[test]
fn get_mut_by_type() {
    let mut tuple = ("a", 'b', 2usize);
    *tuple.get_mut() = "c";
    *tuple.get_mut() = 'd';
    *tuple.get_mut() = 3usize;
    assert_eq!(tuple, ("c", 'd', 3));
}

#[test]
fn get_mut_by_marker() {
    let mut tuple = ("c", 'd', 3usize);
    *TypedTuple::<TupleIndex0, _>::get_mut(&mut tuple) = "e";
    *TypedTuple::<TupleIndex1, _>::get_mut(&mut tuple) = 'f';
    *TypedTuple::<TupleIndex2, _>::get_mut(&mut tuple) = 4usize;
    assert_eq!(tuple, ("e", 'f', 4));
}

#[test]
fn map_by_type() {
    let mut tuple = ("a".to_string(), 1u8, 2usize);
    tuple.map(|el: String| el.to_uppercase());
    tuple.map(|el: u8| el + 1);
    tuple.map(|el: usize| el + 2);
    assert_eq!(tuple, ("A".to_string(), 2, 4));
}

#[test]
fn map_by_marker() {
    let mut tuple = ("A".to_string(), 2u8, 4usize);
    TypedTuple::<TupleIndex0, _>::map(&mut tuple, |el| el.to_lowercase());
    TypedTuple::<TupleIndex1, _>::map(&mut tuple, |el| el - 1);
    TypedTuple::<TupleIndex2, _>::map(&mut tuple, |el| el - 2);
    assert_eq!(tuple, ("a".to_string(), 1, 2));
}

#[test]
fn elements_are_assigned_and_read_irrespective_of_position() {
    let mut tuple: (usize, Option<u8>, Option<char>, Option<bool>) = Default::default();
    tuple.map(|el: usize| el + 10);
    *tuple.get_mut() = Some(7u8);
    *tuple.get_mut() = Some(true);
    assert_eq!(tuple, (10, Some(7), None, Some(true)));
    let missing: &Option<char> = tuple.get();
    assert_eq!(*missing, None);
}

#[test]
fn write_then_read_yields_the_written_value() {
    let mut tuple = (1u8, 2u16, 3u32, 4u64);
    *TypedTuple::<TupleIndex2, u32>::get_mut(&mut tuple) = 30;
    assert_eq!(*TypedTuple::<TupleIndex2, u32>::get(&tuple), 30);
    assert_eq!(tuple, (1, 2, 30, 4));
}

#[test]
fn identity_transform_leaves_the_tuple_unchanged() {
    let mut tuple = ("x".to_string(), vec![1, 2, 3], 9i64);
    let before = tuple.clone();
    TypedTuple::<TupleIndex0, String>::map(&mut tuple, |el| el);
    TypedTuple::<TupleIndex1, Vec<i32>>::map(&mut tuple, |el| el);
    TypedTuple::<TupleIndex2, i64>::map(&mut tuple, |el| el);
    assert_eq!(tuple, before);
}

#[test]
fn pop_returns_the_element_and_the_rest_in_order() {
    let tuple = (1u8, "two", 3.0f64, '4');
    let (popped, rest) = TypedTuple::<TupleIndex1, _>::pop(tuple);
    assert_eq!(popped, "two");
    assert_eq!(rest, (1u8, 3.0f64, '4'));
    let (last, rest) = TypedTuple::<TupleIndex3, _>::pop(tuple);
    assert_eq!(last, '4');
    assert_eq!(rest, (1u8, "two", 3.0f64));
}

#[test]
fn pop_of_a_single_element_leaves_the_empty_tuple() {
    let (popped, rest) = TypedTuple::<TupleIndex0, _>::pop((5u8,));
    assert_eq!(popped, 5);
    assert_eq!(rest, ());
}

#[test]
fn split_at_cuts_behind_the_position() {
    let tuple = (1u8, "two", 3.0f64, '4');
    let (left, right) = TypedTuple::<TupleIndex0, _>::split_at(tuple);
    assert_eq!(left, (1u8,));
    assert_eq!(right, ("two", 3.0f64, '4'));
    let (left, right) = TypedTuple::<TupleIndex2, _>::split_at(tuple);
    assert_eq!(left, (1u8, "two", 3.0f64));
    assert_eq!(right, ('4',));
}

#[test]
fn split_at_the_last_position_leaves_an_empty_right_half() {
    let (left, right) = TypedTuple::<TupleIndex1, _>::split_at((1u8, 'b'));
    assert_eq!(left, (1u8, 'b'));
    assert_eq!(right, ());
    let (left, right) = TypedTuple::<TupleIndex0, _>::split_at((9i32,));
    assert_eq!(left, (9i32,));
    assert_eq!(right, ());
}

#[test]
fn same_typed_elements_are_told_apart_by_marker() {
    let mut tuple = (1u8, 2u8, 3u8);
    *TypedTuple::<TupleIndex1, u8>::get_mut(&mut tuple) = 20;
    assert_eq!(*TypedTuple::<TupleIndex0, u8>::get(&tuple), 1);
    assert_eq!(*TypedTuple::<TupleIndex1, u8>::get(&tuple), 20);
    assert_eq!(*TypedTuple::<TupleIndex2, u8>::get(&tuple), 3);
}

#[test]
fn index_constant_is_the_position() {
    assert_eq!(<(u8, char) as TypedTuple<TupleIndex0, u8>>::INDEX, 0);
    assert_eq!(<(u8, char) as TypedTuple<TupleIndex1, char>>::INDEX, 1);
    assert_eq!(<(u8, u8, u8, u8, u8, u8) as TypedTuple<TupleIndex5, u8>>::INDEX, 5);
}

#[test]
fn twelve_elements_are_supported() {
    let mut tuple = (0u8, 1u8, 2u8, 3u8, 4u8, 5u8, 6u8, 7u8, 8u8, 9u8, 10u8, 11u8);
    assert_eq!(*TypedTuple::<TupleIndex11, u8>::get(&tuple), 11);
    TypedTuple::<TupleIndex10, u8>::map(&mut tuple, |el| el * 2);
    assert_eq!(tuple, (0, 1, 2, 3, 4, 5, 6, 7, 8, 9, 20, 11));
    let (popped, rest) = TypedTuple::<TupleIndex5, u8>::pop(tuple);
    assert_eq!(popped, 5);
    assert_eq!(rest, (0, 1, 2, 3, 4, 6, 7, 8, 9, 20, 11));
    let (left, right) = TypedTuple::<TupleIndex5, u8>::split_at(tuple);
    assert_eq!(left, (0, 1, 2, 3, 4, 5));
    assert_eq!(right, (6, 7, 8, 9, 20, 11));
    let (left, right) = TypedTuple::<TupleIndex11, u8>::split_at(tuple);
    assert_eq!(left, tuple);
    assert_eq!(right, ());
}

#[test]
fn popped_element_put_back_at_its_position_rebuilds_the_tuple() {
    let tuple = (1u8, "two", '3', 4i64);
    let (popped, rest) = TypedTuple::<TupleIndex0, _>::pop(tuple);
    assert_eq!((popped, rest.0, rest.1, rest.2), tuple);
    let (popped, rest) = TypedTuple::<TupleIndex2, _>::pop(tuple);
    assert_eq!((rest.0, rest.1, popped, rest.2), tuple);
    let (popped, rest) = TypedTuple::<TupleIndex3, _>::pop(tuple);
    assert_eq!((rest.0, rest.1, rest.2, popped), tuple);
}

#[test]
fn left_followed_by_right_rebuilds_the_tuple() {
    let tuple = (1u8, "two", '3', 4i64);
    let (left, right) = TypedTuple::<TupleIndex0, _>::split_at(tuple);
    assert_eq!((left.0, right.0, right.1, right.2), tuple);
    let (left, right) = TypedTuple::<TupleIndex1, _>::split_at(tuple);
    assert_eq!((left.0, left.1, right.0, right.1), tuple);
    let (left, right) = TypedTuple::<TupleIndex3, _>::split_at(tuple);
    assert_eq!(left, tuple);
    assert_eq!(right, ());
}

#[test]
fn map_hands_the_current_value_to_the_closure() {
    let mut tuple = (vec![1u8, 2], 5u32);
    let mut seen = Vec::new();
    TypedTuple::<TupleIndex0, Vec<u8>>::map(&mut tuple, |el| {
        seen = el.clone();
        vec![9]
    });
    assert_eq!(seen, vec![1u8, 2]);
    assert_eq!(tuple, (vec![9u8], 5u32));
}
