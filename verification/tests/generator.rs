use typed_tuple::{
    artifacts_of_arity, generate_typed_tuple_impls, remaining_positions, span_positions,
    type_parameter_name, Artifact, Marker, Rejection, MAX_ARITY,
};

#[test]
fn largest_supported_arity_needs_seventy_eight_artifacts() {
    assert_eq!(MAX_ARITY, 12);
    let family = generate_typed_tuple_impls(MAX_ARITY);
    let total: usize = family.rows.iter().map(|row| row.len()).sum();
    assert_eq!(total, 78);
    assert_eq!(family.markers.len(), 12);
    assert_eq!(family.markers[11].name(), "TupleIndex11");
}

#[test]
fn one_marker_for_each_position() {
    let family = generate_typed_tuple_impls(4);
    assert_eq!(family.max_size, 4);
    let indices: Vec<usize> = family.markers.iter().map(|marker| marker.index).collect();
    assert_eq!(indices, vec![0, 1, 2, 3]);
}

#[test]
fn one_row_for_each_arity() {
    let family = generate_typed_tuple_impls(5);
    assert_eq!(family.rows.len(), 5);
    for (row, artifacts) in family.rows.iter().enumerate() {
        assert_eq!(artifacts.len(), row + 1);
        for (column, artifact) in artifacts.iter().enumerate() {
            assert_eq!(artifact.size, row + 1);
            assert_eq!(artifact.index, column);
        }
    }
}

#[test]
fn artifact_count_is_the_sum_of_the_arities() {
    let expected = [0usize, 1, 3, 6, 10, 15, 21, 28, 36, 45, 55, 66, 78];
    for (max_size, count) in expected.iter().enumerate() {
        let family = generate_typed_tuple_impls(max_size);
        let total: usize = family.rows.iter().map(|row| row.len()).sum();
        assert_eq!(total, *count);
        assert_eq!(family.markers.len(), max_size);
    }
}

#[test]
fn every_arity_and_position_is_served_exactly_once() {
    let family = generate_typed_tuple_impls(7);
    for size in 1..=7usize {
        for index in 0..size {
            let matches = family
                .rows
                .iter()
                .flatten()
                .filter(|artifact| artifact.size == size && artifact.index == index)
                .count();
            assert_eq!(matches, 1);
        }
    }
    let strays = family
        .rows
        .iter()
        .flatten()
        .filter(|artifact| artifact.size == 0 || artifact.size > 7 || artifact.index >= artifact.size)
        .count();
    assert_eq!(strays, 0);
}

#[test]
fn nothing_is_generated_for_a_maximum_of_zero() {
    let family = generate_typed_tuple_impls(0);
    assert!(family.markers.is_empty());
    assert!(family.rows.is_empty());
}

#[test]
fn shapes_of_the_middle_of_a_triple() {
    let artifact = Artifact::derive(3, 1).unwrap();
    assert_eq!(artifact.size, 3);
    assert_eq!(artifact.index, 1);
    assert_eq!(artifact.pop_output, vec![0, 2]);
    assert_eq!(artifact.split_left, vec![0, 1]);
    assert_eq!(artifact.split_right, vec![2]);
}

#[test]
fn first_position_splits_off_one_element() {
    let artifact = Artifact::derive(5, 0).unwrap();
    assert_eq!(artifact.pop_output, vec![1, 2, 3, 4]);
    assert_eq!(artifact.split_left, vec![0]);
    assert_eq!(artifact.split_right, vec![1, 2, 3, 4]);
}

#[test]
fn last_position_leaves_an_empty_right_half() {
    let artifact = Artifact::derive(5, 4).unwrap();
    assert_eq!(artifact.pop_output, vec![0, 1, 2, 3]);
    assert_eq!(artifact.split_left, vec![0, 1, 2, 3, 4]);
    assert_eq!(artifact.split_right, Vec::<usize>::new());
}

#[test]
fn single_element_leaves_an_empty_remainder() {
    let artifact = Artifact::derive(1, 0).unwrap();
    assert_eq!(artifact.pop_output, Vec::<usize>::new());
    assert_eq!(artifact.split_left, vec![0]);
    assert_eq!(artifact.split_right, Vec::<usize>::new());
}

#[test]
fn shape_lengths_follow_arity_and_position() {
    for size in 1..=12usize {
        for index in 0..size {
            let artifact = Artifact::at(size, index);
            assert_eq!(artifact.pop_output.len(), size - 1);
            assert_eq!(artifact.split_left.len(), index + 1);
            assert_eq!(artifact.split_right.len(), size - index - 1);
            let mut joined = artifact.split_left.clone();
            joined.extend(artifact.split_right.iter());
            assert_eq!(joined, (0..size).collect::<Vec<usize>>());
            let mut restored = artifact.pop_output.clone();
            restored.insert(index, index);
            assert_eq!(restored, (0..size).collect::<Vec<usize>>());
        }
    }
}

#[test]
fn position_beyond_the_arity_is_rejected() {
    assert_eq!(Artifact::derive(3, 3).err(), Some(Rejection::PositionBeyondArity));
    assert_eq!(Artifact::derive(3, 7).err(), Some(Rejection::PositionBeyondArity));
    assert_eq!(Artifact::derive(0, 0).err(), Some(Rejection::PositionBeyondArity));
}

#[test]
fn find_returns_the_artifact_for_arity_and_position() {
    let family = generate_typed_tuple_impls(6);
    let artifact = family.find(4, 2).unwrap();
    assert_eq!(artifact.size, 4);
    assert_eq!(artifact.index, 2);
    assert_eq!(artifact.pop_output, vec![0, 1, 3]);
    assert_eq!(artifact.split_left, vec![0, 1, 2]);
    assert_eq!(artifact.split_right, vec![3]);
    let last = family.find(6, 5).unwrap();
    assert_eq!(last.size, 6);
    assert_eq!(last.index, 5);
}

#[test]
fn find_rejects_an_arity_beyond_the_maximum() {
    let family = generate_typed_tuple_impls(3);
    assert_eq!(family.find(4, 0).err(), Some(Rejection::ArityBeyondMaximum));
    assert_eq!(family.find(4, 9).err(), Some(Rejection::ArityBeyondMaximum));
}

#[test]
fn find_rejects_a_position_beyond_the_arity() {
    let family = generate_typed_tuple_impls(3);
    assert_eq!(family.find(2, 2).err(), Some(Rejection::PositionBeyondArity));
    assert_eq!(family.find(3, 3).err(), Some(Rejection::PositionBeyondArity));
    assert_eq!(family.find(0, 0).err(), Some(Rejection::PositionBeyondArity));
}

#[test]
fn row_of_an_arity_holds_all_its_positions() {
    let row = artifacts_of_arity(3);
    assert_eq!(row.len(), 3);
    assert_eq!(row[0].pop_output, vec![1, 2]);
    assert_eq!(row[1].pop_output, vec![0, 2]);
    assert_eq!(row[2].pop_output, vec![0, 1]);
    assert!(artifacts_of_arity(0).is_empty());
}

#[test]
fn positions_are_listed_in_order() {
    assert_eq!(span_positions(2, 6), vec![2, 3, 4, 5]);
    assert_eq!(span_positions(3, 3), Vec::<usize>::new());
    assert_eq!(remaining_positions(4, 0), vec![1, 2, 3]);
    assert_eq!(remaining_positions(4, 3), vec![0, 1, 2]);
}

#[test]
fn markers_are_named_by_their_position() {
    assert_eq!(Marker { index: 0 }.name(), "TupleIndex0");
    assert_eq!(Marker { index: 11 }.name(), "TupleIndex11");
    assert_eq!(Marker { index: 120 }.name(), "TupleIndex120");
    assert_eq!(Marker { index: 3 }.documentation(), "Marker type for tuple index 3");
    assert_eq!(Marker { index: 10 }.documentation(), "Marker type for tuple index 10");
}

#[test]
fn marker_names_are_pairwise_distinct() {
    let family = generate_typed_tuple_impls(30);
    let names: Vec<String> = family.markers.iter().map(|marker| marker.name()).collect();
    for (i, name) in names.iter().enumerate() {
        for other in names.iter().skip(i + 1) {
            assert_ne!(name, other);
        }
    }
}

#[test]
fn type_parameters_are_named_by_their_position() {
    assert_eq!(type_parameter_name(0), "T0");
    assert_eq!(type_parameter_name(9), "T9");
    assert_eq!(type_parameter_name(10), "T10");
    assert_eq!(type_parameter_name(1234567890), "T1234567890");
}

#[test]
fn decimal_numerals_have_no_leading_zeros() {
    let mut text = String::from("n=");
    typed_tuple::append_decimal(&mut text, 0);
    assert_eq!(text, "n=0");
    typed_tuple::append_decimal(&mut text, 1007);
    assert_eq!(text, "n=01007");
    let mut largest = String::new();
    typed_tuple::append_decimal(&mut largest, usize::MAX);
    assert_eq!(largest, usize::MAX.to_string());
}
