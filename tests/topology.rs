use creature_sim::topology::{check_crossover, propagate_len, NetworkError, Topology};

#[test]
fn topology_needs_two_layers() {
    assert_eq!(Topology::new(&[]).err(), Some(NetworkError::InvalidTopology));
    assert_eq!(Topology::new(&[3]).err(), Some(NetworkError::InvalidTopology));
    assert!(Topology::new(&[3, 2]).is_ok());
}

#[test]
fn shapes_of_default_topology() {
    let t = Topology::new(&[3, 3, 2]).unwrap();
    assert_eq!(t.sizes(), &[3, 3, 2]);
    assert_eq!(t.layer_count(), 2);
    assert_eq!(t.input_len(), 3);
    assert_eq!(t.output_len(), 2);
    assert_eq!(t.weight_shapes(), vec![(3, 3), (2, 3)]);
    assert_eq!(t.bias_lengths(), vec![3, 2]);
}

#[test]
fn output_len_is_last_layer_width() {
    let t = Topology::new(&[2, 2, 1]).unwrap();
    assert_eq!(t.forward_len(2), Ok(1));
    let t = Topology::new(&[4, 7, 5, 9]).unwrap();
    assert_eq!(t.forward_len(4), Ok(9));
}

#[test]
fn wrong_input_len_is_dimension_mismatch() {
    let t = Topology::new(&[2, 2, 1]).unwrap();
    assert_eq!(t.forward_len(3), Err(NetworkError::DimensionMismatch));
    assert_eq!(t.forward_len(0), Err(NetworkError::DimensionMismatch));
}

#[test]
fn propagate_checks_every_layer() {
    assert_eq!(propagate_len(&vec![(2, 3), (4, 2)], 3), Ok(4));
    assert_eq!(propagate_len(&vec![(2, 3), (4, 5)], 3), Err(NetworkError::DimensionMismatch));
    assert_eq!(propagate_len(&vec![], 6), Ok(6));
}

#[test]
fn crossover_needs_equal_layer_counts() {
    assert_eq!(check_crossover(2, 2, 2, 2), Ok(()));
    assert_eq!(check_crossover(2, 2, 3, 3), Err(NetworkError::ShapeMismatch));
    assert_eq!(check_crossover(2, 2, 2, 1), Err(NetworkError::ShapeMismatch));
}
