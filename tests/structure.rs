use kyxnt::activation::Activation;
use kyxnt::error::{check_shape, NetworkError};
use kyxnt::pass::LayerStep;
use kyxnt::schedule::{previous_step_index, ScheduleKind};
use kyxnt::topology::Topology;
use kyxnt::training::{should_report, shuffled_order};

fn two_three_one() -> Topology {
    let mut t = Topology::new(2);
    t.add_layer(3);
    t.add_layer(1);
    t
}

#[test]
fn activation_names_select_their_pair() {
    assert_eq!(Activation::from_name("sigmoid"), Ok(Activation::Logistic));
    assert_eq!(Activation::from_name("softplus"), Ok(Activation::Logistic));
    assert_eq!(Activation::from_name("logistic"), Ok(Activation::Logistic));
    assert_eq!(Activation::from_name("tanh"), Ok(Activation::Tanh));
    assert_eq!(Activation::from_name("relu"), Ok(Activation::Relu));
    assert_eq!(Activation::from_name("none"), Ok(Activation::Identity));
}

#[test]
fn unknown_activation_is_a_configuration_error() {
    assert_eq!(Activation::from_name("Sigmoid"), Err(NetworkError::UnknownActivation));
    assert_eq!(Activation::from_name(""), Err(NetworkError::UnknownActivation));
    assert_eq!(Activation::from_name("relu "), Err(NetworkError::UnknownActivation));
}

#[test]
fn new_network_has_only_the_input_layer() {
    let t = Topology::new(4);
    assert_eq!(t.layer_count(), 1);
    assert_eq!(t.input_size(), 4);
    assert_eq!(t.node_count(), 4);
    assert_eq!(t.get_layer(0), (0, 4));
}

#[test]
fn boundaries_increase_and_start_at_input_size() {
    let t = two_three_one();
    assert_eq!(t.layer_count(), 3);
    assert_eq!(t.input_size(), 2);
    assert_eq!(t.get_layer(0), (0, 2));
    assert_eq!(t.get_layer(1), (2, 5));
    assert_eq!(t.get_layer(2), (5, 6));
    assert_eq!(t.node_count(), 6);
    for k in 1..t.layer_count() {
        assert!(t.get_layer(k - 1).1 < t.get_layer(k).1);
    }
}

#[test]
fn new_layer_reads_the_previous_layer() {
    let mut t = Topology::new(2);
    assert_eq!(t.input_indexes(), vec![0, 1]);
    t.add_layer(3);
    let inputs = t.input_indexes();
    assert_eq!(inputs, vec![2, 3, 4]);
    t.add_layer(1);
    let (start, end) = t.get_layer(1);
    assert_eq!(inputs.len(), end - start);
    assert_eq!(t.input_indexes(), vec![5]);
}

#[test]
fn input_and_output_shapes_are_checked() {
    let t = two_three_one();
    assert_eq!(t.check_input(2), Ok(()));
    assert_eq!(
        t.check_input(3),
        Err(NetworkError::ShapeMismatch { expected: 2, found: 3 })
    );
    assert_eq!(t.check_output(1), Ok(()));
    assert_eq!(
        t.check_output(0),
        Err(NetworkError::ShapeMismatch { expected: 1, found: 0 })
    );
    assert_eq!(check_shape(5, 5), Ok(()));
    assert_eq!(
        check_shape(5, 4),
        Err(NetworkError::ShapeMismatch { expected: 5, found: 4 })
    );
}

#[test]
fn forward_walks_layers_first_to_last() {
    let t = two_three_one();
    let plan = t.forward_plan();
    assert_eq!(
        plan,
        vec![
            LayerStep { layer: 1, input_start: 0, input_end: 2, start: 2, end: 5, sets_targets: false },
            LayerStep { layer: 2, input_start: 2, input_end: 5, start: 5, end: 6, sets_targets: true },
        ]
    );
}

#[test]
fn backward_walks_from_output_and_skips_inputs() {
    let mut t = two_three_one();
    t.add_layer(2);
    let plan = t.backward_plan();
    assert_eq!(plan.len(), 3);
    assert_eq!(
        plan[0],
        LayerStep { layer: 3, input_start: 5, input_end: 6, start: 6, end: 8, sets_targets: true }
    );
    assert_eq!(
        plan[1],
        LayerStep { layer: 2, input_start: 2, input_end: 5, start: 5, end: 6, sets_targets: true }
    );
    assert_eq!(
        plan[2],
        LayerStep { layer: 1, input_start: 0, input_end: 2, start: 2, end: 5, sets_targets: false }
    );
}

#[test]
fn plans_of_an_input_only_network_are_empty() {
    let t = Topology::new(3);
    assert!(t.forward_plan().is_empty());
    assert!(t.backward_plan().is_empty());
}

#[test]
fn shuffled_order_is_a_permutation() {
    for seed in 0..8u64 {
        let mut order = shuffled_order(10, seed);
        assert_eq!(order.len(), 10);
        order.sort();
        assert_eq!(order, (0..10).collect::<Vec<usize>>());
    }
    assert!(shuffled_order(0, 1).is_empty());
    assert_eq!(shuffled_order(1, 1), vec![0]);
}

#[test]
fn shuffled_order_moves_items() {
    let identity: Vec<usize> = (0..20).collect();
    let moved = (0..5u64).any(|seed| shuffled_order(20, seed) != identity);
    assert!(moved);
}

#[test]
fn reports_at_the_end_of_each_interval() {
    assert!(!should_report(0, 0));
    assert!(!should_report(1999, 0));
    assert!(should_report(1999, 2000));
    assert!(!should_report(2000, 2000));
    assert!(should_report(3999, 2000));
    assert!(should_report(0, 1));
    assert!(should_report(5, 1));
}

#[test]
fn momentum_reads_the_latest_step() {
    assert_eq!(previous_step_index(ScheduleKind::Momentum, 0), None);
    assert_eq!(previous_step_index(ScheduleKind::Momentum, 3), Some(2));
    assert_eq!(previous_step_index(ScheduleKind::SingleParameter, 3), None);
    assert_eq!(previous_step_index(ScheduleKind::Decay, 3), None);
}
