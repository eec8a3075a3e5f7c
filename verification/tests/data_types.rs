use open62541::ua::{DataTypeDescription, NodeId};
use open62541::{
    is_well_known_data_type, plan_new_data_types, topological_sort, DataTypeArray, Error,
};

#[test]
fn topological_sort_places_dependencies_first() {
    // Node 0 depends on 1 and 2, node 1 depends on 2.
    let deps = vec![vec![1, 2], vec![2], vec![]];
    let order = topological_sort(&deps).expect("acyclic graph has an order");
    assert_eq!(order, vec![2, 1, 0]);
}

#[test]
fn topological_sort_of_independent_nodes_keeps_all() {
    let deps: Vec<Vec<usize>> = vec![vec![], vec![], vec![]];
    let mut order = topological_sort(&deps).expect("no dependencies");
    order.sort();
    assert_eq!(order, vec![0, 1, 2]);
}

#[test]
fn topological_sort_of_empty_graph() {
    let deps: Vec<Vec<usize>> = Vec::new();
    assert_eq!(topological_sort(&deps), Some(Vec::new()));
}

#[test]
fn topological_sort_rejects_cycle() {
    let deps = vec![vec![1], vec![2], vec![0]];
    assert_eq!(topological_sort(&deps), None);
}

#[test]
fn topological_sort_rejects_self_dependency() {
    let deps = vec![vec![0]];
    assert_eq!(topological_sort(&deps), None);
}

#[test]
fn topological_sort_rejects_missing_node() {
    let deps = vec![vec![5]];
    assert_eq!(topological_sort(&deps), None);
}

#[test]
fn well_known_data_types() {
    assert!(is_well_known_data_type(&NodeId::ns0(1)));
    assert!(is_well_known_data_type(&NodeId::numeric(3, 3002)));
    assert!(!is_well_known_data_type(&NodeId::string(3, "Custom")));
    assert!(!is_well_known_data_type(&NodeId::numeric(2, 3002)));
}

fn structure(id: NodeId, fields: Vec<NodeId>) -> DataTypeDescription {
    DataTypeDescription::Structure { data_type_id: id, field_data_types: Some(fields) }
}

#[test]
fn plan_orders_fields_before_structures() {
    // Structure 0 has a field of type 1, which is an enumeration; the well-known field type is
    // ignored.
    let descs = vec![
        structure(NodeId::numeric(2, 100), vec![NodeId::numeric(2, 101), NodeId::ns0(6)]),
        DataTypeDescription::Enum { data_type_id: NodeId::numeric(2, 101) },
    ];
    let plan = plan_new_data_types(&descs, &[]).expect("no cycle");
    assert_eq!(plan, vec![1, 0]);
}

#[test]
fn plan_skips_known_and_well_known_types() {
    let descs = vec![
        DataTypeDescription::Enum { data_type_id: NodeId::ns0(29) },
        DataTypeDescription::Enum { data_type_id: NodeId::numeric(2, 7) },
        DataTypeDescription::Enum { data_type_id: NodeId::numeric(2, 8) },
    ];
    let plan = plan_new_data_types(&descs, &[NodeId::numeric(2, 7)]).expect("no cycle");
    assert_eq!(plan, vec![2]);
}

#[test]
fn plan_takes_last_description_of_a_type() {
    let descs = vec![
        DataTypeDescription::Enum { data_type_id: NodeId::numeric(2, 9) },
        DataTypeDescription::Enum { data_type_id: NodeId::numeric(2, 9) },
    ];
    let plan = plan_new_data_types(&descs, &[]).expect("no cycle");
    assert_eq!(plan, vec![1]);
}

#[test]
fn plan_rejects_cyclical_descriptions() {
    let descs = vec![
        structure(NodeId::numeric(2, 1), vec![NodeId::numeric(2, 2)]),
        structure(NodeId::numeric(2, 2), vec![NodeId::numeric(2, 1)]),
    ];
    match plan_new_data_types(&descs, &[]) {
        Err(Error::Internal(message)) => assert_eq!(message, "cyclical data type descriptions"),
        other => panic!("expected cycle error, got {other:?}"),
    }
}

#[test]
fn data_type_array_starts_empty() {
    let array = DataTypeArray::new();
    assert!(array.is_empty());
    assert_eq!(array.len(), 0);
    assert!(!array.contains(&NodeId::numeric(1, 1)));
}

#[test]
fn data_type_array_keeps_pushed_types_across_growth() {
    let mut array = DataTypeArray::new();
    // More than fit in the initial arrays of capacity 4 and 8.
    for i in 0..20u32 {
        array.push(NodeId::numeric(1, i));
    }
    assert!(!array.is_empty());
    assert_eq!(array.len(), 20);
    for i in 0..20u32 {
        assert!(array.contains(&NodeId::numeric(1, i)));
    }
    assert!(!array.contains(&NodeId::numeric(1, 20)));
    assert!(!array.contains(&NodeId::numeric(2, 0)));
}

#[test]
fn topological_sort_with_longer_cycle_behind_acyclic_part() {
    // Node 0 depends on 1; 1, 2 and 3 form a cycle.
    let deps = vec![vec![1], vec![2], vec![3], vec![1]];
    assert_eq!(topological_sort(&deps), None);
    // Breaking the cycle gives an order listing every node once.
    let deps = vec![vec![1], vec![2], vec![3], vec![]];
    assert_eq!(topological_sort(&deps), Some(vec![3, 2, 1, 0]));
}
