use migration_engine::nested_delete::{
    apply_parent_ids_rule, copy_filter, connect_nested_delete, connect_nested_delete_many, DeleteManyRecords, DeleteRecord,
    Filter, GraphValue, ModelInfo, NestedDeleteInput, ParentIdsRule, QueryGraphBuilderError, RecordFinder,
    RelationFieldInfo, WriteQuery,
};

fn relation(is_list: bool) -> RelationFieldInfo {
    RelationFieldInfo { is_list, relation_name: "UserPosts".to_string(), model_name: "User".to_string() }
}

fn child() -> ModelInfo {
    ModelInfo { name: "Post".to_string(), id_field: "id".to_string() }
}

fn finder(id: i64) -> RecordFinder {
    RecordFinder { field: "id".to_string(), value: GraphValue::Int(id) }
}

#[test]
fn list_delete_uses_or_of_finders() {
    let input = NestedDeleteInput::Finders(vec![Ok(finder(1)), Ok(finder(2))]);
    let nd = connect_nested_delete(&relation(true), input, &child()).ok().unwrap().unwrap();
    match &nd.find_children_filter {
        Filter::Or(v) => assert_eq!(v.len(), 2),
        other => panic!("unexpected filter {:?}", other),
    }
    match &nd.delete {
        WriteQuery::DeleteManyRecords(dm) => assert_eq!(dm.model, "Post"),
        other => panic!("unexpected delete {:?}", other),
    }
    match &nd.rule {
        ParentIdsRule::CheckedRestrict { expected, relation_name, parent_name, child_name, id_field } => {
            assert_eq!(*expected, 2);
            assert_eq!(relation_name, "UserPosts");
            assert_eq!(parent_name, "User");
            assert_eq!(child_name, "Post");
            assert_eq!(id_field, "id");
        }
        other => panic!("unexpected rule {:?}", other),
    }
}

#[test]
fn list_delete_stops_at_first_bad_finder() {
    let input = NestedDeleteInput::Finders(vec![
        Ok(finder(1)),
        Err(QueryGraphBuilderError::InputError("first".to_string())),
        Err(QueryGraphBuilderError::InputError("second".to_string())),
    ]);
    match connect_nested_delete(&relation(true), input, &child()) {
        Err(QueryGraphBuilderError::InputError(m)) => assert_eq!(m, "first"),
        _ => panic!("expected the first error"),
    }
}

#[test]
fn single_delete_only_on_true() {
    let nd = connect_nested_delete(&relation(false), NestedDeleteInput::Value(Ok(GraphValue::Boolean(true))), &child())
        .ok()
        .unwrap()
        .unwrap();
    assert!(matches!(nd.find_children_filter, Filter::Empty));
    assert!(matches!(&nd.delete, WriteQuery::DeleteRecord(DeleteRecord { where_: None, .. })));
    assert!(connect_nested_delete(&relation(false), NestedDeleteInput::Value(Ok(GraphValue::Boolean(false))), &child())
        .ok()
        .unwrap()
        .is_none());
    assert!(connect_nested_delete(&relation(false), NestedDeleteInput::Value(Ok(GraphValue::Int(1))), &child())
        .ok()
        .unwrap()
        .is_none());
}

fn delete_many(filter: Filter) -> WriteQuery {
    WriteQuery::DeleteManyRecords(DeleteManyRecords { model: "Post".to_string(), filter })
}

#[test]
fn checked_rule_requires_all_records_connected() {
    let rule = ParentIdsRule::CheckedRestrict {
        expected: 2,
        relation_name: "UserPosts".to_string(),
        parent_name: "User".to_string(),
        child_name: "Post".to_string(),
        id_field: "id".to_string(),
    };
    match apply_parent_ids_rule(&rule, delete_many(Filter::Empty), vec![GraphValue::Int(1)]) {
        Err(QueryGraphBuilderError::RecordsNotConnected { relation_name, .. }) => assert_eq!(relation_name, "UserPosts"),
        _ => panic!("expected records not connected"),
    }
    match apply_parent_ids_rule(&rule, delete_many(Filter::Empty), vec![GraphValue::Int(1), GraphValue::Int(2)]) {
        Ok(WriteQuery::DeleteManyRecords(dm)) => match dm.filter {
            Filter::And(parts) => {
                assert_eq!(parts.len(), 2);
                assert!(matches!(&parts[1], Filter::In { field, values } if field == "id" && values.len() == 2));
            }
            other => panic!("unexpected filter {:?}", other),
        },
        _ => panic!("expected a restricted delete"),
    }
}

#[test]
fn inject_rule_takes_last_id() {
    let rule = ParentIdsRule::InjectLast { id_field: "id".to_string() };
    let node = WriteQuery::DeleteRecord(DeleteRecord { model: "Post".to_string(), where_: None });
    match apply_parent_ids_rule(&rule, node, vec![GraphValue::Int(4), GraphValue::Int(9)]) {
        Ok(WriteQuery::DeleteRecord(dr)) => {
            let w = dr.where_.unwrap();
            assert_eq!(w.field, "id");
            assert!(matches!(w.value, GraphValue::Int(9)));
        }
        _ => panic!("expected a targeted delete"),
    }
    let node = WriteQuery::DeleteRecord(DeleteRecord { model: "Post".to_string(), where_: None });
    match apply_parent_ids_rule(&rule, node, vec![]) {
        Err(QueryGraphBuilderError::AssertionError(m)) => assert_eq!(
            m,
            "[Query Graph] Expected a valid parent ID to be present for a nested connect on a one-to-many relation."
        ),
        _ => panic!("expected an assertion error"),
    }
}

#[test]
fn delete_many_per_filter() {
    let filters = vec![
        Ok(Filter::Equals { field: "title".to_string(), value: GraphValue::String("a".to_string()) }),
        Ok(Filter::Empty),
    ];
    let mut v = Vec::new();
    assert!(connect_nested_delete_many(&mut v, &filters, &child()).is_ok());
    assert_eq!(v.len(), 2);
    assert!(matches!(&v[0].find_children_filter, Filter::Equals { field, .. } if field == "title"));
    assert!(matches!(&v[1].rule, ParentIdsRule::Restrict { id_field } if id_field == "id"));
    let bad = vec![
        Ok(Filter::Empty),
        Err(QueryGraphBuilderError::InputError("no map".to_string())),
        Ok(Filter::Empty),
    ];
    let mut graph = Vec::new();
    assert!(matches!(
        connect_nested_delete_many(&mut graph, &bad, &child()),
        Err(QueryGraphBuilderError::InputError(_))
    ));
    // The node of the filter before the failing one stays in the graph.
    assert_eq!(graph.len(), 1);
    assert!(matches!(&graph[0].delete, WriteQuery::DeleteManyRecords(dm) if dm.model == "Post"));
}

#[test]
fn filters_copy_deeply() {
    let f = Filter::Or(vec![
        Filter::And(vec![Filter::Empty, Filter::In { field: "id".to_string(), values: vec![GraphValue::Null] }]),
        Filter::Equals { field: "x".to_string(), value: GraphValue::Boolean(true) },
    ]);
    let c = copy_filter(&f);
    assert_eq!(format!("{:?}", c), format!("{:?}", f));
}
