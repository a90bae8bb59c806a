use nephila::agent_record::{RowError, RowErrorKind, Timestamp};
use nephila::ids::ObjectiveId;
use nephila::objectives::{build_tree, decode_objective_row, ObjectiveNode, ObjectiveRow};
use nephila::store_policy::{InterruptKind, InterruptStatus};
use nephila::tree::ObjectiveStatus;

fn node(id: u128, parent: Option<u128>, description: &str) -> ObjectiveNode {
    ObjectiveNode {
        id: ObjectiveId(id),
        parent_id: parent.map(ObjectiveId),
        agent_id: None,
        description: description.into(),
        status: ObjectiveStatus::Pending,
        children: vec![],
        created_at: Timestamp { secs: 0, nanos: 0 },
        updated_at: Timestamp { secs: 0, nanos: 0 },
    }
}

fn shape(n: &ObjectiveNode) -> String {
    if n.children.is_empty() {
        n.description.clone()
    } else {
        let kids: Vec<String> = n.children.iter().map(shape).collect();
        format!("{}({})", n.description, kids.join(","))
    }
}

#[test]
fn tree_building_nests_children_in_row_order() {
    let rows = vec![
        node(1, None, "root"),
        node(2, Some(1), "a"),
        node(3, Some(1), "b"),
        node(4, Some(2), "a1"),
        node(5, Some(9), "elsewhere"),
    ];
    let tree = build_tree(ObjectiveId(1), rows).expect("root present");
    assert_eq!(shape(&tree), "root(a(a1),b)");
}

#[test]
fn subtree_of_an_inner_node_and_missing_root() {
    let rows = vec![node(1, None, "root"), node(2, Some(1), "a"), node(4, Some(2), "a1")];
    let sub = build_tree(ObjectiveId(2), rows).unwrap();
    assert_eq!(shape(&sub), "a(a1)");
    assert!(build_tree(ObjectiveId(7), vec![node(1, None, "root")]).is_none());
}

#[test]
fn repeated_ids_count_once_and_cycles_terminate() {
    let rows = vec![node(1, None, "root"), node(2, Some(1), "old"), node(2, Some(1), "new")];
    let tree = build_tree(ObjectiveId(1), rows).unwrap();
    assert_eq!(shape(&tree), "root(new)");

    let cyc = vec![node(1, Some(2), "x"), node(2, Some(1), "y")];
    let tree = build_tree(ObjectiveId(1), cyc).unwrap();
    assert_eq!(shape(&tree), "x(y)");
}

#[test]
fn objective_rows_decode_status_and_timestamps() {
    let row = ObjectiveRow {
        id: ObjectiveId(1),
        parent_id: None,
        agent_id: None,
        description: "d".into(),
        status: "in_progress".into(),
        created_at: "1970-01-01T00:00:10Z".into(),
        updated_at: "1970-01-01T00:00:11Z".into(),
    };
    let n = decode_objective_row(row).unwrap();
    assert_eq!(n.status, ObjectiveStatus::InProgress);
    assert_eq!(n.created_at, Timestamp { secs: 10, nanos: 0 });
    assert!(n.children.is_empty());

    let odd = ObjectiveRow {
        id: ObjectiveId(1),
        parent_id: None,
        agent_id: None,
        description: "d".into(),
        status: "weird".into(),
        created_at: "1970-01-01T00:00:10Z".into(),
        updated_at: "later".into(),
    };
    assert_eq!(decode_objective_row(odd).err(), Some(RowError { column: 6, kind: RowErrorKind::BadTimestamp }));
    assert_eq!(ObjectiveStatus::parse("weird"), None);
    for st in [ObjectiveStatus::Pending, ObjectiveStatus::InProgress, ObjectiveStatus::Done, ObjectiveStatus::Blocked] {
        assert_eq!(ObjectiveStatus::parse(st.as_str()), Some(st));
    }
}

#[test]
fn interrupt_kinds_and_statuses_read_back() {
    for k in [InterruptKind::Hitl, InterruptKind::Pause, InterruptKind::Drain] {
        assert_eq!(InterruptKind::from_text(k.as_str()), k);
    }
    for s in [InterruptStatus::Pending, InterruptStatus::Resolved, InterruptStatus::Expired] {
        assert_eq!(InterruptStatus::from_text(s.as_str()), s);
    }
    assert_eq!(InterruptKind::from_text("other"), InterruptKind::Drain);
    assert_eq!(InterruptStatus::from_text("other"), InterruptStatus::Pending);
}
