use nephila::ids::{AgentId, ObjectiveId};
use nephila::tree::{
    flatten_objectives, flatten_objectives_with_expanded, objective_row_text, status_color, status_icon, tree_row_prefix,
    GoalObjective, GoalSubObjective, ObjectiveItem, ObjectiveStatus, ObjectiveTreeState, StatusColor, TreePanelState,
};
use nephila::tree::{objective_panel_lines, ObjectivePanelLine};

fn make_root(title: &str, status: ObjectiveStatus) -> GoalObjective {
    GoalObjective {
        id: None,
        file_path: format!("goals/{title}.md"),
        title: title.into(),
        content: String::new(),
        status,
        agent_id: None,
        children: Vec::new(),
    }
}

fn sub(id: u128, description: &str, children: Vec<GoalSubObjective>) -> GoalSubObjective {
    GoalSubObjective { id: ObjectiveId(id), description: description.into(), status: ObjectiveStatus::Done, children }
}

#[test]
fn flatten_objectives_produces_correct_items() {
    let goals = vec![make_root("alpha", ObjectiveStatus::Pending), {
        let mut g = make_root("beta", ObjectiveStatus::InProgress);
        g.children.push(GoalSubObjective {
            id: ObjectiveId(42),
            description: "sub-1".into(),
            status: ObjectiveStatus::Done,
            children: vec![],
        });
        g
    }];

    let flat = flatten_objectives(&goals);
    assert_eq!(flat.len(), 3);
    assert_eq!(flat[0].depth, 0);
    assert_eq!(flat[1].depth, 0);
    assert_eq!(flat[2].depth, 1);
}

#[test]
fn panel_state_cursor_navigation() {
    let goals = vec![
        make_root("a", ObjectiveStatus::Pending),
        make_root("b", ObjectiveStatus::Pending),
        make_root("c", ObjectiveStatus::Pending),
    ];
    let mut state = ObjectiveTreeState::default();
    state.load_goals(&goals);

    assert_eq!(state.panel.cursor, 0);
    state.panel.move_down();
    assert_eq!(state.panel.cursor, 1);
    state.panel.move_down();
    assert_eq!(state.panel.cursor, 2);
    state.panel.move_down();
    assert_eq!(state.panel.cursor, 2);
    state.panel.move_up();
    assert_eq!(state.panel.cursor, 1);
}

#[test]
fn nested_sub_objectives_are_flattened_depth_first() {
    let mut g = make_root("root", ObjectiveStatus::Pending);
    g.children.push(sub(1, "a", vec![sub(2, "a.1", vec![])]));
    g.children.push(sub(3, "b", vec![]));
    let flat = flatten_objectives(&vec![g]);
    let depths: Vec<usize> = flat.iter().map(|i| i.depth).collect();
    assert_eq!(depths, vec![0, 1, 2, 1]);
    let titles: Vec<String> = flat.iter().map(|i| i.data.title().clone()).collect();
    assert_eq!(titles, vec!["root", "a", "a.1", "b"]);
    assert!(flat[0].has_children && flat[1].has_children && !flat[2].has_children);
}

#[test]
fn collapsed_root_hides_its_sub_objectives() {
    let mut g = make_root("root", ObjectiveStatus::Pending);
    g.children.push(sub(1, "a", vec![]));
    let goals = vec![g, make_root("other", ObjectiveStatus::Pending)];
    let flat = flatten_objectives_with_expanded(&goals, &vec![false, true]);
    assert_eq!(flat.len(), 2);
    assert!(!flat[0].is_expanded);

    let mut state = ObjectiveTreeState::new();
    state.load_goals(&goals);
    assert_eq!(state.panel.items.len(), 3);
    state.collapse();
    state.load_goals(&goals);
    assert_eq!(state.panel.items.len(), 2);
    state.expand();
    state.load_goals(&goals);
    assert_eq!(state.panel.items.len(), 3);
}

#[test]
fn load_goals_keeps_cursor_on_an_existing_row() {
    let goals = vec![make_root("a", ObjectiveStatus::Pending), make_root("b", ObjectiveStatus::Pending)];
    let mut state = ObjectiveTreeState::new();
    state.load_goals(&goals);
    state.panel.move_down();
    assert_eq!(state.panel.cursor, 1);
    state.load_goals(&vec![make_root("a", ObjectiveStatus::Pending)]);
    assert_eq!(state.panel.cursor, 0);
    state.load_goals(&vec![]);
    assert_eq!(state.panel.cursor, 0);
    assert!(state.panel.selected().is_none());
}

#[test]
fn scroll_into_view_keeps_cursor_visible() {
    let mut panel: TreePanelState<u8> = TreePanelState::new();
    panel.cursor = 9;
    panel.scroll_into_view(4);
    assert_eq!(panel.scroll_offset, 6);
    panel.cursor = 2;
    panel.scroll_into_view(4);
    assert_eq!(panel.scroll_offset, 2);
}

#[test]
fn row_text_shows_indent_icon_title_and_agent() {
    let mut g = make_root("beta", ObjectiveStatus::InProgress);
    g.agent_id = Some(AgentId(0xff));
    g.children.push(sub(9, "child", vec![]));
    let flat = flatten_objectives(&vec![g]);
    let root = objective_row_text(&flat[0]);
    assert_eq!(root.prefix, "v ");
    assert_eq!(root.icon, "[~]");
    assert_eq!(root.color, StatusColor::Yellow);
    assert_eq!(root.title, "beta");
    assert_eq!(root.agent.as_deref(), Some("  (00000000-0000-0000-0000-0000000000ff)"));
    let child = objective_row_text(&flat[1]);
    assert_eq!(child.prefix, "    ");
    assert_eq!(child.icon, "[x]");
    assert!(child.agent.is_none());
    assert!(matches!(flat[1].data, ObjectiveItem::Sub { .. }));
}

#[test]
fn status_icons_colours_and_prefixes() {
    assert_eq!(status_icon(&ObjectiveStatus::Pending), "[ ]");
    assert_eq!(status_icon(&ObjectiveStatus::Blocked), "[!]");
    assert_eq!(status_color(&ObjectiveStatus::Done), StatusColor::Green);
    assert_eq!(status_color(&ObjectiveStatus::Pending), StatusColor::Gray);
    assert_eq!(status_color(&ObjectiveStatus::Blocked), StatusColor::Red);
    assert_eq!(tree_row_prefix(2, true, false), "    > ");
    assert_eq!(tree_row_prefix(0, false, true), "  ");
}

#[test]
fn collapse_then_expand_restores_the_rows() {
    let mut first = make_root("alpha", ObjectiveStatus::Pending);
    first.children = vec![sub(1, "a-1", vec![sub(2, "a-1-x", vec![])]), sub(3, "a-2", vec![])];
    let mut second = make_root("beta", ObjectiveStatus::InProgress);
    second.children = vec![sub(4, "b-1", vec![])];
    let goals = vec![first, second];

    let mut state = ObjectiveTreeState::new();
    state.load_goals(&goals);
    let before: Vec<String> = state.panel.items.iter().map(|i| i.data.title().to_string()).collect();
    assert_eq!(before, vec!["alpha", "a-1", "a-1-x", "a-2", "beta", "b-1"]);

    state.panel.cursor = 4;
    state.collapse();
    state.load_goals(&goals);
    assert_eq!(state.panel.cursor, 4);
    assert_eq!(state.panel.items.len(), 5);
    assert!(!state.panel.items[4].is_expanded);

    state.expand();
    state.load_goals(&goals);
    let after: Vec<String> = state.panel.items.iter().map(|i| i.data.title().to_string()).collect();
    assert_eq!(after, before);
    assert!(state.panel.items[4].is_expanded);
}

#[test]
fn objective_panel_shows_placeholder_or_visible_window() {
    let empty = ObjectiveTreeState::new();
    let lines = objective_panel_lines(&empty.panel, 5);
    assert_eq!(lines.len(), 1);
    match &lines[0] {
        ObjectivePanelLine::Placeholder(t) => assert_eq!(t, "  No objectives \u{2014} press N to create one"),
        _ => panic!("expected the placeholder"),
    }

    let goals: Vec<GoalObjective> =
        ["a", "b", "c", "d", "e"].iter().map(|t| make_root(t, ObjectiveStatus::Pending)).collect();
    let mut state = ObjectiveTreeState::new();
    state.load_goals(&goals);
    state.panel.cursor = 3;
    state.panel.scroll_offset = 2;
    let lines = objective_panel_lines(&state.panel, 2);
    let shown: Vec<(String, bool)> = lines
        .into_iter()
        .map(|l| match l {
            ObjectivePanelLine::Row { text, selected } => (text.title, selected),
            ObjectivePanelLine::Placeholder(_) => panic!("rows expected"),
        })
        .collect();
    assert_eq!(shown, vec![("c".to_string(), false), ("d".to_string(), true)]);
    state.panel.scroll_offset = 4;
    assert_eq!(objective_panel_lines(&state.panel, 10).len(), 1);
    state.panel.scroll_offset = 9;
    assert_eq!(objective_panel_lines(&state.panel, 10).len(), 0);
}
