use nephila::focus::FocusPanel;
use nephila::hotkey::{context_line, HotkeyBarWidget, HotkeyContext};

#[test]
fn focus_cycle_forward() {
    let start = FocusPanel::ObjectiveTree;
    assert_eq!(start.next(), FocusPanel::AgentTree);
    assert_eq!(start.next().next(), FocusPanel::EventLog);
    assert_eq!(start.next().next().next(), FocusPanel::ObjectiveTree);
}

#[test]
fn focus_cycle_backward() {
    let start = FocusPanel::ObjectiveTree;
    assert_eq!(start.prev(), FocusPanel::EventLog);
    assert_eq!(start.prev().prev(), FocusPanel::AgentTree);
    assert_eq!(start.prev().prev().prev(), FocusPanel::ObjectiveTree);
}

#[test]
fn default_is_objective_tree() {
    assert_eq!(FocusPanel::default(), FocusPanel::ObjectiveTree);
}

#[test]
fn next_then_prev_returns_to_start() {
    for p in [FocusPanel::ObjectiveTree, FocusPanel::AgentTree, FocusPanel::EventLog] {
        assert_eq!(p.next().prev(), p);
        assert_eq!(p.prev().next(), p);
    }
}

#[test]
fn context_hint_changes_by_context() {
    let none = HotkeyContext::Nothing;
    let obj_no_agent = HotkeyContext::ObjectiveSelectedNoAgent;
    let hitl = HotkeyContext::AgentSelectedHitlPending;
    let log = HotkeyContext::EventLogFocused;

    assert!(context_line(&none).is_empty());
    assert!(context_line(&obj_no_agent).contains("S:Spawn"));
    assert!(context_line(&hitl).contains("Enter:Respond"));
    assert!(context_line(&log).contains("Up/Down:Scroll"));
}

#[test]
fn hint_line_prefers_hitl_hint_and_is_empty_without_hint() {
    let bar = HotkeyBarWidget {
        context: HotkeyContext::AgentSelected,
        hitl_hint: Some("> x: Enter to respond to HITL question".to_string()),
        focus: FocusPanel::AgentTree,
    };
    assert_eq!(bar.hint_line(), " > x: Enter to respond to HITL question");
    assert!(bar.tab_is_active(FocusPanel::AgentTree));
    assert!(!bar.tab_is_active(FocusPanel::EventLog));

    let quiet = HotkeyBarWidget { context: HotkeyContext::Nothing, hitl_hint: None, focus: FocusPanel::ObjectiveTree };
    assert_eq!(quiet.hint_line(), "");

    let log = HotkeyBarWidget { context: HotkeyContext::EventLogFocused, hitl_hint: None, focus: FocusPanel::EventLog };
    assert_eq!(log.hint_line(), " Up/Down:Scroll  Home/End:Jump");
    assert_eq!(log.hint_text(), "Up/Down:Scroll  Home/End:Jump");
}

use nephila::layout::{
    centered_rect, centred_sizes, debug_first_line, debug_overlay_area, overview_row_sizes, AppLayout, AppLayoutWithSession,
    Area, Size,
};

#[test]
fn layouts_split_the_screen() {
    let screen = Area { x: 0, y: 0, width: 100, height: 40 };
    let overview = AppLayout::compute_with_focus(screen, false);
    assert_eq!(overview.hotkey_bar, Area { x: 0, y: 38, width: 100, height: 2 });
    assert_eq!(overview.event_log.height, 15);
    assert_eq!(overview.objective_tree.width, 40);
    assert_eq!(overview.agent_tree.x, 40);
    let focused = AppLayout::compute_with_focus(screen, true);
    assert_eq!(focused.objective_tree.height, 5);
    let session = AppLayoutWithSession::compute(screen);
    assert_eq!(session.agent_tree.width, 20);
    assert_eq!(session.session_pane.width, 60);
    assert_eq!(session.event_log.width, 20);
    let popup = centered_rect(60, 50, screen);
    assert_eq!(popup, Area { x: 20, y: 10, width: 60, height: 20 });
}

#[test]
fn debug_overlay_geometry() {
    assert_eq!(debug_overlay_area(Area { x: 0, y: 0, width: 80, height: 40 }), Area { x: 0, y: 20, width: 80, height: 20 });
    assert_eq!(debug_overlay_area(Area { x: 0, y: 0, width: 80, height: 6 }), Area { x: 0, y: 1, width: 80, height: 5 });
    assert_eq!(debug_overlay_area(Area { x: 0, y: 0, width: 80, height: 3 }).y, 0);
    assert_eq!(debug_first_line(100, 10, 0), 90);
    assert_eq!(debug_first_line(100, 10, 5), 85);
    assert_eq!(debug_first_line(100, 10, 500), 0);
    assert_eq!(debug_first_line(4, 10, 0), 0);
}

#[test]
fn layouts_take_their_parts_in_order() {
    let a = |n: u16| Area { x: n, y: n, width: 1, height: 1 };
    let overview = AppLayout::from_parts(&vec![a(0), a(1), a(2)], &vec![a(3), a(4)]);
    assert_eq!(overview, AppLayout { objective_tree: a(3), agent_tree: a(4), event_log: a(1), hotkey_bar: a(2) });
    let session = AppLayoutWithSession::from_parts(&vec![a(0), a(1)], &vec![a(2), a(3), a(4)]);
    assert_eq!(session, AppLayoutWithSession { agent_tree: a(2), session_pane: a(3), event_log: a(4), hotkey_bar: a(1) });
    assert_eq!(centred_sizes(60), vec![Size::Percentage(20), Size::Percentage(60), Size::Percentage(20)]);
    assert_eq!(centred_sizes(51), vec![Size::Percentage(24), Size::Percentage(51), Size::Percentage(24)]);
    assert_eq!(overview_row_sizes(true), vec![Size::Length(5), Size::Min(10), Size::Length(2)]);
    assert_eq!(overview_row_sizes(false), vec![Size::Min(10), Size::Length(15), Size::Length(2)]);
}
