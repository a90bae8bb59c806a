use nephila::ids::{AgentId, CheckpointVersion};
use nephila::modal::{picker_lines, CheckpointSummary, Modal};
use nephila::modal_view::{LineStyle, Tone};

fn lines_of(m: &Modal) -> Vec<(String, LineStyle)> {
    m.body_lines().into_iter().map(|l| (l.text, l.style)).collect()
}

#[test]
fn modal_is_open() {
    assert!(!Modal::Closed.is_open());
    assert!(Modal::Help.is_open());
    assert!(Modal::HitlResponse {
        agent_id: AgentId(7),
        question: "q".into(),
        options: vec!["a".into()],
        selected: 0,
    }
    .is_open());
}

#[test]
fn hitl_modal_navigate() {
    let mut modal = Modal::HitlResponse {
        agent_id: AgentId(1),
        question: "pick".into(),
        options: vec!["a".into(), "b".into(), "c".into()],
        selected: 0,
    };
    modal.move_down();
    assert_eq!(modal.selected_index(), Some(1));
    modal.move_down();
    assert_eq!(modal.selected_index(), Some(2));
    modal.move_down();
    assert_eq!(modal.selected_index(), Some(2));
    modal.move_up();
    assert_eq!(modal.selected_index(), Some(1));
}

#[test]
fn rollback_picker_navigate() {
    let mut modal = Modal::RollbackPicker {
        agent_id: AgentId(2),
        versions: vec![
            CheckpointSummary { version: CheckpointVersion(1), timestamp_ms: 0, summary: "v1".into() },
            CheckpointSummary { version: CheckpointVersion(2), timestamp_ms: 0, summary: "v2".into() },
        ],
        selected: 0,
    };
    modal.move_down();
    assert_eq!(modal.selected_index(), Some(1));
}

#[test]
fn file_picker_navigate() {
    let mut modal = Modal::FilePicker { files: vec!["a.md".into(), "b.md".into()], selected: 0 };
    modal.move_down();
    assert_eq!(modal.selected_index(), Some(1));
    modal.move_up();
    assert_eq!(modal.selected_index(), Some(0));
}

#[test]
fn move_up_stops_at_first_entry_and_other_modals_have_no_selection() {
    let mut modal = Modal::FilePicker { files: vec!["a.md".into()], selected: 0 };
    modal.move_up();
    assert_eq!(modal.selected_index(), Some(0));
    modal.move_down();
    assert_eq!(modal.selected_index(), Some(0));
    assert_eq!(modal.item_count(), 1);
    let mut help = Modal::Help;
    help.move_down();
    assert_eq!(help.selected_index(), None);
    assert_eq!(help.item_count(), 0);
    assert!(matches!(Modal::default(), Modal::Closed));
}

#[test]
fn picker_lines_mark_the_selected_entry() {
    let items = vec!["one".to_string(), "two".to_string()];
    assert_eq!(picker_lines(&items, 1), vec!["   one".to_string(), " > two".to_string()]);
}

#[test]
fn hitl_modal_shows_question_options_and_hint() {
    let modal = Modal::HitlResponse {
        agent_id: AgentId(0x550e8400e29b41d4a716446655440000),
        question: "Proceed?".into(),
        options: vec!["yes".into(), "no".into()],
        selected: 1,
    };
    assert_eq!(modal.title_text(), " Agent 550e8400-e29b-41d4-a716-446655440000 asks: ");
    assert_eq!(modal.tone(), Tone::Yellow);
    assert_eq!(
        lines_of(&modal),
        vec![
            ("Proceed?".to_string(), LineStyle::Plain),
            (String::new(), LineStyle::Plain),
            ("   yes".to_string(), LineStyle::Plain),
            (" > no".to_string(), LineStyle::Selected),
            (String::new(), LineStyle::Plain),
            (" [Enter: Select]  [Esc: Dismiss]".to_string(), LineStyle::Hint),
        ]
    );
}

#[test]
fn rollback_modal_lists_versions_with_summaries() {
    let modal = Modal::RollbackPicker {
        agent_id: AgentId(1),
        versions: vec![
            CheckpointSummary { version: CheckpointVersion(12), timestamp_ms: 0, summary: "first".into() },
            CheckpointSummary { version: CheckpointVersion(3), timestamp_ms: 0, summary: "second".into() },
        ],
        selected: 0,
    };
    assert_eq!(modal.title_text(), " Rollback 00000000-0000-0000-0000-000000000001 ");
    let lines = lines_of(&modal);
    assert_eq!(lines[0].0, "Select checkpoint version:");
    assert_eq!(lines[2], (" > 12 \u{2014} first".to_string(), LineStyle::Selected));
    assert_eq!(lines[3], ("   3 \u{2014} second".to_string(), LineStyle::Plain));
    assert_eq!(lines[5].0, " [Enter: Select]  [Esc: Cancel]");
}

#[test]
fn file_picker_view_delete_and_help_lines() {
    let picker = Modal::FilePicker { files: vec!["g/a.md".into(), "g/b.md".into()], selected: 1 };
    assert_eq!(picker.title_text(), " Select Goal File ");
    assert_eq!(
        lines_of(&picker),
        vec![
            ("   a".to_string(), LineStyle::Plain),
            (" > b".to_string(), LineStyle::Selected),
            (String::new(), LineStyle::Plain),
            (" [Enter: Select]  [Esc: Cancel]".to_string(), LineStyle::Hint),
        ]
    );

    let view = Modal::View { title: "T".into(), content: "one\r\ntwo\n".into() };
    assert_eq!(view.title_text(), " T ");
    assert_eq!(view.tone(), Tone::Blue);
    let v: Vec<String> = lines_of(&view).into_iter().map(|l| l.0).collect();
    assert_eq!(v, vec!["one", "two", "", " [Esc: Close]"]);

    let del = Modal::ConfirmDelete { path: "g/a.md".into(), title: "Alpha".into() };
    assert_eq!(del.tone(), Tone::Red);
    assert_eq!(lines_of(&del)[1].0, "  Delete \"Alpha\"?");

    let help = lines_of(&Modal::Help);
    assert_eq!(help.len(), 17);
    assert_eq!(help[0].0, "  Tab / Shift+Tab  Cycle focus");
    assert_eq!(help[16], (" [Esc: Close]".to_string(), LineStyle::Hint));
    assert!(lines_of(&Modal::Closed).is_empty());
}

#[test]
fn file_picker_shows_each_file_stem() {
    let picker = Modal::FilePicker {
        files: vec!["a.md".into(), "dir/fix-ci.md".into(), ".hidden".into(), "x.tar.gz".into(), "..".into(), "/".into()],
        selected: 0,
    };
    let names: Vec<String> = lines_of(&picker).into_iter().take(6).map(|l| l.0).collect();
    assert_eq!(names, vec![" > a", "   fix-ci", "   .hidden", "   x.tar", "   ???", "   ???"]);
}
