use nephila::goals::{editor_argv, extract_title, goal_file_names, goal_path, reconcile_with_mapping, select_goal_paths, GoalMapping};
use nephila::paths::{extension_of, file_name_of, file_stem_of, path_order_of};
use nephila::ids::ObjectiveId;
use nephila::lines::{lines_of, split_words, trim_bounds};
use nephila::tree::{GoalObjective, ObjectiveStatus};

#[test]
fn goal_objective_from_file_uses_heading_as_title() {
    let goal = GoalObjective::from_path_and_contents("dir/my-feature.md".into(), "# Refactor Auth\n\nDetails here.".into());
    assert_eq!(goal.title, "Refactor Auth");
    assert!(goal.content.contains("Details here."));
    assert_eq!(goal.status, ObjectiveStatus::Pending);
    assert!(goal.id.is_none());
    assert!(goal.agent_id.is_none());
    assert!(goal.children.is_empty());
}

#[test]
fn goal_objective_from_file_falls_back_to_filename() {
    let goal = GoalObjective::from_path_and_contents("dir/fix-ci.md".into(), "No heading, just text.".into());
    assert_eq!(goal.title, "fix-ci");
}

#[test]
fn goal_without_heading_or_stem_is_untitled() {
    let goal = GoalObjective::from_path_and_contents("dir/..".into(), "#no space\n#\n".into());
    assert_eq!(goal.title, "untitled");
}

#[test]
fn extract_title_takes_first_non_blank_heading() {
    assert_eq!(extract_title("intro\n  #   \n   #  Real Title  \r\n# Later"), Some("Real Title".to_string()));
    assert_eq!(extract_title("## Sub\n#Tight"), None);
    assert_eq!(extract_title(""), None);
    assert_eq!(extract_title("\u{3000}# Wide\u{2003}"), Some("Wide".to_string()));
}

#[test]
fn reconcile_assigns_ids_from_mapping() {
    let id = ObjectiveId(0x1234);
    let mut mapping = GoalMapping { entries: vec![("task-a.md".to_string(), id)] };
    let mut goals = vec![GoalObjective::from_path_and_contents("goals/task-a.md".into(), "# Task A".into())];
    let names = vec![Some("task-a.md".to_string())];
    let changed = reconcile_with_mapping(&mut goals, &names, &mut mapping);

    assert_eq!(goals[0].id, Some(id));
    assert!(!changed);
}

#[test]
fn reconcile_records_new_names_and_then_settles() {
    let mut mapping = GoalMapping { entries: vec![] };
    let mut goals = vec![
        GoalObjective::from_path_and_contents("g/a.md".into(), "# A".into()),
        GoalObjective::from_path_and_contents("g/b.md".into(), "# B".into()),
    ];
    let names = vec![Some("a.md".to_string()), None];
    assert!(reconcile_with_mapping(&mut goals, &names, &mut mapping));
    assert_eq!(mapping.entries.len(), 1);
    let a = goals[0].id.expect("named goal gets an id");
    assert_eq!(mapping.get(&"a.md".to_string()), Some(a));
    assert!(goals[1].id.is_none());

    assert!(!reconcile_with_mapping(&mut goals, &names, &mut mapping));
    assert_eq!(goals[0].id, Some(a));
    assert_eq!(mapping.entries.len(), 1);
}

#[test]
fn lines_follow_str_lines() {
    for text in ["a\nb", "a\r\nb\r\n", "\n", "", "x\r", "one\n\ntwo"] {
        let expected: Vec<String> = text.lines().map(|l| l.to_string()).collect();
        assert_eq!(lines_of(text), expected, "text {text:?}");
    }
}

#[test]
fn trim_bounds_match_str_trim() {
    let text = " \t héllo wörld \u{a0}";
    let chars: Vec<char> = text.chars().collect();
    let (lo, hi) = trim_bounds(&chars, 0, chars.len());
    let trimmed: String = chars[lo..hi].iter().collect();
    assert_eq!(trimmed, text.trim());
}

#[test]
fn mapping_record_reads_every_id_or_none() {
    let raw = vec![
        ("a.md".to_string(), "67e55044-10b1-426f-9247-bb680e5fe0c8".to_string()),
        ("b.md".to_string(), "00000000-0000-0000-0000-000000000002".to_string()),
    ];
    let m = GoalMapping::from_texts(raw).expect("all ids are UUIDs");
    assert_eq!(m.entries.len(), 2);
    assert_eq!(m.get(&"a.md".to_string()), Some(ObjectiveId(0x67e5504410b1426f9247bb680e5fe0c8)));
    assert_eq!(m.get(&"b.md".to_string()), Some(ObjectiveId(2)));

    let broken = vec![
        ("a.md".to_string(), "67e55044-10b1-426f-9247-bb680e5fe0c8".to_string()),
        ("b.md".to_string(), "not-an-id".to_string()),
    ];
    assert!(GoalMapping::from_texts(broken).is_none());
    assert_eq!(GoalMapping::from_texts(vec![]).map(|m| m.entries.len()), Some(0));
}

#[test]
fn editor_setting_splits_into_program_and_arguments() {
    let (program, args) = editor_argv("code --wait");
    assert_eq!(program, "code");
    assert_eq!(args, vec!["--wait".to_string()]);
    let (program, args) = editor_argv("  emacs\t-nw  \n --no-splash ");
    assert_eq!(program, "emacs");
    assert_eq!(args, vec!["-nw".to_string(), "--no-splash".to_string()]);
    let (program, args) = editor_argv("   ");
    assert_eq!(program, "vi");
    assert!(args.is_empty());
    let (program, args) = editor_argv("");
    assert_eq!(program, "vi");
    assert!(args.is_empty());
}

#[test]
fn words_split_at_unicode_white_space() {
    assert_eq!(split_words("a\u{3000}b\u{85}c  d"), vec!["a", "b", "c", "d"]);
    assert!(split_words("").is_empty());
    assert_eq!(split_words("one"), vec!["one"]);
}

#[test]
fn file_stem_follows_path_file_stem() {
    let stem = |p: &str| file_stem_of(&p.to_string());
    assert_eq!(stem("a.md"), Some("a".to_string()));
    assert_eq!(stem("dir/fix-ci.md"), Some("fix-ci".to_string()));
    assert_eq!(stem("dir/.hidden"), Some(".hidden".to_string()));
    assert_eq!(stem("x.tar.gz"), Some("x.tar".to_string()));
    assert_eq!(stem("dir/"), Some("dir".to_string()));
    assert_eq!(stem("dir/./"), Some("dir".to_string()));
    assert_eq!(stem(".."), None);
    assert_eq!(stem("/"), None);
    assert_eq!(stem(""), None);
}

#[test]
fn file_name_and_extension_follow_path() {
    assert_eq!(file_name_of(&"g/fix-ci.md".to_string()), Some("fix-ci.md".to_string()));
    assert_eq!(file_name_of(&"a/b/..".to_string()), None);
    assert_eq!(extension_of(&"x.tar.gz".to_string()), Some("gz".to_string()));
    assert_eq!(extension_of(&".hidden".to_string()), None);
    assert_eq!(extension_of(&"notes.".to_string()), Some("".to_string()));
    assert!(goal_path(&"g/a.md".to_string()));
    assert!(!goal_path(&"g/a.md.bak".to_string()));
    assert!(!goal_path(&"g/.md".to_string()));
}

#[test]
fn goal_file_names_are_the_paths_file_names() {
    let goals = vec![
        GoalObjective::from_path_and_contents("goals/a.md".into(), "# A".into()),
        GoalObjective::from_path_and_contents("..".into(), "# B".into()),
    ];
    assert_eq!(goal_file_names(&goals), vec![Some("a.md".to_string()), None]);
}

#[test]
fn path_order_compares_components() {
    let order = |p: &str, q: &str| path_order_of(&p.to_string(), &q.to_string());
    assert_eq!(order("g/a.md", "g/b.md"), -1);
    assert_eq!(order("g/b.md", "g/a.md"), 1);
    assert_eq!(order("g//a.md", "g/./a.md"), 0);
    assert_eq!(order("a/b", "a.b"), -1);
    assert_eq!(order("/z", "a"), -1);
    assert_eq!(order("..", "a"), -1);
    assert_eq!(order("g", "g/a"), -1);
    for (p, q) in [("g/a.md", "g/b.md"), ("a/b", "a.b"), ("/z", "./a"), ("x/../y", "x/y"), ("g", "g/a")] {
        let (a, b) = (std::path::Path::new(p), std::path::Path::new(q));
        let expected: i8 = if a < b { -1 } else if a > b { 1 } else { 0 };
        assert_eq!(order(p, q), expected);
    }
}

#[test]
fn select_goal_paths_keeps_markdown_files_in_path_order() {
    let paths = vec![
        "goals/zeta.md".to_string(),
        "goals/notes.txt".to_string(),
        "goals/alpha.md".to_string(),
        "goals/Beta.md".to_string(),
        "goals/draft.md.bak".to_string(),
    ];
    assert_eq!(
        select_goal_paths(paths),
        vec!["goals/Beta.md".to_string(), "goals/alpha.md".to_string(), "goals/zeta.md".to_string()]
    );
    assert!(select_goal_paths(vec!["a.txt".to_string()]).is_empty());
}
