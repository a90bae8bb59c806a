use nephila::input::{char_idx_to_byte, InputAction, InputState, KeyCode, KeyEvent, PaneMode};

fn key(code: KeyCode) -> KeyEvent {
    KeyEvent::new(code, false)
}

fn key_ctrl(code: KeyCode) -> KeyEvent {
    KeyEvent::new(code, true)
}

#[test]
fn normal_i_enters_input_mode() {
    let mut s = InputState::new();
    let action = s.handle_key(key(KeyCode::Char('i')));
    assert!(matches!(action, InputAction::Idle));
    assert_eq!(s.mode(), PaneMode::Input);
}

#[test]
fn normal_q_closes_pane() {
    let mut s = InputState::new();
    assert!(matches!(s.handle_key(key(KeyCode::Char('q'))), InputAction::ClosePane));
}

#[test]
fn normal_j_k_scroll() {
    let mut s = InputState::new();
    assert!(matches!(s.handle_key(key(KeyCode::Char('j'))), InputAction::ScrollDown(1)));
    assert!(matches!(s.handle_key(key(KeyCode::Char('k'))), InputAction::ScrollUp(1)));
}

#[test]
fn normal_esc_returns_to_global() {
    let mut s = InputState::new();
    assert!(matches!(s.handle_key(key(KeyCode::Esc)), InputAction::ReturnToGlobal));
}

#[test]
fn input_esc_returns_to_normal() {
    let mut s = InputState::new();
    s.handle_key(key(KeyCode::Char('i')));
    assert_eq!(s.mode(), PaneMode::Input);
    assert!(matches!(s.handle_key(key(KeyCode::Esc)), InputAction::Idle));
    assert_eq!(s.mode(), PaneMode::Normal);
}

#[test]
fn input_ctrl_enter_submits_and_resets() {
    let mut s = InputState::new();
    s.handle_key(key(KeyCode::Char('i')));
    for c in "hi".chars() {
        s.handle_key(key(KeyCode::Char(c)));
    }
    let action = s.handle_key(key_ctrl(KeyCode::Enter));
    match action {
        InputAction::Submit(text) => assert_eq!(text, "hi"),
        other => panic!("expected Submit, got {other:?}"),
    }
    assert_eq!(s.mode(), PaneMode::Normal);
    assert_eq!(s.lines(), &[""]);
}

#[test]
fn input_enter_inserts_newline() {
    let mut s = InputState::new();
    s.handle_key(key(KeyCode::Char('i')));
    for c in "ab".chars() {
        s.handle_key(key(KeyCode::Char(c)));
    }
    s.handle_key(key(KeyCode::Enter));
    for c in "cd".chars() {
        s.handle_key(key(KeyCode::Char(c)));
    }
    assert_eq!(s.lines(), &["ab", "cd"]);
    assert_eq!(s.cursor(), (1, 2));
}

#[test]
fn input_backspace_removes_char() {
    let mut s = InputState::new();
    s.handle_key(key(KeyCode::Char('i')));
    for c in "ab".chars() {
        s.handle_key(key(KeyCode::Char(c)));
    }
    s.handle_key(key(KeyCode::Backspace));
    assert_eq!(s.lines(), &["a"]);
    assert_eq!(s.cursor(), (0, 1));
}

#[test]
fn input_backspace_at_line_start_joins_lines() {
    let mut s = InputState::new();
    s.handle_key(key(KeyCode::Char('i')));
    s.handle_key(key(KeyCode::Char('a')));
    s.handle_key(key(KeyCode::Enter));
    s.handle_key(key(KeyCode::Char('b')));
    s.handle_key(key(KeyCode::Home));
    s.handle_key(key(KeyCode::Backspace));
    assert_eq!(s.lines(), &["ab"]);
    assert_eq!(s.cursor(), (0, 1));
}

#[test]
fn input_arrows_move_cursor() {
    let mut s = InputState::new();
    s.handle_key(key(KeyCode::Char('i')));
    for c in "ab".chars() {
        s.handle_key(key(KeyCode::Char(c)));
    }
    s.handle_key(key(KeyCode::Left));
    assert_eq!(s.cursor(), (0, 1));
    s.handle_key(key(KeyCode::Home));
    assert_eq!(s.cursor(), (0, 0));
    s.handle_key(key(KeyCode::End));
    assert_eq!(s.cursor(), (0, 2));
}

#[test]
fn input_handles_unicode_chars() {
    let mut s = InputState::new();
    s.handle_key(key(KeyCode::Char('i')));
    for c in "héllo".chars() {
        s.handle_key(key(KeyCode::Char(c)));
    }
    assert_eq!(s.lines(), &["héllo"]);
    let action = s.handle_key(key_ctrl(KeyCode::Enter));
    match action {
        InputAction::Submit(t) => assert_eq!(t, "héllo"),
        other => panic!("expected Submit, got {other:?}"),
    }
}

#[test]
fn insert_then_backspace_restores_the_buffer() {
    let mut s = InputState::new();
    s.handle_key(key(KeyCode::Char('i')));
    for c in "xyz".chars() {
        s.handle_key(key(KeyCode::Char(c)));
    }
    s.handle_key(key(KeyCode::Left));
    let before: Vec<String> = s.lines().to_vec();
    let cursor = s.cursor();
    s.handle_key(key(KeyCode::Char('Q')));
    assert_eq!(s.lines(), &["xyQz"]);
    s.handle_key(key(KeyCode::Backspace));
    assert_eq!(s.lines(), before.as_slice());
    assert_eq!(s.cursor(), cursor);
}

#[test]
fn vertical_moves_clamp_to_line_length_and_ctrl_chars_are_ignored() {
    let mut s = InputState::new();
    s.handle_key(key(KeyCode::Char('i')));
    s.handle_key(key(KeyCode::Char('a')));
    s.handle_key(key(KeyCode::Enter));
    for c in "long".chars() {
        s.handle_key(key(KeyCode::Char(c)));
    }
    s.handle_key(key(KeyCode::Up));
    assert_eq!(s.cursor(), (0, 1));
    s.handle_key(key(KeyCode::Down));
    assert_eq!(s.cursor(), (1, 1));
    s.handle_key(key_ctrl(KeyCode::Char('x')));
    assert_eq!(s.lines(), &["a", "long"]);
    s.handle_key(key(KeyCode::Right));
    s.handle_key(key(KeyCode::Right));
    s.handle_key(key(KeyCode::Right));
    s.handle_key(key(KeyCode::Right));
    assert_eq!(s.cursor(), (1, 4));
}

#[test]
fn helper_methods_edit_the_buffer() {
    let mut s = InputState::default();
    s.insert_char('a');
    s.insert_char('b');
    s.move_left();
    s.insert_newline();
    assert_eq!(s.lines(), &["a", "b"]);
    assert_eq!(s.current_line_len(), 1);
    assert_eq!(s.collect_text(), "a\nb");
    s.move_up();
    assert_eq!(s.cursor(), (0, 0));
    s.move_right();
    s.move_right();
    assert_eq!(s.cursor(), (1, 0));
    s.move_down();
    s.backspace();
    assert_eq!(s.lines(), &["ab"]);
    s.reset();
    assert_eq!(s.lines(), &[""]);
    assert_eq!(s.cursor(), (0, 0));
}

#[test]
fn char_index_maps_to_utf8_byte_offset() {
    let s = "héllo";
    assert_eq!(char_idx_to_byte(s, 0), 0);
    assert_eq!(char_idx_to_byte(s, 1), 1);
    assert_eq!(char_idx_to_byte(s, 2), 3);
    assert_eq!(char_idx_to_byte(s, 5), 6);
    assert_eq!(char_idx_to_byte(s, 99), s.len());
    assert_eq!(char_idx_to_byte("a𝄞b", 2), 5);
}

#[test]
fn keys_at_an_edge_and_unbound_keys_change_nothing() {
    let mut s = InputState::new();
    s.handle_key(key(KeyCode::Char('i')));
    for c in "ab".chars() {
        s.handle_key(key(KeyCode::Char(c)));
    }
    for k in [key(KeyCode::Right), key(KeyCode::Up), key(KeyCode::Down), key(KeyCode::Tab), key(KeyCode::Delete)] {
        assert!(matches!(s.handle_key(k), InputAction::Idle));
        assert_eq!(s.lines(), &["ab"]);
        assert_eq!(s.cursor(), (0, 2));
        assert_eq!(s.mode(), PaneMode::Input);
    }
    s.handle_key(key(KeyCode::Home));
    for k in [key(KeyCode::Backspace), key(KeyCode::Left), key_ctrl(KeyCode::Char('z'))] {
        assert!(matches!(s.handle_key(k), InputAction::Idle));
        assert_eq!(s.lines(), &["ab"]);
        assert_eq!(s.cursor(), (0, 0));
    }
    s.handle_key(key(KeyCode::Right));
    s.handle_key(key(KeyCode::Char('é')));
    assert_eq!(s.lines(), &["aéb"]);
    assert_eq!(s.cursor(), (0, 2));
}
