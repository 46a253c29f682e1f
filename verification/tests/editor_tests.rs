use cloud_manage::editor::{
    effective_width, erase_moves, is_control, prompt_layout, EditKey, KeyOutcome, LineEditor,
};

fn apply(e: &mut LineEditor, keys: &[EditKey]) -> KeyOutcome {
    let mut last = KeyOutcome::Ignore;
    for k in keys {
        last = e.apply_key(*k, 10, 80);
    }
    last
}

#[test]
fn untouched_default_is_accepted() {
    let mut e = LineEditor::new("1.15");
    assert_eq!(e.apply_key(EditKey::Enter, 10, 80), KeyOutcome::Accept);
    assert_eq!(e.answer("10.0."), "10.0.1.15");
}

#[test]
fn typing_overwrites_ghost_text() {
    let mut e = LineEditor::new("abc");
    assert_eq!(apply(&mut e, &[EditKey::Char('x'), EditKey::Char('y')]), KeyOutcome::Redraw);
    assert_eq!(e.answer(""), "xyc");
    assert_eq!(e.cursor(), 2);
    apply(&mut e, &[EditKey::Char('z'), EditKey::Char('w')]);
    assert_eq!(e.answer(""), "xyzw");
    assert_eq!(e.len(), 4);
}

#[test]
fn type_then_backspace_at_end_restores() {
    let mut e = LineEditor::new("ab");
    apply(&mut e, &[EditKey::End]);
    apply(&mut e, &[EditKey::Char('q'), EditKey::Backspace]);
    assert_eq!(e.answer(""), "ab");
    assert_eq!(e.cursor(), 2);
}

#[test]
fn cursor_movement_and_deletion() {
    let mut e = LineEditor::new("hello");
    apply(&mut e, &[EditKey::ArrowLeft]);
    assert_eq!(e.cursor(), 0);
    apply(&mut e, &[EditKey::ArrowRight, EditKey::ArrowRight, EditKey::Del]);
    assert_eq!(e.answer(""), "helo");
    assert_eq!(e.cursor(), 2);
    apply(&mut e, &[EditKey::Backspace]);
    assert_eq!(e.answer(""), "hlo");
    assert_eq!(e.split_at_cursor(), ("h".to_string(), "lo".to_string()));
    apply(&mut e, &[EditKey::End, EditKey::ArrowRight]);
    assert_eq!(e.cursor(), 3);
    apply(&mut e, &[EditKey::Home, EditKey::Backspace]);
    assert_eq!(e.cursor(), 0);
    assert_eq!(e.answer(""), "hlo");
    assert_eq!(e.apply_key(EditKey::Char('\u{7}'), 10, 80), KeyOutcome::Ignore);
    assert_eq!(e.apply_key(EditKey::Other, 10, 80), KeyOutcome::Ignore);
    assert_eq!(e.answer(""), "hlo");
}

#[test]
fn vertical_movement_over_wrapped_lines() {
    let text: String = std::iter::repeat('a').take(30).collect();
    let mut e = LineEditor::new(&text);
    // width 10, header 4: cursor 0 is at absolute column 4.
    e.apply_key(EditKey::ArrowDown, 4, 10);
    assert_eq!(e.cursor(), 10);
    e.apply_key(EditKey::ArrowDown, 4, 10);
    assert_eq!(e.cursor(), 20);
    e.apply_key(EditKey::ArrowDown, 4, 10);
    assert_eq!(e.cursor(), 30);
    e.apply_key(EditKey::ArrowDown, 4, 10);
    assert_eq!(e.cursor(), 30);
    e.apply_key(EditKey::ArrowUp, 4, 10);
    assert_eq!(e.cursor(), 20);
    e.apply_key(EditKey::Home, 4, 10);
    e.apply_key(EditKey::ArrowRight, 4, 10);
    e.apply_key(EditKey::ArrowUp, 4, 10);
    assert_eq!(e.cursor(), 0);
}

#[test]
fn layout_arithmetic() {
    let l = prompt_layout(10, 25, 5, 20);
    assert_eq!(l.total_lines, 2);
    assert_eq!(l.after_row, 1);
    assert_eq!(l.target_row, 0);
    assert_eq!(l.target_col, 15);
    assert_eq!(l.up, 1);
    let z = prompt_layout(0, 0, 0, 80);
    assert_eq!(z.total_lines, 1);
    assert_eq!(z.after_row, 0);
    assert_eq!(z.up, 0);
    let exact = prompt_layout(10, 10, 10, 20);
    assert_eq!(exact.total_lines, 1);
    assert_eq!(exact.after_row, 0);
    assert_eq!(exact.target_row, 1);
    assert_eq!(exact.target_col, 0);
    assert_eq!(exact.up, 0);
    assert_eq!(erase_moves(3, 1), (1, 2));
    assert_eq!(erase_moves(1, 4), (0, 0));
    assert_eq!(effective_width(0), 80);
    assert_eq!(effective_width(120), 120);
    assert!(is_control('\n'));
    assert!(!is_control('a'));
}
