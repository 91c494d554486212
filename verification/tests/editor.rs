use session_actor::editor::Editor;

#[test]
fn editor_starts_with_the_given_dimensions() {
    let e = Editor::new(24, 80);
    assert_eq!(e.rows, 24);
    assert_eq!(e.cols, 80);
}

#[test]
fn resize_propagates_both_dimensions() {
    let mut e = Editor::new(24, 80);
    e.resize(50, 132);
    assert_eq!(e.rows, 50);
    assert_eq!(e.cols, 132);
    e.resize(1, 1);
    assert_eq!(e.rows, 1);
    assert_eq!(e.cols, 1);
}
