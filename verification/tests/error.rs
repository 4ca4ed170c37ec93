use topbar::error::ControllerError;

#[test]
fn missing_window_has_its_fixed_text() {
    assert_eq!(ControllerError::WindowNotFound.message(), "Window not found");
    assert!(!ControllerError::WindowNotFound.window_left_visible());
}

#[test]
fn host_descriptions_are_passed_on_verbatim() {
    let text = "  failed: \u{fc}ber {0} \n";
    let errors = vec![
        ControllerError::GeometryApplyError(String::from(text)),
        ControllerError::VisibilityReadError(String::from(text)),
        ControllerError::VisibilityChangeError(String::from(text)),
        ControllerError::FocusGrantError(String::from(text)),
    ];
    for error in errors {
        assert_eq!(error.message(), text);
    }
    assert_eq!(ControllerError::GeometryApplyError(String::new()).message(), "");
}

#[test]
fn only_a_failed_focus_grant_leaves_the_window_visible() {
    assert!(ControllerError::FocusGrantError(String::from("x")).window_left_visible());
    assert!(!ControllerError::GeometryApplyError(String::from("x")).window_left_visible());
    assert!(!ControllerError::VisibilityReadError(String::from("x")).window_left_visible());
    assert!(!ControllerError::VisibilityChangeError(String::from("x")).window_left_visible());
}
