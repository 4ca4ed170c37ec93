//! The ways in which a call to the controller fails.

use vstd::prelude::*;

verus! {

/// Why a call ended without success. Every failure ends the call at once:
/// nothing is tried again and nothing already applied is taken back.
#[derive(Debug, PartialEq, Eq)]
pub enum ControllerError {
    /// The host has no window of the name the call asked for.
    WindowNotFound,
    /// The host could not apply the size or the position; its description.
    GeometryApplyError(String),
    /// The host could not tell whether the window is visible; its description.
    VisibilityReadError(String),
    /// The host could not hide or show the window; its description.
    VisibilityChangeError(String),
    /// The window was shown, but the host could not give it the input
    /// focus; its description. The window stays visible.
    FocusGrantError(String),
}

impl Clone for ControllerError {
    fn clone(&self) -> (cloned: Self)
        ensures
            cloned == *self,
    {
        match self {
            ControllerError::WindowNotFound => ControllerError::WindowNotFound,
            ControllerError::GeometryApplyError(description) => ControllerError::GeometryApplyError(
                description.clone(),
            ),
            ControllerError::VisibilityReadError(description) => {
                ControllerError::VisibilityReadError(description.clone())
            },
            ControllerError::VisibilityChangeError(description) => {
                ControllerError::VisibilityChangeError(description.clone())
            },
            ControllerError::FocusGrantError(description) => ControllerError::FocusGrantError(
                description.clone(),
            ),
        }
    }
}

/// What a caller is told when the window does not exist.
pub open spec fn window_not_found_text() -> Seq<char> {
    "Window not found"@
}

impl ControllerError {
    /// The text of the failure: the host's description as it came, or the
    /// fixed text for a missing window.
    pub open spec fn message_text(self) -> Seq<char> {
        match self {
            ControllerError::WindowNotFound => window_not_found_text(),
            ControllerError::GeometryApplyError(description) => description@,
            ControllerError::VisibilityReadError(description) => description@,
            ControllerError::VisibilityChangeError(description) => description@,
            ControllerError::FocusGrantError(description) => description@,
        }
    }

    /// The failure left the window changed: it is visible now, though the
    /// call failed.
    pub open spec fn left_window_visible(self) -> bool {
        self is FocusGrantError
    }

    /// The failure as the one line of text that callers are shown.
    pub fn message(&self) -> (text: String)
        ensures
            text@ == self.message_text(),
    {
        match self {
            ControllerError::WindowNotFound => String::from_str("Window not found"),
            ControllerError::GeometryApplyError(description) => description.clone(),
            ControllerError::VisibilityReadError(description) => description.clone(),
            ControllerError::VisibilityChangeError(description) => description.clone(),
            ControllerError::FocusGrantError(description) => description.clone(),
        }
    }

    /// Whether the window is visible after this failure although the call
    /// did not succeed: true of a failed focus grant alone.
    pub fn window_left_visible(&self) -> (visible: bool)
        ensures
            visible == self.left_window_visible(),
    {
        match self {
            ControllerError::FocusGrantError(_) => true,
            _ => false,
        }
    }
}

} // verus!
