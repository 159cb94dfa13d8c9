use vstd::prelude::*;

verus! {

/// What asking an editor to take the keyboard focus came to.
#[derive(Debug, Clone, Copy, PartialEq, Eq, Structural)]
pub enum EditorWidgetFocusResult {
    Unfocusable,
    Focused,
    NotFocused,
}

impl EditorWidgetFocusResult {
    /// The outcome of a focus request: an editor without a focusable widget
    /// is unfocusable (`None`); otherwise the widget took the focus or not.
    pub fn from_grab(grabbed: Option<bool>) -> (r: EditorWidgetFocusResult)
        ensures
            r == match grabbed {
                None => EditorWidgetFocusResult::Unfocusable,
                Some(true) => EditorWidgetFocusResult::Focused,
                Some(false) => EditorWidgetFocusResult::NotFocused,
            },
    {
        match grabbed {
            Some(true) => EditorWidgetFocusResult::Focused,
            Some(false) => EditorWidgetFocusResult::NotFocused,
            None => EditorWidgetFocusResult::Unfocusable,
        }
    }
}

} // verus!
