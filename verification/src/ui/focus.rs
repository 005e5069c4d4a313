use vstd::prelude::*;

use super::widget_id::{acquire_widget_id, WidgetId, WidgetIdCounter};

verus! {

/// The propagating events that a focus area looks at.
#[derive(Clone, Copy, Debug, PartialEq, Eq, Structural)]
pub enum FocusInput {
    /// A mouse button changed state.
    MouseInput { pressed: bool, left_button: bool },
    /// The visibility of the area changed; `handles_events` tells whether
    /// the new visibility still lets it handle events.
    VisibilityChanged { handles_events: bool },
    Other,
}

/// What a focus area asks of the user interface.
#[derive(Clone, Copy, Debug, PartialEq, Eq, Structural)]
pub enum FocusRequest {
    Nothing,
    /// Make this area the focused widget.
    FocusSelf,
    /// Leave no widget focused.
    ClearFocus,
}

/// An area that takes the keyboard focus for its owner when clicked; it
/// must be a child of a stack with no padding.
pub struct Focus {
    id: WidgetId,
    owner: WidgetId,
    focused: bool,
}

impl Focus {
    /// The area's widget id.
    pub closed spec fn spec_id(&self) -> WidgetId {
        self.id
    }

    /// The widget whose focus this area handles.
    pub closed spec fn spec_owner(&self) -> WidgetId {
        self.owner
    }

    /// Whether the area has the focus.
    pub closed spec fn spec_focused(&self) -> bool {
        self.focused
    }

    /// A focus area for `owner`, with a fresh id, not focused.
    pub fn new(counter: &mut WidgetIdCounter, owner: WidgetId) -> (f: Focus)
        ensures
            f.spec_id() == old(counter).next_id(),
            f.spec_owner() == owner,
            !f.spec_focused(),
            final(counter).next_id() == (if old(counter).next_id() == usize::MAX {
                0
            } else {
                (old(counter).next_id() + 1) as usize
            }),
    {
        Focus { id: acquire_widget_id(counter), owner, focused: false }
    }

    /// The area's widget id.
    pub fn id(&self) -> (i: WidgetId)
        ensures
            i == self.spec_id(),
    {
        self.id
    }

    /// The widget whose focus this area handles.
    pub fn owner(&self) -> (o: WidgetId)
        ensures
            o == self.spec_owner(),
    {
        self.owner
    }

    /// A left click takes the focus and is consumed; a visibility change that
    /// stops the area from handling events gives up the focus it has; every
    /// other event passes on. Gives the request and whether the event passes on.
    pub fn handle_propagating_event(&self, input: FocusInput) -> (r: (FocusRequest, bool))
        ensures
            r == (match input {
                FocusInput::MouseInput { pressed, left_button } => if pressed && left_button {
                    (FocusRequest::FocusSelf, false)
                } else {
                    (FocusRequest::Nothing, true)
                },
                FocusInput::VisibilityChanged { handles_events } => if !handles_events && self.spec_focused() {
                    (FocusRequest::ClearFocus, true)
                } else {
                    (FocusRequest::Nothing, true)
                },
                FocusInput::Other => (FocusRequest::Nothing, true),
            }),
    {
        match input {
            FocusInput::MouseInput { pressed, left_button } => {
                if pressed && left_button {
                    return (FocusRequest::FocusSelf, false);
                }
            },
            FocusInput::VisibilityChanged { handles_events } => {
                if !handles_events && self.focused {
                    return (FocusRequest::ClearFocus, true);
                }
            },
            FocusInput::Other => {},
        }
        (FocusRequest::Nothing, true)
    }

    /// The user interface gave the focus to, or took it from, this area.
    pub fn focus_changed(&mut self, new_focus: bool)
        ensures
            final(self).spec_focused() == new_focus,
            final(self).spec_id() == old(self).spec_id(),
            final(self).spec_owner() == old(self).spec_owner(),
    {
        self.focused = new_focus;
    }
}

} // verus!
