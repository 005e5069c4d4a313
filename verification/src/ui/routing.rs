use vstd::prelude::*;

use super::event::{DragDropAction, UIPropagatingEventKind};
use super::widget_id::WidgetId;

verus! {

/// The kinds of window events that the user interface looks at.
#[derive(Clone, Copy, Debug, PartialEq, Eq, Structural)]
pub enum WindowEventKind {
    DroppedFile,
    HoveredFile,
    HoveredFileCancelled,
    Ime,
    ReceivedCharacter,
    KeyboardInput,
    /// The keyboard modifiers changed to these bits (those of winit's `ModifiersState`).
    ModifiersChanged(u32),
    CursorMoved,
    CursorEntered,
    CursorLeft,
    MouseWheel,
    MouseInput,
    ThemeChanged,
    Other,
}

/// The kinds of cursor events.
#[derive(Clone, Copy, Debug, PartialEq, Eq, Structural)]
pub enum UICursorEventKind {
    CursorEntered,
    CursorExited,
    CursorMoved,
}

/// Where the user interface sends a window event.
#[derive(Clone, Copy, Debug, PartialEq, Eq, Structural)]
pub enum UiRoute {
    /// To the root widget, as an event that it passes on to its children.
    Propagate(UIPropagatingEventKind),
    /// To the root widget, as a cursor event.
    Cursor(UICursorEventKind),
    /// To the focused widget.
    Focus,
    /// Nowhere: the keyboard modifiers are recorded.
    UpdateModifiers,
    /// Nowhere: the event passes on.
    PassOn,
}

/// What the widget that got an event answered.
#[derive(Clone, Copy, Debug, PartialEq, Eq, Structural)]
pub enum WidgetReply {
    /// It consumed the event.
    Consumed,
    /// It gave the event back unchanged.
    Returned,
    /// It gave back an event of another kind.
    ReturnedOther,
}

/// Where a window event goes: files and cancelled hovers, wheel, buttons
/// and theme changes to the root as propagating events; cursor motion,
/// entry and exit to the root as cursor events; input method, characters
/// and keys to the focused widget when there is one; modifiers are
/// recorded; the rest passes on.
pub open spec fn spec_route(kind: WindowEventKind, has_focus: bool) -> UiRoute {
    match kind {
        WindowEventKind::DroppedFile => UiRoute::Propagate(UIPropagatingEventKind::DragDrop),
        WindowEventKind::HoveredFile => UiRoute::Propagate(UIPropagatingEventKind::DragDrop),
        WindowEventKind::HoveredFileCancelled => UiRoute::Propagate(UIPropagatingEventKind::DragDrop),
        WindowEventKind::Ime => if has_focus { UiRoute::Focus } else { UiRoute::PassOn },
        WindowEventKind::ReceivedCharacter => if has_focus { UiRoute::Focus } else { UiRoute::PassOn },
        WindowEventKind::KeyboardInput => if has_focus { UiRoute::Focus } else { UiRoute::PassOn },
        WindowEventKind::ModifiersChanged(_) => UiRoute::UpdateModifiers,
        WindowEventKind::CursorMoved => UiRoute::Cursor(UICursorEventKind::CursorMoved),
        WindowEventKind::CursorEntered => UiRoute::Cursor(UICursorEventKind::CursorEntered),
        WindowEventKind::CursorLeft => UiRoute::Cursor(UICursorEventKind::CursorExited),
        WindowEventKind::MouseWheel => UiRoute::Propagate(UIPropagatingEventKind::MouseWheel),
        WindowEventKind::MouseInput => UiRoute::Propagate(UIPropagatingEventKind::MouseInput),
        WindowEventKind::ThemeChanged => UiRoute::Propagate(UIPropagatingEventKind::ThemeChanged),
        WindowEventKind::Other => UiRoute::PassOn,
    }
}

/// Whether the window event passes on after the reply: events that went
/// nowhere pass (recorded modifiers do not); files and input-method events
/// pass only when given back as such; the others whenever they were not
/// consumed.
pub open spec fn spec_passes_on(kind: WindowEventKind, has_focus: bool, reply: WidgetReply) -> bool {
    match spec_route(kind, has_focus) {
        UiRoute::PassOn => true,
        UiRoute::UpdateModifiers => false,
        _ => match kind {
            WindowEventKind::DroppedFile => reply is Returned,
            WindowEventKind::HoveredFile => reply is Returned,
            WindowEventKind::Ime => reply is Returned,
            _ => !(reply is Consumed),
        },
    }
}

/// Where a window event goes; see [`spec_route`].
pub fn route_window_event(kind: WindowEventKind, has_focus: bool) -> (r: UiRoute)
    ensures
        r == spec_route(kind, has_focus),
{
    match kind {
        WindowEventKind::DroppedFile => UiRoute::Propagate(UIPropagatingEventKind::DragDrop),
        WindowEventKind::HoveredFile => UiRoute::Propagate(UIPropagatingEventKind::DragDrop),
        WindowEventKind::HoveredFileCancelled => UiRoute::Propagate(UIPropagatingEventKind::DragDrop),
        WindowEventKind::Ime | WindowEventKind::ReceivedCharacter | WindowEventKind::KeyboardInput => {
            if has_focus {
                UiRoute::Focus
            } else {
                UiRoute::PassOn
            }
        },
        WindowEventKind::ModifiersChanged(_) => UiRoute::UpdateModifiers,
        WindowEventKind::CursorMoved => UiRoute::Cursor(UICursorEventKind::CursorMoved),
        WindowEventKind::CursorEntered => UiRoute::Cursor(UICursorEventKind::CursorEntered),
        WindowEventKind::CursorLeft => UiRoute::Cursor(UICursorEventKind::CursorExited),
        WindowEventKind::MouseWheel => UiRoute::Propagate(UIPropagatingEventKind::MouseWheel),
        WindowEventKind::MouseInput => UiRoute::Propagate(UIPropagatingEventKind::MouseInput),
        WindowEventKind::ThemeChanged => UiRoute::Propagate(UIPropagatingEventKind::ThemeChanged),
        WindowEventKind::Other => UiRoute::PassOn,
    }
}

/// Whether the window event passes on; see [`spec_passes_on`].
pub fn passes_on(kind: WindowEventKind, has_focus: bool, reply: WidgetReply) -> (b: bool)
    ensures
        b == spec_passes_on(kind, has_focus, reply),
{
    match route_window_event(kind, has_focus) {
        UiRoute::PassOn => true,
        UiRoute::UpdateModifiers => false,
        _ => match kind {
            WindowEventKind::DroppedFile | WindowEventKind::HoveredFile | WindowEventKind::Ime => {
                matches!(reply, WidgetReply::Returned)
            },
            _ => !matches!(reply, WidgetReply::Consumed),
        },
    }
}

/// Text input (input-method events, typed characters and keys) goes to the
/// focused widget exactly when a widget has the focus, and passes on
/// otherwise; no other event ever goes to the focused widget.
pub proof fn law_text_input_goes_to_focus(kind: WindowEventKind, has_focus: bool)
    ensures
        spec_route(kind, has_focus) is Focus <==> (has_focus && (kind is Ime || kind is ReceivedCharacter
            || kind is KeyboardInput)),
        (kind is Ime || kind is ReceivedCharacter || kind is KeyboardInput) && !has_focus ==> spec_route(kind, has_focus)
            is PassOn,
{
}

/// Where the other events go, whatever the focus: files and cancelled drags
/// to the root as drag-and-drop events; wheel, buttons and theme changes to
/// the root as events of their own kind; cursor motion, entry and exit to
/// the root as cursor events; modifier changes are recorded; anything else
/// passes on.
pub proof fn law_root_events(kind: WindowEventKind, has_focus: bool)
    ensures
        (kind is DroppedFile || kind is HoveredFile || kind is HoveredFileCancelled) ==> spec_route(kind, has_focus)
            == UiRoute::Propagate(UIPropagatingEventKind::DragDrop),
        kind is MouseWheel ==> spec_route(kind, has_focus) == UiRoute::Propagate(UIPropagatingEventKind::MouseWheel),
        kind is MouseInput ==> spec_route(kind, has_focus) == UiRoute::Propagate(UIPropagatingEventKind::MouseInput),
        kind is ThemeChanged ==> spec_route(kind, has_focus) == UiRoute::Propagate(
            UIPropagatingEventKind::ThemeChanged,
        ),
        kind is CursorMoved ==> spec_route(kind, has_focus) == UiRoute::Cursor(UICursorEventKind::CursorMoved),
        kind is CursorEntered ==> spec_route(kind, has_focus) == UiRoute::Cursor(UICursorEventKind::CursorEntered),
        kind is CursorLeft ==> spec_route(kind, has_focus) == UiRoute::Cursor(UICursorEventKind::CursorExited),
        spec_route(kind, has_focus) is UpdateModifiers <==> kind is ModifiersChanged,
        kind is Other ==> spec_route(kind, has_focus) is PassOn,
{
}

/// Whether an event that a widget got passes on: a dropped or dragged file
/// and an input-method event pass only when given back unchanged in kind;
/// every other event that a widget got passes unless it was consumed.
pub proof fn law_passes_after_reply(kind: WindowEventKind, has_focus: bool, reply: WidgetReply)
    requires
        !(spec_route(kind, has_focus) is PassOn),
        !(spec_route(kind, has_focus) is UpdateModifiers),
    ensures
        (kind is DroppedFile || kind is HoveredFile || kind is Ime) ==> (spec_passes_on(kind, has_focus, reply)
            <==> reply is Returned),
        !(kind is DroppedFile || kind is HoveredFile || kind is Ime) ==> (spec_passes_on(kind, has_focus, reply)
            <==> !(reply is Consumed)),
{
}

/// A consumed event never passes on; an event that no widget gets passes on
/// unless it only updates the modifiers.
pub proof fn law_consumed_never_passes(kind: WindowEventKind, has_focus: bool)
    ensures
        spec_route(kind, has_focus) !is PassOn && spec_route(kind, has_focus) !is UpdateModifiers
            ==> !spec_passes_on(kind, has_focus, WidgetReply::Consumed),
        spec_route(kind, has_focus) is PassOn ==> spec_passes_on(kind, has_focus, WidgetReply::Consumed),
        !spec_passes_on(WindowEventKind::ModifiersChanged(0), has_focus, WidgetReply::Returned),
{
}

/// The state of the user interface that window events read and change: the
/// keyboard modifiers last reported and the focused widget, if any.
pub struct UI {
    modifiers: u32,
    focused: Option<WidgetId>,
}

impl UI {
    /// The keyboard modifiers last reported.
    pub closed spec fn spec_modifiers(&self) -> u32 {
        self.modifiers
    }

    /// The focused widget.
    pub closed spec fn spec_focused(&self) -> Option<WidgetId> {
        self.focused
    }

    /// No modifiers pressed and no focused widget.
    pub fn new() -> (ui: UI)
        ensures
            ui.spec_modifiers() == 0,
            ui.spec_focused() is None,
    {
        UI { modifiers: 0, focused: None }
    }

    /// The keyboard modifiers last reported.
    pub fn modifiers(&self) -> (m: u32)
        ensures
            m == self.spec_modifiers(),
    {
        self.modifiers
    }

    /// The focused widget.
    pub fn focused(&self) -> (f: Option<WidgetId>)
        ensures
            f == self.spec_focused(),
    {
        self.focused
    }

    /// Gives the focus to `widget`, or to none.
    pub fn set_focused(&mut self, widget: Option<WidgetId>)
        ensures
            final(self).spec_focused() == widget,
            final(self).spec_modifiers() == old(self).spec_modifiers(),
    {
        self.focused = widget;
    }

    /// Where a window event of the main window goes (see [`spec_route`], with
    /// a focus exactly when a widget is focused); a change of the keyboard
    /// modifiers is recorded, and nothing else changes.
    pub fn handle_win_event(&mut self, kind: WindowEventKind) -> (r: UiRoute)
        ensures
            r == spec_route(kind, old(self).spec_focused() is Some),
            final(self).spec_focused() == old(self).spec_focused(),
            final(self).spec_modifiers() == (match kind {
                WindowEventKind::ModifiersChanged(bits) => bits,
                _ => old(self).spec_modifiers(),
            }),
    {
        if let WindowEventKind::ModifiersChanged(bits) = kind {
            self.modifiers = bits;
        }
        route_window_event(kind, self.focused.is_some())
    }
}

/// A file event of the main window, with its path.
pub enum FileEvent {
    /// A file was dropped on the window.
    Dropped(std::path::PathBuf),
    /// A file is dragged over the window.
    Hovered(std::path::PathBuf),
    /// The file dragged over the window left it.
    HoverCancelled,
}

/// What the root widget gave back for a drag-and-drop event.
pub enum DragDropReply {
    /// It consumed the event.
    Consumed,
    /// It gave back a drag-and-drop event.
    DragDrop(DragDropAction),
    /// It gave back an event of another kind.
    Other,
}

/// The kinds of file events.
#[derive(Clone, Copy, Debug, PartialEq, Eq, Structural)]
pub enum FileEventKind {
    Dropped,
    Hovered,
    HoverCancelled,
}

impl FileEvent {
    /// The kind of the event.
    pub open spec fn spec_kind(&self) -> FileEventKind {
        match self {
            FileEvent::Dropped(_) => FileEventKind::Dropped,
            FileEvent::Hovered(_) => FileEventKind::Hovered,
            FileEvent::HoverCancelled => FileEventKind::HoverCancelled,
        }
    }

    /// The kind of the event.
    pub fn kind(&self) -> (k: FileEventKind)
        ensures
            k == self.spec_kind(),
    {
        match self {
            FileEvent::Dropped(_) => FileEventKind::Dropped,
            FileEvent::Hovered(_) => FileEventKind::Hovered,
            FileEvent::HoverCancelled => FileEventKind::HoverCancelled,
        }
    }
}

/// The drag-and-drop event that the root widget gets for a file event: a
/// dropped file as `Drop` and a dragged one as `Hover`, each with its path,
/// and a cancelled drag as `CancelDrop`.
pub fn drag_drop_action(e: FileEvent) -> (a: DragDropAction)
    ensures
        e matches FileEvent::Dropped(p) ==> a == DragDropAction::Drop(p),
        e matches FileEvent::Hovered(p) ==> a == DragDropAction::Hover(p),
        e is HoverCancelled ==> a is CancelDrop,
{
    match e {
        FileEvent::Dropped(p) => DragDropAction::Drop(p),
        FileEvent::Hovered(p) => DragDropAction::Hover(p),
        FileEvent::HoverCancelled => DragDropAction::CancelDrop,
    }
}

/// The file event that passes on after the root widget answered one of kind
/// `kind`: a dropped or dragged file passes on only when the root gave back
/// the same kind of drag-and-drop event, with the path it gave back; a
/// cancelled drag passes on unless the root consumed it.
pub fn file_event_result(kind: FileEventKind, reply: DragDropReply) -> (r: Option<FileEvent>)
    ensures
        kind is Dropped ==> (match reply {
            DragDropReply::DragDrop(DragDropAction::Drop(p)) => r == Some(FileEvent::Dropped(p)),
            _ => r is None,
        }),
        kind is Hovered ==> (match reply {
            DragDropReply::DragDrop(DragDropAction::Hover(p)) => r == Some(FileEvent::Hovered(p)),
            _ => r is None,
        }),
        kind is HoverCancelled ==> (if reply is Consumed {
            r is None
        } else {
            r matches Some(FileEvent::HoverCancelled)
        }),
{
    match kind {
        FileEventKind::Dropped => match reply {
            DragDropReply::DragDrop(DragDropAction::Drop(p)) => Some(FileEvent::Dropped(p)),
            _ => None,
        },
        FileEventKind::Hovered => match reply {
            DragDropReply::DragDrop(DragDropAction::Hover(p)) => Some(FileEvent::Hovered(p)),
            _ => None,
        },
        FileEventKind::HoverCancelled => match reply {
            DragDropReply::Consumed => None,
            _ => Some(FileEvent::HoverCancelled),
        },
    }
}

} // verus!
