use amk::scene::texture_load::{poll_texture_dimensions, LoadTextureResult, TextureSize, TryJoinTaskResult};
use amk::ui::focus::{Focus, FocusInput, FocusRequest};
use amk::ui::widget_id::WidgetIdCounter;

#[test]
fn focus_takes_left_clicks() {
    let mut ids = WidgetIdCounter::new();
    let mut f = Focus::new(&mut ids, 41);
    assert_eq!(f.id(), 0);
    assert_eq!(f.owner(), 41);
    assert_eq!(f.handle_propagating_event(FocusInput::MouseInput { pressed: true, left_button: true }), (FocusRequest::FocusSelf, false));
    assert_eq!(f.handle_propagating_event(FocusInput::MouseInput { pressed: false, left_button: true }), (FocusRequest::Nothing, true));
    assert_eq!(f.handle_propagating_event(FocusInput::MouseInput { pressed: true, left_button: false }), (FocusRequest::Nothing, true));
    // hiding an unfocused area asks for nothing
    assert_eq!(f.handle_propagating_event(FocusInput::VisibilityChanged { handles_events: false }), (FocusRequest::Nothing, true));
    f.focus_changed(true);
    assert_eq!(f.handle_propagating_event(FocusInput::VisibilityChanged { handles_events: false }), (FocusRequest::ClearFocus, true));
    assert_eq!(f.handle_propagating_event(FocusInput::VisibilityChanged { handles_events: true }), (FocusRequest::Nothing, true));
    assert_eq!(f.handle_propagating_event(FocusInput::Other), (FocusRequest::Nothing, true));
}

#[test]
fn texture_size_is_polled_once_then_kept() {
    let size = TextureSize { width: 1920, height: 1080 };
    let mut state = LoadTextureResult::Pending;
    assert_eq!(poll_texture_dimensions(&mut state, TryJoinTaskResult::NotJoined), None);
    assert_eq!(state, LoadTextureResult::Pending);
    assert_eq!(poll_texture_dimensions(&mut state, TryJoinTaskResult::JoinedResultTaken), None);
    assert_eq!(poll_texture_dimensions(&mut state, TryJoinTaskResult::Joined(size)), Some(size));
    assert_eq!(state, LoadTextureResult::Done(size));
    let other = TextureSize { width: 1, height: 1 };
    assert_eq!(poll_texture_dimensions(&mut state, TryJoinTaskResult::Joined(other)), Some(size));
}
