use amk::scene::event::{GameEvent, GameKey, SceneAction};
use amk::scene::handle_resize::{DisplaySize, ResizeRequest, ResizeStep, Scene};
use amk::scene::main::{DrawAction, RootScene, StartupAction};
use amk::test::manager::TestManager;
use amk::utils::args::Args;

fn assert_sync<T: Sync>() {}

#[test]
fn test_sync() {
    assert_sync::<RootScene>();
}

fn size(width: u32, height: u32) -> DisplaySize {
    DisplaySize::new(width, height).unwrap()
}

#[test]
fn display_size_rejects_zero_sides() {
    assert!(DisplaySize::new(0, 10).is_none());
    assert!(DisplaySize::new(10, 0).is_none());
    assert_eq!(DisplaySize::new(3, 4), Some(DisplaySize { width: 3, height: 4 }));
}

#[test]
fn unthrottled_resize_applies_at_once() {
    let mut scene = Scene::new();
    let step = scene.handle_resized(800, 600, false, false);
    assert_eq!(step, ResizeStep { resize: Some(ResizeRequest { size: size(800, 600), block: true }), set_timeout: false });
    let step = scene.handle_resized(800, 600, false, true);
    assert_eq!(step, ResizeStep { resize: Some(ResizeRequest { size: size(800, 600), block: false }), set_timeout: false });
}

#[test]
fn zero_size_is_ignored() {
    let mut scene = Scene::new();
    let step = scene.handle_resized(0, 600, true, false);
    assert_eq!(step, ResizeStep { resize: None, set_timeout: false });
    // still not waiting: the next resize applies at once
    let step = scene.handle_resized(10, 10, true, false);
    assert_eq!(step.resize, Some(ResizeRequest { size: size(10, 10), block: false }));
}

#[test]
fn throttled_burst_keeps_last_size() {
    let mut scene = Scene::new();
    let first = scene.handle_resized(100, 100, true, false);
    assert_eq!(first, ResizeStep { resize: Some(ResizeRequest { size: size(100, 100), block: false }), set_timeout: true });
    assert_eq!(scene.handle_resized(200, 200, true, false), ResizeStep { resize: None, set_timeout: false });
    assert_eq!(scene.handle_resized(300, 250, true, false), ResizeStep { resize: None, set_timeout: false });
    let t = scene.resize_timeout_func();
    assert_eq!(t, ResizeStep { resize: Some(ResizeRequest { size: size(300, 250), block: false }), set_timeout: true });
    // nothing came meanwhile: waiting ends
    assert_eq!(scene.resize_timeout_func(), ResizeStep { resize: None, set_timeout: false });
    // the next resize applies at once again
    assert_eq!(scene.handle_resized(5, 6, true, false).resize, Some(ResizeRequest { size: size(5, 6), block: false }));
}

fn plain_args() -> Args {
    Args::defaults(false)
}

#[test]
fn root_scene_routes_events() {
    let args = plain_args();
    let mut tests: Option<TestManager> = None;
    let (mut root, startup) = RootScene::new(&args, &mut tests, Ok(()));
    assert!(startup.is_empty());
    // resize of the main window: consumed, throttled (not Windows)
    let out = root.handle_event(GameEvent::Resized { main_window: true, width: 640, height: 480 });
    assert!(out.event.is_none());
    assert_eq!(out.actions, vec![SceneAction::Resize { size: size(640, 480), block: false }, SceneAction::SetResizeTimeout]);
    let out = root.handle_event(GameEvent::Resized { main_window: true, width: 650, height: 490 });
    assert!(out.event.is_none());
    assert!(out.actions.is_empty());
    assert_eq!(root.resize_timeout(), vec![SceneAction::Resize { size: size(650, 490), block: false }, SceneAction::SetResizeTimeout]);
    // other windows pass untouched
    let e = GameEvent::Resized { main_window: false, width: 1, height: 1 };
    let out = root.handle_event(e);
    assert_eq!(out.event, Some(e));
    assert!(out.actions.is_empty());
    // redraw: consumed, no blocking
    let out = root.handle_event(GameEvent::RedrawRequested { main_window: true });
    assert!(out.event.is_none());
    assert!(out.actions.is_empty());
    // keys
    let e = GameEvent::KeyReleased { main_window: true, key: GameKey::E };
    let out = root.handle_event(e);
    assert_eq!(out.event, Some(e));
    assert_eq!(out.actions, vec![SceneAction::SetVsync(false)]);
    assert_eq!(root.handle_event(e).actions, vec![SceneAction::SetVsync(true)]);
    let q = GameEvent::KeyReleased { main_window: true, key: GameKey::Q };
    assert_eq!(root.handle_event(q).actions, vec![SceneAction::SetFrequencyProfiling(true)]);
    let r = GameEvent::KeyReleased { main_window: true, key: GameKey::R };
    assert_eq!(root.handle_event(r).actions, vec![SceneAction::StartUpdateDelayTest]);
    let out = root.handle_event(GameEvent::CloseRequested { main_window: true });
    assert_eq!(out.actions, vec![SceneAction::Exit(0)]);
    assert_eq!(out.event, Some(GameEvent::CloseRequested { main_window: true }));
    // resume: the render surface is created (window shown), then present modes listed
    assert_eq!(
        root.handle_event(GameEvent::Resumed).actions,
        vec![SceneAction::CreateSurface, SceneAction::ListPresentModes]
    );
    assert_eq!(root.handle_event(GameEvent::Suspended).actions, vec![SceneAction::DestroySurface]);
    let draw = root.draw();
    assert_eq!(draw.len(), 1);
    assert!(matches!(draw[0], DrawAction::Clear));
}

#[test]
fn root_scene_blocking_event_loop() {
    let args = Args::defaults(true);
    assert!(args.block_event_loop && !args.throttle_resize);
    let mut tests: Option<TestManager> = None;
    let (mut root, _) = RootScene::new(&args, &mut tests, Ok(()));
    let out = root.handle_event(GameEvent::RedrawRequested { main_window: true });
    assert_eq!(out.actions, vec![SceneAction::RedrawSync]);
    let out = root.handle_event(GameEvent::Resized { main_window: true, width: 3, height: 2 });
    assert_eq!(out.actions, vec![SceneAction::Resize { size: size(3, 2), block: false }]);
}

#[test]
fn root_scene_headless_test_mode() {
    let mut args = plain_args();
    args.test = true;
    args.headless = true;
    let mut tests = Some(TestManager::new());
    let (mut root, startup) = RootScene::new(&args, &mut tests, Ok(()));
    // no_draw timeout and six delay tests
    assert_eq!(startup.len(), 7);
    assert!(matches!(startup[0], StartupAction::NoDrawTimeout(_)));
    let millis: Vec<u64> = startup[1..]
        .iter()
        .map(|a| match a {
            StartupAction::TimeoutDelayTest { millis, .. } => *millis,
            _ => panic!("unexpected action"),
        })
        .collect();
    assert_eq!(millis, vec![100, 1000, 1500, 3000, 5000, 10000]);
    // headless: no surface creation scene, so resume only lists present modes
    assert_eq!(root.handle_event(GameEvent::Resumed).actions, vec![SceneAction::ListPresentModes]);
    let draw = root.draw();
    assert_eq!(draw.len(), 2);
    let leaf = match draw[1] {
        DrawAction::FailNoDraw(leaf) => leaf,
        _ => panic!("expected the no_draw test"),
    };
    let m = tests.as_ref().unwrap();
    assert_eq!(m.tree().leaf_node(leaf).full_name(), "root.headless.no_draw");
}

#[test]
fn drawing_in_headless_test_mode_fails_no_draw() {
    let mut args = plain_args();
    args.test = true;
    args.headless = true;
    let mut tests = Some(TestManager::new());
    let (root, startup) = RootScene::new(&args, &mut tests, Ok(()));
    let leaf = match startup[0] {
        StartupAction::NoDrawTimeout(leaf) => leaf,
        _ => panic!("expected the no_draw timeout first"),
    };
    let mut m = tests.unwrap();
    // the timeout-delay tests are still pending, so the root is not complete yet
    assert_eq!(root.draw_tests(&mut m), None);
    match m.tree().leaf_node(leaf).result() {
        Some(Err(amk::test::result::TestError::AssertError { error, .. })) => {
            assert_eq!(error.as_deref(), Some("Scene::draw() should not be called in headless mode"))
        }
        _ => panic!("no_draw should have failed"),
    }
    assert_eq!(m.tree().leaf_node(leaf).full_name(), "root.headless.no_draw");
}

#[test]
fn drawing_outside_headless_mode_changes_no_test() {
    let mut args = plain_args();
    args.test = true;
    let mut tests = Some(TestManager::new());
    let (root, _) = RootScene::new(&args, &mut tests, Ok(()));
    let mut m = tests.unwrap();
    assert_eq!(root.draw_tests(&mut m), None);
}

#[test]
fn throttled_burst_from_idle_resizes_first_then_last() {
    let mut s = Scene::new();
    let sizes = [size(100, 100), size(200, 200), size(300, 300), size(400, 400)];
    let mut resized = Vec::new();
    for &sz in &sizes {
        if let Some(r) = s.resize_to(sz, true, false).resize {
            resized.push(r.size);
        }
    }
    // only the first resizes at once
    assert_eq!(resized, vec![size(100, 100)]);
    // the timeout applies the last, and the next one ends the wait
    assert_eq!(
        s.resize_timeout_func(),
        ResizeStep { resize: Some(ResizeRequest { size: size(400, 400), block: false }), set_timeout: true }
    );
    assert_eq!(s.resize_timeout_func(), ResizeStep { resize: None, set_timeout: false });
    // a lone event from idle resizes at once and nothing is left for the timeout
    assert!(s.resize_to(size(50, 60), true, false).resize.is_some());
    assert_eq!(s.resize_timeout_func(), ResizeStep { resize: None, set_timeout: false });
}
