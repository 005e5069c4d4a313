use vstd::prelude::*;

use super::event::{push_resize_step, resize_step_actions, GameEvent, GameKey, SceneAction};
use super::handle_resize::{on_resized, on_timeout, throttle_wf, DisplaySize, ResizeThrottleState};
use super::handle_resize::Scene as ResizeScene;
use crate::test::manager::{exit_for, TestExitCode, TestManager};
use crate::test::result::{outcome, TestErrorView, TestOutcome, TestResult};
use super::checks::{no_draw_failure, report_no_draw};
use crate::test::tree::{
    add_child, child_full_name, child_named, is_group, is_leaf, kids, lemma_add_child_wf, lemma_child_named,
    law_update_records_result, propagate, tree_wf, LeafTestNode, NodeView,
};
use crate::utils::args::Args;

verus! {

/// The options that the scenes look at.
#[derive(Clone, Copy, Debug, PartialEq, Eq, Structural)]
pub struct SceneFlags {
    pub headless: bool,
    pub throttle_resize: bool,
    pub block_event_loop: bool,
}

/// The changing part of the root scene: resize throttling, vertical sync and
/// frequency profiling.
#[derive(Clone, Copy, Debug, PartialEq, Eq, Structural)]
pub struct RootState {
    pub throttle: ResizeThrottleState,
    pub vsync: bool,
    pub freq_profile: bool,
}

/// Creates and destroys the render surface with the application's life cycle;
/// it exists only when rendering is on (the window is shown).
pub struct SurfaceCreationScene;

/// The scene of the headless tests: the test that fails when a frame is drawn.
pub struct HeadlessScene {
    no_draw: LeafTestNode,
}

/// The test scene, made in test mode.
pub struct TestScene {
    headless: Option<HeadlessScene>,
}

/// The content scene, made outside test mode.
pub struct ContentScene;

/// The root of the scene tree: it routes events to the resize, core and
/// utility scenes, and draws the core and test scenes.
pub struct RootScene {
    flags: SceneFlags,
    handle_resize: ResizeScene,
    surface_creation: Option<SurfaceCreationScene>,
    test: Option<TestScene>,
    content: Option<ContentScene>,
    vsync: bool,
    freq_profile: bool,
}

/// What one event does: the event that goes on (none when a scene consumed
/// it) and the actions asked for.
pub struct SceneOutcome {
    pub event: Option<GameEvent>,
    pub actions: Vec<SceneAction>,
}

/// What drawing a frame asks for.
#[derive(Clone, Copy)]
pub enum DrawAction {
    /// Clear the frame.
    Clear,
    /// Report test `leaf` as failed: no frame may be drawn in headless mode.
    /// [`crate::scene::checks::report_no_draw`] does so, with the failure
    /// [`crate::scene::checks::no_draw_failure`].
    FailNoDraw(LeafTestNode),
}

/// What the caller does once the root scene is made.
#[derive(Clone, Copy)]
pub enum StartupAction {
    /// After 5 seconds, pass test `leaf` unless it has a result by then.
    NoDrawTimeout(LeafTestNode),
    /// Measure how late a timeout of `millis` milliseconds fires, and report
    /// it to test `leaf`.
    TimeoutDelayTest { leaf: LeafTestNode, millis: u64 },
    /// Leave the event loop with this exit code.
    Exit(i32),
}

/// The events of the utility scenes that pass on: vertical sync (key E,
/// and listing present modes on resume), frequency profiling (key Q),
/// update-delay measurement (key R) and closing (close request).
pub open spec fn utility_step(s: RootState, e: GameEvent) -> (RootState, Seq<SceneAction>) {
    match e {
        GameEvent::KeyReleased { main_window, key } => if main_window {
            match key {
                GameKey::E => (
                    RootState { throttle: s.throttle, vsync: !s.vsync, freq_profile: s.freq_profile },
                    seq![SceneAction::SetVsync(!s.vsync)],
                ),
                GameKey::Q => (
                    RootState { throttle: s.throttle, vsync: s.vsync, freq_profile: !s.freq_profile },
                    seq![SceneAction::SetFrequencyProfiling(!s.freq_profile)],
                ),
                GameKey::R => (s, seq![SceneAction::StartUpdateDelayTest]),
                GameKey::Other => (s, Seq::<SceneAction>::empty()),
            }
        } else {
            (s, Seq::<SceneAction>::empty())
        },
        GameEvent::Resumed => (s, seq![SceneAction::ListPresentModes]),
        GameEvent::CloseRequested { main_window } => if main_window {
            (s, seq![SceneAction::Exit(0)])
        } else {
            (s, Seq::<SceneAction>::empty())
        },
        _ => (s, Seq::<SceneAction>::empty()),
    }
}

/// What the surface-creation scene (present when `present`) asks for: it
/// creates the render surface on resume and destroys it on suspend.
pub open spec fn surface_step(present: bool, e: GameEvent) -> Seq<SceneAction> {
    if present {
        match e {
            GameEvent::Resumed => seq![SceneAction::CreateSurface],
            GameEvent::Suspended => seq![SceneAction::DestroySurface],
            _ => Seq::<SceneAction>::empty(),
        }
    } else {
        Seq::<SceneAction>::empty()
    }
}

/// One event through the root scene: a resize of the main window is
/// consumed by the resize scene (a size with a zero side is dropped); a
/// redraw request of the main window is consumed by the redraw scene (which
/// waits for the frame when the event loop blocks); every other event goes
/// through the surface-creation and utility scenes and on.
pub open spec fn root_step(flags: SceneFlags, surface: bool, s: RootState, e: GameEvent) -> (
    RootState,
    Option<GameEvent>,
    Seq<SceneAction>,
) {
    match e {
        GameEvent::Resized { main_window, width, height } if main_window => if width > 0 && height > 0 {
            let (t, step) = on_resized(
                s.throttle,
                DisplaySize { width, height },
                flags.throttle_resize,
                flags.block_event_loop,
            );
            (
                RootState { throttle: t, vsync: s.vsync, freq_profile: s.freq_profile },
                None,
                resize_step_actions(step),
            )
        } else {
            (s, None, Seq::<SceneAction>::empty())
        },
        GameEvent::RedrawRequested { main_window } if main_window => (
            s,
            None,
            if flags.block_event_loop {
                seq![SceneAction::RedrawSync]
            } else {
                Seq::<SceneAction>::empty()
            },
        ),
        _ => (utility_step(s, e).0, Some(e), surface_step(surface, e) + utility_step(s, e).1),
    }
}

/// The delays of the timeout-delay tests, in milliseconds.
pub open spec fn delay_millis() -> Seq<u64> {
    seq![100u64, 1000u64, 1500u64, 3000u64, 5000u64, 10000u64]
}

/// The name of the `k`-th timeout-delay test.
pub open spec fn delay_name(k: int) -> Seq<char> {
    if k == 0 {
        "100ms"@
    } else if k == 1 {
        "1s"@
    } else if k == 2 {
        "1.5s"@
    } else if k == 3 {
        "3s"@
    } else if k == 4 {
        "5s"@
    } else {
        "10s"@
    }
}

/// The first `k` timeout-delay tests added under group `g`.
pub open spec fn add_delay_tests(v: Seq<NodeView>, g: int, k: nat) -> Seq<NodeView>
    decreases k,
{
    if k == 0 {
        v
    } else {
        add_child(add_delay_tests(v, g, (k - 1) as nat), g, delay_name(k - 1), false)
    }
}

/// The headless tests added under the root: a group `headless`, its test
/// `not_visible` reported at once with `nv`, then its test `no_draw`. Gives
/// the tree and what the report gave the root.
pub open spec fn headless_tree(v: Seq<NodeView>, nv: TestOutcome) -> (Seq<NodeView>, Option<TestOutcome>) {
    let n = v.len() as int;
    let v1 = add_child(v, 0, "headless"@, true);
    let v2 = add_child(v1, n, "not_visible"@, false);
    let (v3, rr) = propagate(v2, n + 1, nv);
    (add_child(v3, n, "no_draw"@, false), rr)
}

/// The tree of the test scene: the headless tests when `headless`, then a
/// group `set_timeout_delay` with its six tests.
pub open spec fn test_scene_tree(v: Seq<NodeView>, headless: bool, nv: TestOutcome) -> Seq<NodeView> {
    let vh = if headless {
        headless_tree(v, nv).0
    } else {
        v
    };
    add_delay_tests(add_child(vh, 0, "set_timeout_delay"@, true), vh.len() as int, 6)
}

/// What the test scene asks for when made: in headless mode, the exit that
/// the `not_visible` report may ask for and the `no_draw` timeout; then one
/// timer per timeout-delay test, in order.
pub open spec fn test_scene_startup(v: Seq<NodeView>, headless: bool, init_done: bool, nv: TestOutcome) -> Seq<StartupAction> {
    let n: int = v.len() as int;
    let head = if headless {
        let exit = match headless_tree(v, nv).1 {
            Some(r) => if init_done {
                seq![StartupAction::Exit(exit_for(r).spec_code())]
            } else {
                Seq::<StartupAction>::empty()
            },
            None => Seq::<StartupAction>::empty(),
        };
        exit + seq![StartupAction::NoDrawTimeout(LeafTestNode { id: (n + 2) as usize })]
    } else {
        Seq::<StartupAction>::empty()
    };
    let g: int = if headless {
        n + 3
    } else {
        n
    };
    head + Seq::new(
        6,
        |k: int| StartupAction::TimeoutDelayTest { leaf: LeafTestNode { id: (g + 1 + k) as usize }, millis: delay_millis()[k] },
    )
}

impl RootScene {
    /// The options that the scene looks at.
    pub closed spec fn spec_flags(&self) -> SceneFlags {
        self.flags
    }

    /// Whether the surface-creation scene exists.
    pub closed spec fn has_surface_creation(&self) -> bool {
        self.surface_creation is Some
    }

    /// Whether the test scene exists.
    pub closed spec fn has_test(&self) -> bool {
        self.test is Some
    }

    /// Whether the content scene exists.
    pub closed spec fn has_content(&self) -> bool {
        self.content is Some
    }

    /// The headless test that fails when a frame is drawn, if any.
    pub closed spec fn no_draw_test(&self) -> Option<LeafTestNode> {
        match self.test {
            Some(t) => match t.headless {
                Some(h) => Some(h.no_draw),
                None => None,
            },
            None => None,
        }
    }

    /// The changing part of the scene.
    pub closed spec fn state(&self) -> RootState {
        RootState { throttle: self.handle_resize.throttle(), vsync: self.vsync, freq_profile: self.freq_profile }
    }

    /// The root scene for the options `args`. In test mode it builds the test
    /// tree in `tests`: in headless mode a group `headless` with a test
    /// `not_visible`, reported at once with `not_visible`, and a test
    /// `no_draw`; then a group `set_timeout_delay` with one test per delay;
    /// then it ends the manager's set-up. The caller performs the actions
    /// returned.
    pub fn new(args: &Args, tests: &mut Option<TestManager>, not_visible: TestResult) -> (r: (
        RootScene,
        Vec<StartupAction>,
    ))
        requires
            args.test ==> (*old(tests) matches Some(m) && m.tree_view().len() + 10 < usize::MAX),
        ensures
            r.0.spec_flags() == (SceneFlags {
                headless: args.headless,
                throttle_resize: args.throttle_resize,
                block_event_loop: args.block_event_loop,
            }),
            r.0.state() == (RootState {
                throttle: ResizeThrottleState { resize_should_wait: false, resize_size: None },
                vsync: true,
                freq_profile: false,
            }),
            r.0.has_surface_creation() == !args.headless,
            r.0.has_test() == args.test,
            r.0.has_content() == !args.test,
            (args.test && args.headless) <==> r.0.no_draw_test() is Some,
            !args.test ==> *final(tests) == *old(tests),
            args.test ==> (*final(tests) matches Some(m) && m.init_done()),
            args.test ==> final(tests)->Some_0.tree_view() == test_scene_tree(
                old(tests)->Some_0.tree_view(),
                args.headless,
                outcome(not_visible),
            ),
            r.1@ == (if args.test {
                test_scene_startup(
                    old(tests)->Some_0.tree_view(),
                    args.headless,
                    old(tests)->Some_0.init_done(),
                    outcome(not_visible),
                )
            } else {
                Seq::<StartupAction>::empty()
            }),
            r.0.no_draw_test() matches Some(leaf) ==> leaf == (LeafTestNode {
                id: (old(tests)->Some_0.tree_view().len() + 2) as usize,
            }),
            r.0.no_draw_test() matches Some(leaf) ==> (*final(tests) matches Some(m) && is_leaf(m.tree_view(), leaf.id() as int)),
    {
        let flags = SceneFlags {
            headless: args.headless,
            throttle_resize: args.throttle_resize,
            block_event_loop: args.block_event_loop,
        };
        let mut startup: Vec<StartupAction> = Vec::new();
        let test = if args.test {
            match tests {
                Some(m) => {
                    let scene = TestScene::new(m, args.headless, not_visible, &mut startup);
                    if let Some(code) = m.finish_init() {
                        startup.push(StartupAction::Exit(code.code()));
                    }
                    Some(scene)
                },
                None => None,
            }
        } else {
            None
        };
        let surface_creation = if !args.headless {
            Some(SurfaceCreationScene)
        } else {
            None
        };
        let content = if !args.test {
            Some(ContentScene)
        } else {
            None
        };
        let scene = RootScene {
            flags,
            handle_resize: ResizeScene::new(),
            surface_creation,
            test,
            content,
            vsync: true,
            freq_profile: false,
        };
        (scene, startup)
    }

    /// Routes `event` through the scenes; see [`root_step`].
    pub fn handle_event(&mut self, event: GameEvent) -> (out: SceneOutcome)
        ensures
            final(self).spec_flags() == old(self).spec_flags(),
            final(self).has_surface_creation() == old(self).has_surface_creation(),
            final(self).has_test() == old(self).has_test(),
            final(self).has_content() == old(self).has_content(),
            final(self).no_draw_test() == old(self).no_draw_test(),
            (final(self).state(), out.event, out.actions@) == root_step(
                old(self).spec_flags(),
                old(self).has_surface_creation(),
                old(self).state(),
                event,
            ),
    {
        let mut actions: Vec<SceneAction> = Vec::new();
        match event {
            GameEvent::Resized { main_window, width, height } => {
                if main_window {
                    let step = self.handle_resize.handle_resized(
                        width,
                        height,
                        self.flags.throttle_resize,
                        self.flags.block_event_loop,
                    );
                    push_resize_step(&mut actions, step);
                    assert(actions@ =~= resize_step_actions(step));
                    return SceneOutcome { event: None, actions };
                }
            },
            GameEvent::RedrawRequested { main_window } => {
                if main_window {
                    if self.flags.block_event_loop {
                        actions.push(SceneAction::RedrawSync);
                    }
                    return SceneOutcome { event: None, actions };
                }
            },
            _ => {},
        }
        // core: surface creation
        if self.surface_creation.is_some() {
            match event {
                GameEvent::Resumed => actions.push(SceneAction::CreateSurface),
                GameEvent::Suspended => actions.push(SceneAction::DestroySurface),
                _ => {},
            }
        }
        let ghost after_surface = actions@;
        assert(after_surface =~= surface_step(self.surface_creation is Some, event));
        // utility: vsync, frequency profiling, update delay, close
        match event {
            GameEvent::KeyReleased { main_window, key } => {
                if main_window {
                    match key {
                        GameKey::E => {
                            self.vsync = !self.vsync;
                            actions.push(SceneAction::SetVsync(self.vsync));
                        },
                        GameKey::Q => {
                            self.freq_profile = !self.freq_profile;
                            actions.push(SceneAction::SetFrequencyProfiling(self.freq_profile));
                        },
                        GameKey::R => {
                            actions.push(SceneAction::StartUpdateDelayTest);
                        },
                        GameKey::Other => {},
                    }
                }
            },
            GameEvent::Resumed => {
                actions.push(SceneAction::ListPresentModes);
            },
            GameEvent::CloseRequested { main_window } => {
                if main_window {
                    actions.push(SceneAction::Exit(0));
                }
            },
            _ => {},
        }
        assert(actions@ =~= after_surface + utility_step(old(self).state(), event).1);
        SceneOutcome { event: Some(event), actions }
    }

    /// The resize throttle timeout fired; see [`on_timeout`].
    pub fn resize_timeout(&mut self) -> (actions: Vec<SceneAction>)
        ensures
            final(self).spec_flags() == old(self).spec_flags(),
            final(self).has_surface_creation() == old(self).has_surface_creation(),
            final(self).has_test() == old(self).has_test(),
            final(self).has_content() == old(self).has_content(),
            final(self).no_draw_test() == old(self).no_draw_test(),
            final(self).state() == (RootState {
                throttle: on_timeout(old(self).state().throttle).0,
                vsync: old(self).state().vsync,
                freq_profile: old(self).state().freq_profile,
            }),
            actions@ == resize_step_actions(on_timeout(old(self).state().throttle).1),
    {
        let step = self.handle_resize.resize_timeout_func();
        let mut actions: Vec<SceneAction> = Vec::new();
        push_resize_step(&mut actions, step);
        assert(actions@ =~= resize_step_actions(step));
        actions
    }

    /// Draws a frame: the core scene clears it, and in headless test mode the
    /// `no_draw` test is failed.
    pub fn draw(&self) -> (actions: Vec<DrawAction>)
        ensures
            actions@.len() == (if self.no_draw_test() is Some {
                2int
            } else {
                1int
            }),
            actions@[0] is Clear,
            self.no_draw_test() matches Some(leaf) ==> actions@[1] == DrawAction::FailNoDraw(leaf),
    {
        let mut actions: Vec<DrawAction> = Vec::new();
        actions.push(DrawAction::Clear);
        if let Some(test) = &self.test {
            if let Some(headless) = &test.headless {
                actions.push(DrawAction::FailNoDraw(headless.no_draw));
            }
        }
        actions
    }
}

impl RootScene {
    /// What drawing a frame does to the tests in `m`: in headless test mode
    /// the `no_draw` test fails with [`no_draw_failure`], reported upwards as
    /// by [`TestManager::update`] (see [`report_no_draw`]); otherwise nothing
    /// changes. Gives the exit code asked for when the report completes the
    /// root.
    pub fn draw_tests(&self, m: &mut TestManager) -> (code: Option<TestExitCode>)
        requires
            self.no_draw_test() matches Some(leaf) ==> is_leaf(old(m).tree_view(), leaf.id() as int),
        ensures
            self.no_draw_test() is None ==> final(m).tree_view() == old(m).tree_view()
                && final(m).init_done() == old(m).init_done() && code is None,
            self.no_draw_test() matches Some(leaf) ==> {
                let (v, rr) = propagate(
                    old(m).tree_view(),
                    leaf.id() as int,
                    Err::<(), TestErrorView>(no_draw_failure()),
                );
                &&& final(m).tree_view() == v
                &&& final(m).init_done() == old(m).init_done()
                &&& code == (match rr {
                    Some(r) => if old(m).init_done() {
                        Some(exit_for(r))
                    } else {
                        None
                    },
                    None => None,
                })
            },
    {
        if let Some(test) = &self.test {
            if let Some(headless) = &test.headless {
                return report_no_draw(m, headless.no_draw);
            }
        }
        None
    }
}

impl TestScene {
    /// Builds the tests of the test scene under the root of `m`: the
    /// headless tests when `headless`, then the timeout-delay tests; see
    /// [`test_scene_tree`] and [`test_scene_startup`].
    fn new(m: &mut TestManager, headless: bool, not_visible: TestResult, startup: &mut Vec<StartupAction>) -> (s: TestScene)
        requires
            old(m).tree_view().len() + 10 < usize::MAX,
        ensures
            final(m).init_done() == old(m).init_done(),
            final(m).tree_view() == test_scene_tree(old(m).tree_view(), headless, outcome(not_visible)),
            final(startup)@ == old(startup)@ + test_scene_startup(
                old(m).tree_view(),
                headless,
                old(m).init_done(),
                outcome(not_visible),
            ),
            s.headless is Some <==> headless,
            s.headless matches Some(h) ==> h.no_draw == (LeafTestNode { id: (old(m).tree_view().len() + 2) as usize }),
            s.headless matches Some(h) ==> is_leaf(final(m).tree_view(), h.no_draw.id() as int),
    {
        let ghost v0 = m.tree_view();
        let ghost start0 = startup@;
        let ghost nv = outcome(not_visible);
        let ghost n = v0.len() as int;
        let root = m.root();
        let headless_scene = if headless {
            let node = m.new_child_parent(root, String::from_str("headless"));
            let not_visible_leaf = m.new_child_leaf(node, String::from_str("not_visible"));
            let code = m.update(not_visible_leaf, not_visible);
            if let Some(code) = code {
                startup.push(StartupAction::Exit(code.code()));
            }
            let no_draw = m.new_child_leaf(node, String::from_str("no_draw"));
            startup.push(StartupAction::NoDrawTimeout(no_draw));
            assert(m.tree_view() == headless_tree(v0, nv).0);
            Some(HeadlessScene { no_draw })
        } else {
            None
        };
        let ghost vh = m.tree_view();
        let ghost start1 = startup@;
        assert(vh == (if headless { headless_tree(v0, nv).0 } else { v0 }));
        assert(vh.len() == if headless { n + 3 } else { n });
        let node = m.new_child_parent(root, String::from_str("set_timeout_delay"));
        let ghost g = vh.len() as int;
        let ghost vd = m.tree_view();
        assert(vd == add_delay_tests(vd, g, 0));
        let l = m.new_child_leaf(node, String::from_str("100ms"));
        startup.push(StartupAction::TimeoutDelayTest { leaf: l, millis: 100 });
        assert(m.tree_view() == add_delay_tests(vd, g, 1));
        let l = m.new_child_leaf(node, String::from_str("1s"));
        startup.push(StartupAction::TimeoutDelayTest { leaf: l, millis: 1000 });
        assert(m.tree_view() == add_delay_tests(vd, g, 2));
        let l = m.new_child_leaf(node, String::from_str("1.5s"));
        startup.push(StartupAction::TimeoutDelayTest { leaf: l, millis: 1500 });
        assert(m.tree_view() == add_delay_tests(vd, g, 3));
        let l = m.new_child_leaf(node, String::from_str("3s"));
        startup.push(StartupAction::TimeoutDelayTest { leaf: l, millis: 3000 });
        assert(m.tree_view() == add_delay_tests(vd, g, 4));
        let l = m.new_child_leaf(node, String::from_str("5s"));
        startup.push(StartupAction::TimeoutDelayTest { leaf: l, millis: 5000 });
        assert(m.tree_view() == add_delay_tests(vd, g, 5));
        let l = m.new_child_leaf(node, String::from_str("10s"));
        startup.push(StartupAction::TimeoutDelayTest { leaf: l, millis: 10000 });
        assert(m.tree_view() == add_delay_tests(vd, g, 6));
        assert(startup@ =~= start0 + test_scene_startup(v0, headless, old(m).init_done(), nv));
        TestScene { headless: headless_scene }
    }
}

/// The main window: whether a window event concerns it (application events
/// concern no window).
pub open spec fn concerns_main_window(e: GameEvent) -> bool {
    match e {
        GameEvent::Resized { main_window, .. } => main_window,
        GameEvent::RedrawRequested { main_window } => main_window,
        GameEvent::KeyReleased { main_window, .. } => main_window,
        GameEvent::CloseRequested { main_window } => main_window,
        _ => false,
    }
}

/// A window event of another window goes through the root scene untouched:
/// it passes on, asks for nothing, and changes no state.
pub proof fn law_other_windows_pass(flags: SceneFlags, surface: bool, s: RootState, e: GameEvent)
    requires
        !concerns_main_window(e),
        !(e is Resumed),
        !(e is Suspended),
    ensures
        root_step(flags, surface, s, e) == (s, Some(e), Seq::<SceneAction>::empty()),
{
    assert(Seq::<SceneAction>::empty() + Seq::<SceneAction>::empty() =~= Seq::<SceneAction>::empty());
}

/// Exactly the resizes and redraw requests of the main window are consumed;
/// every other event passes on unchanged.
pub proof fn law_consumed_events(flags: SceneFlags, surface: bool, s: RootState, e: GameEvent)
    ensures
        root_step(flags, surface, s, e).1 is None <==> (concerns_main_window(e) && (e is Resized
            || e is RedrawRequested)),
        root_step(flags, surface, s, e).1 is Some ==> root_step(flags, surface, s, e).1 == Some(e),
{
}

proof fn lemma_add_delay_tests_frame(v: Seq<NodeView>, g: int, k: nat, i: int)
    requires
        0 <= i < v.len(),
        0 <= g < v.len(),
        i != g,
    ensures
        add_delay_tests(v, g, k).len() == v.len() + k,
        add_delay_tests(v, g, k)[i] == v[i],
    decreases k,
{
    if k > 0 {
        lemma_add_delay_tests_frame(v, g, (k - 1) as nat, i);
        let prev = add_delay_tests(v, g, (k - 1) as nat);
        assert(add_delay_tests(v, g, k) == add_child(prev, g, delay_name(k - 1), false));
    }
}

/// In headless test mode the `not_visible` test (the second node that set-up
/// adds, named `headless.not_visible` under the root) holds exactly the
/// result that set-up was given: a visible window fails it, a hidden one
/// passes it.
pub proof fn law_not_visible_holds_given_result(v: Seq<NodeView>, nv: TestOutcome)
    requires
        tree_wf(v),
        v.len() + 10 < usize::MAX,
    ensures
        test_scene_tree(v, true, nv)[v.len() as int + 1].result == Some(nv),
        test_scene_tree(v, true, nv)[v.len() as int + 1].full_name == child_full_name(
            child_full_name(v[0].full_name, "headless"@),
            "not_visible"@,
        ),
{
    let n = v.len() as int;
    let v1 = add_child(v, 0, "headless"@, true);
    lemma_add_child_wf(v, 0, "headless"@, true);
    assert(v1[n].children == Some(Seq::<usize>::empty()));
    let v2 = add_child(v1, n, "not_visible"@, false);
    lemma_add_child_wf(v1, n, "not_visible"@, false);
    assert(kids(v2, n) =~= seq![(n + 1) as usize]);
    assert(v2[n + 1].parent == Some(n as usize));
    assert(v2[n + 1].name == "not_visible"@);
    lemma_child_named(v2, n, "not_visible"@, 0);
    assert(child_named(v2, n, "not_visible"@) == n + 1);
    law_update_records_result(v2, n + 1, nv);
    let (v3, rr) = propagate(v2, n + 1, nv);
    assert(v3.len() == v2.len());
    assert(v3[n + 1].result == Some(nv));
    assert(v3[n + 1].full_name == v2[n + 1].full_name);
    assert(v2[n + 1].full_name == child_full_name(v1[n].full_name, "not_visible"@));
    assert(v1[n].full_name == child_full_name(v[0].full_name, "headless"@));
    assert(headless_tree(v, nv).0 == add_child(v3, n, "no_draw"@, false));
    let vh = headless_tree(v, nv).0;
    assert(vh[n + 1] == v3[n + 1]);
    let vd = add_child(vh, 0, "set_timeout_delay"@, true);
    assert(vd[n + 1] == vh[n + 1]);
    assert(vd.len() == vh.len() + 1);
    lemma_add_delay_tests_frame(vd, vh.len() as int, 6, n + 1);
}

/// Pressing Q on the main window switches frequency profiling to the other
/// setting and announces the new setting, leaving all else as it was; so
/// pressing it twice switches it on and off again (or off and on) and
/// restores the state.
pub proof fn law_freq_profile_toggle(flags: SceneFlags, surface: bool, s: RootState)
    ensures
        ({
            let e = GameEvent::KeyReleased { main_window: true, key: GameKey::Q };
            let (s1, e1, a1) = root_step(flags, surface, s, e);
            let (s2, e2, a2) = root_step(flags, surface, s1, e);
            &&& s1.freq_profile == !s.freq_profile
            &&& s1.vsync == s.vsync
            &&& s1.throttle == s.throttle
            &&& e1 == Some(e)
            &&& a1 == seq![SceneAction::SetFrequencyProfiling(!s.freq_profile)]
            &&& a2 == seq![SceneAction::SetFrequencyProfiling(s.freq_profile)]
            &&& e2 == Some(e)
            &&& s2 == s
        }),
{
    let e = GameEvent::KeyReleased { main_window: true, key: GameKey::Q };
    assert(surface_step(surface, e) == Seq::<SceneAction>::empty());
    assert(Seq::<SceneAction>::empty() + seq![SceneAction::SetFrequencyProfiling(!s.freq_profile)]
        =~= seq![SceneAction::SetFrequencyProfiling(!s.freq_profile)]);
    assert(Seq::<SceneAction>::empty() + seq![SceneAction::SetFrequencyProfiling(s.freq_profile)]
        =~= seq![SceneAction::SetFrequencyProfiling(s.freq_profile)]);
}

/// The other utility events: R on the main window starts the update-delay
/// test, a close request of the main window exits with code 0, and a resume
/// lists the present modes (after the surface is created when the window is
/// shown); none of them changes the state, and all pass on. A key released
/// in another window does nothing.
pub proof fn law_utility_events(flags: SceneFlags, surface: bool, s: RootState, key: GameKey)
    ensures
        root_step(flags, surface, s, GameEvent::KeyReleased { main_window: true, key: GameKey::R }) == (
            s,
            Some(GameEvent::KeyReleased { main_window: true, key: GameKey::R }),
            seq![SceneAction::StartUpdateDelayTest],
        ),
        root_step(flags, surface, s, GameEvent::CloseRequested { main_window: true }) == (
            s,
            Some(GameEvent::CloseRequested { main_window: true }),
            seq![SceneAction::Exit(0)],
        ),
        root_step(flags, surface, s, GameEvent::Resumed) == (
            s,
            Some(GameEvent::Resumed),
            if surface {
                seq![SceneAction::CreateSurface, SceneAction::ListPresentModes]
            } else {
                seq![SceneAction::ListPresentModes]
            },
        ),
        root_step(flags, surface, s, GameEvent::Suspended).2 == (if surface {
            seq![SceneAction::DestroySurface]
        } else {
            Seq::<SceneAction>::empty()
        }),
        root_step(flags, surface, s, GameEvent::KeyReleased { main_window: false, key }) == (
            s,
            Some(GameEvent::KeyReleased { main_window: false, key }),
            Seq::<SceneAction>::empty(),
        ),
{
    assert(Seq::<SceneAction>::empty() + seq![SceneAction::StartUpdateDelayTest] =~= seq![SceneAction::StartUpdateDelayTest]);
    assert(Seq::<SceneAction>::empty() + seq![SceneAction::Exit(0)] =~= seq![SceneAction::Exit(0)]);
    assert(seq![SceneAction::CreateSurface] + seq![SceneAction::ListPresentModes] =~= seq![SceneAction::CreateSurface, SceneAction::ListPresentModes]);
    assert(Seq::<SceneAction>::empty() + seq![SceneAction::ListPresentModes] =~= seq![SceneAction::ListPresentModes]);
    assert(seq![SceneAction::DestroySurface] + Seq::<SceneAction>::empty() =~= seq![SceneAction::DestroySurface]);
    assert(Seq::<SceneAction>::empty() + Seq::<SceneAction>::empty() =~= Seq::<SceneAction>::empty());
}

/// A redraw request of the main window is consumed, and waits for the frame
/// exactly when the event loop blocks; a resize of the main window is
/// consumed, a size with a zero side doing nothing at all, and otherwise the
/// throttle decides.
pub proof fn law_main_window_redraw_and_resize(flags: SceneFlags, surface: bool, s: RootState, width: u32, height: u32)
    ensures
        root_step(flags, surface, s, GameEvent::RedrawRequested { main_window: true }) == (
            s,
            None::<GameEvent>,
            if flags.block_event_loop {
                seq![SceneAction::RedrawSync]
            } else {
                Seq::<SceneAction>::empty()
            },
        ),
        (width == 0 || height == 0) ==> root_step(
            flags,
            surface,
            s,
            GameEvent::Resized { main_window: true, width, height },
        ) == (s, None::<GameEvent>, Seq::<SceneAction>::empty()),
        (width > 0 && height > 0) ==> ({
            let (t, step) = on_resized(
                s.throttle,
                DisplaySize { width, height },
                flags.throttle_resize,
                flags.block_event_loop,
            );
            root_step(flags, surface, s, GameEvent::Resized { main_window: true, width, height }) == (
                RootState { throttle: t, vsync: s.vsync, freq_profile: s.freq_profile },
                None::<GameEvent>,
                resize_step_actions(step),
            )
        }),
{
}

/// Pressing E twice switches vertical sync off and on again (or on and off),
/// and leaves the state as it was.
pub proof fn law_vsync_toggle_twice(flags: SceneFlags, surface: bool, s: RootState)
    ensures
        ({
            let e = GameEvent::KeyReleased { main_window: true, key: GameKey::E };
            let (s1, _, a1) = root_step(flags, surface, s, e);
            let (s2, _, a2) = root_step(flags, surface, s1, e);
            &&& s2 == s
            &&& a1 == seq![SceneAction::SetVsync(!s.vsync)]
            &&& a2 == seq![SceneAction::SetVsync(s.vsync)]
        }),
{
    let e = GameEvent::KeyReleased { main_window: true, key: GameKey::E };
    assert(surface_step(surface, e) == Seq::<SceneAction>::empty());
    assert(Seq::<SceneAction>::empty() + seq![SceneAction::SetVsync(!s.vsync)] =~= seq![SceneAction::SetVsync(!s.vsync)]);
    assert(Seq::<SceneAction>::empty() + seq![SceneAction::SetVsync(s.vsync)] =~= seq![SceneAction::SetVsync(s.vsync)]);
}

} // verus!
