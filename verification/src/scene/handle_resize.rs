use vstd::prelude::*;

verus! {

/// A display size in physical pixels.
#[derive(Clone, Copy, PartialEq, Eq, Debug, Structural)]
pub struct DisplaySize {
    pub width: u32,
    pub height: u32,
}

impl DisplaySize {
    /// The size `width` x `height`, or `None` when a side is 0.
    pub fn new(width: u32, height: u32) -> (s: Option<DisplaySize>)
        ensures
            s == (if width > 0 && height > 0 {
                Some(DisplaySize { width, height })
            } else {
                None
            }),
    {
        if width > 0 && height > 0 {
            Some(DisplaySize { width, height })
        } else {
            None
        }
    }
}

/// The state of resize throttling: whether resizes wait for the throttle
/// timeout, and the latest size that arrived meanwhile.
#[derive(Clone, Copy, PartialEq, Eq, Debug, Structural)]
pub struct ResizeThrottleState {
    pub resize_should_wait: bool,
    pub resize_size: Option<DisplaySize>,
}

/// A resize of the graphics to `size`, waiting for the draw side when `block`.
#[derive(Clone, Copy, PartialEq, Eq, Debug, Structural)]
pub struct ResizeRequest {
    pub size: DisplaySize,
    pub block: bool,
}

/// What one step asks of the caller: resize the graphics to a size (waiting
/// for the draw side when `block`) and report the resize to the scenes, and
/// arm the throttle timeout.
#[derive(Clone, Copy, PartialEq, Eq, Debug, Structural)]
pub struct ResizeStep {
    pub resize: Option<ResizeRequest>,
    pub set_timeout: bool,
}

/// A waiting size is only kept while resizes wait.
pub open spec fn throttle_wf(s: ResizeThrottleState) -> bool {
    s.resize_size is Some ==> s.resize_should_wait
}

/// A `Resized` event with the (non-zero) size `size`: without throttling it
/// resizes at once (blocking unless the event loop blocks itself); with
/// throttling it resizes at once and starts waiting, or, while waiting,
/// keeps the size for later.
pub open spec fn on_resized(s: ResizeThrottleState, size: DisplaySize, throttle: bool, block_event_loop: bool) -> (
    ResizeThrottleState,
    ResizeStep,
) {
    if throttle {
        if s.resize_should_wait {
            (
                ResizeThrottleState { resize_should_wait: true, resize_size: Some(size) },
                ResizeStep { resize: None, set_timeout: false },
            )
        } else {
            (
                ResizeThrottleState { resize_should_wait: true, resize_size: s.resize_size },
                ResizeStep { resize: Some(ResizeRequest { size: size, block: false }), set_timeout: true },
            )
        }
    } else {
        (s, ResizeStep { resize: Some(ResizeRequest { size: size, block: !block_event_loop }), set_timeout: false })
    }
}

/// The throttle timeout: a size that waited is applied and the timeout is
/// armed again; with none, resizes stop waiting.
pub open spec fn on_timeout(s: ResizeThrottleState) -> (ResizeThrottleState, ResizeStep) {
    match s.resize_size {
        Some(size) => (
            ResizeThrottleState { resize_should_wait: s.resize_should_wait, resize_size: None },
            ResizeStep { resize: Some(ResizeRequest { size: size, block: false }), set_timeout: true },
        ),
        None => (
            ResizeThrottleState { resize_should_wait: false, resize_size: None },
            ResizeStep { resize: None, set_timeout: false },
        ),
    }
}

/// Throttled `Resized` events with the sizes `sizes`, one after the other.
pub open spec fn resize_burst(s: ResizeThrottleState, sizes: Seq<DisplaySize>, block_event_loop: bool) -> ResizeThrottleState
    decreases sizes.len(),
{
    if sizes.len() == 0 {
        s
    } else {
        on_resized(resize_burst(s, sizes.drop_last(), block_event_loop), sizes.last(), true, block_event_loop).0
    }
}

/// Throttles resize events of the main window.
pub struct Scene {
    state: ResizeThrottleState,
}

impl Scene {
    /// How long resizes wait, in milliseconds.
    pub const THROTTLE_MILLIS: u64 = 100;

    /// The throttle state.
    pub closed spec fn throttle(&self) -> ResizeThrottleState {
        self.state
    }

    /// A waiting size is only kept while resizes wait.
    #[verifier::type_invariant]
    spec fn inv(self) -> bool {
        throttle_wf(self.state)
    }

    /// A scene that does not wait.
    pub fn new() -> (s: Scene)
        ensures
            s.throttle() == (ResizeThrottleState { resize_should_wait: false, resize_size: None }),
    {
        Scene { state: ResizeThrottleState { resize_should_wait: false, resize_size: None } }
    }

    /// The main window was resized to `width` x `height`; a size with a zero
    /// side is ignored.
    pub fn handle_resized(&mut self, width: u32, height: u32, throttle: bool, block_event_loop: bool) -> (step: ResizeStep)
        ensures
            throttle_wf(final(self).throttle()),
            (width == 0 || height == 0) ==> final(self).throttle() == old(self).throttle()
                && step == (ResizeStep { resize: None, set_timeout: false }),
            (width > 0 && height > 0) ==> (final(self).throttle(), step) == on_resized(
                old(self).throttle(),
                DisplaySize { width, height },
                throttle,
                block_event_loop,
            ),
    {
        proof {
            use_type_invariant(&*self);
        }
        match DisplaySize::new(width, height) {
            None => ResizeStep { resize: None, set_timeout: false },
            Some(size) => self.resize_to(size, throttle, block_event_loop),
        }
    }

    /// One `Resized` event with a valid size; see [`on_resized`].
    pub fn resize_to(&mut self, size: DisplaySize, throttle: bool, block_event_loop: bool) -> (step: ResizeStep)
        ensures
            throttle_wf(final(self).throttle()),
            (final(self).throttle(), step) == on_resized(old(self).throttle(), size, throttle, block_event_loop),
    {
        proof {
            use_type_invariant(&*self);
        }
        if throttle {
            if self.state.resize_should_wait {
                self.state.resize_size = Some(size);
                ResizeStep { resize: None, set_timeout: false }
            } else {
                self.state.resize_should_wait = true;
                ResizeStep { resize: Some(ResizeRequest { size: size, block: false }), set_timeout: true }
            }
        } else {
            ResizeStep { resize: Some(ResizeRequest { size: size, block: !block_event_loop }), set_timeout: false }
        }
    }

    /// The throttle timeout fired; see [`on_timeout`].
    pub fn resize_timeout_func(&mut self) -> (step: ResizeStep)
        ensures
            throttle_wf(final(self).throttle()),
            (final(self).throttle(), step) == on_timeout(old(self).throttle()),
    {
        proof {
            use_type_invariant(&*self);
        }
        match self.state.resize_size {
            Some(size) => {
                self.state = ResizeThrottleState { resize_should_wait: true, resize_size: None };
                ResizeStep { resize: Some(ResizeRequest { size: size, block: false }), set_timeout: true }
            },
            None => {
                self.state = ResizeThrottleState { resize_should_wait: false, resize_size: None };
                ResizeStep { resize: None, set_timeout: false }
            },
        }
    }
}

/// While resizes wait, a burst of resize events resizes nothing and keeps only
/// the last size; the next timeout applies exactly that size.
pub proof fn law_burst_keeps_last(s: ResizeThrottleState, sizes: Seq<DisplaySize>, block_event_loop: bool)
    requires
        s.resize_should_wait,
        sizes.len() > 0,
    ensures
        resize_burst(s, sizes, block_event_loop) == (ResizeThrottleState {
            resize_should_wait: true,
            resize_size: Some(sizes.last()),
        }),
        on_timeout(resize_burst(s, sizes, block_event_loop)).1 == (ResizeStep {
            resize: Some(ResizeRequest { size: sizes.last(), block: false }),
            set_timeout: true,
        }),
    decreases sizes.len(),
{
    if sizes.len() > 1 {
        law_burst_keeps_last(s, sizes.drop_last(), block_event_loop);
    } else {
        assert(resize_burst(s, sizes.drop_last(), block_event_loop) == s);
    }
}

/// A waiting state asks for no resize on any event: resizes while waiting only
/// come from timeouts.
pub proof fn law_waiting_never_resizes(s: ResizeThrottleState, size: DisplaySize, block_event_loop: bool)
    requires
        s.resize_should_wait,
    ensures
        on_resized(s, size, true, block_event_loop).1.resize is None,
        on_resized(s, size, true, block_event_loop).0.resize_should_wait,
{
}

/// A timeout that applies a waiting size keeps resizes waiting (and asks
/// for the next timeout), so a resize event right after it is kept for that
/// timeout instead of being applied at once.
pub proof fn law_timeout_with_size_keeps_waiting(s: ResizeThrottleState, size: DisplaySize, block_event_loop: bool)
    requires
        throttle_wf(s),
        s.resize_size is Some,
    ensures
        on_timeout(s).0 == (ResizeThrottleState { resize_should_wait: true, resize_size: None }),
        on_timeout(s).1 == (ResizeStep {
            resize: Some(ResizeRequest { size: s.resize_size->Some_0, block: false }),
            set_timeout: true,
        }),
        on_resized(on_timeout(s).0, size, true, block_event_loop) == (
            ResizeThrottleState { resize_should_wait: true, resize_size: Some(size) },
            ResizeStep { resize: None, set_timeout: false },
        ),
{
}

/// Without throttling every resize event is applied at once, blocking
/// exactly when the event loop does not block by itself, and the throttle
/// state is left alone.
pub proof fn law_unthrottled_resizes_at_once(s: ResizeThrottleState, size: DisplaySize, block_event_loop: bool)
    ensures
        on_resized(s, size, false, block_event_loop) == (
            s,
            ResizeStep { resize: Some(ResizeRequest { size: size, block: !block_event_loop }), set_timeout: false },
        ),
{
}

/// From a state that does not wait, a throttled resize event is applied at
/// once, without blocking, and starts the wait with its timeout.
pub proof fn law_idle_throttled_resize(s: ResizeThrottleState, size: DisplaySize, block_event_loop: bool)
    requires
        throttle_wf(s),
        !s.resize_should_wait,
    ensures
        on_resized(s, size, true, block_event_loop) == (
            ResizeThrottleState { resize_should_wait: true, resize_size: None },
            ResizeStep { resize: Some(ResizeRequest { size: size, block: false }), set_timeout: true },
        ),
{
}

/// A timeout with no waiting size ends the waiting, and the next event is
/// applied at once and starts a new wait.
pub proof fn law_idle_after_quiet_timeout(s: ResizeThrottleState, size: DisplaySize, block_event_loop: bool)
    requires
        s.resize_size is None,
    ensures
        !on_timeout(s).0.resize_should_wait,
        on_resized(on_timeout(s).0, size, true, block_event_loop).1 == (ResizeStep {
            resize: Some(ResizeRequest { size: size, block: false }),
            set_timeout: true,
        }),
{
}

/// How many of the throttled `Resized` events with the sizes `sizes` resize
/// at once.
pub open spec fn burst_resizes(s: ResizeThrottleState, sizes: Seq<DisplaySize>, block_event_loop: bool) -> nat
    decreases sizes.len(),
{
    if sizes.len() == 0 {
        0
    } else {
        let prev = resize_burst(s, sizes.drop_last(), block_event_loop);
        burst_resizes(s, sizes.drop_last(), block_event_loop) + if on_resized(
            prev,
            sizes.last(),
            true,
            block_event_loop,
        ).1.resize is Some {
            1nat
        } else {
            0nat
        }
    }
}

/// A burst of throttled resize events, from any state: at most one of them
/// resizes at once (the first, unless resizes already wait), the burst ends
/// waiting, and its last size is applied, either at once when it was the
/// only one and nothing waited, or by the next timeout.
pub proof fn law_burst_delivers_last(s: ResizeThrottleState, sizes: Seq<DisplaySize>, block_event_loop: bool)
    requires
        throttle_wf(s),
        sizes.len() > 0,
    ensures
        burst_resizes(s, sizes, block_event_loop) == (if s.resize_should_wait {
            0nat
        } else {
            1nat
        }),
        !s.resize_should_wait ==> on_resized(s, sizes[0], true, block_event_loop).1.resize == Some(
            ResizeRequest { size: sizes[0], block: false },
        ),
        resize_burst(s, sizes, block_event_loop).resize_should_wait,
        (s.resize_should_wait || sizes.len() > 1) ==> on_timeout(resize_burst(s, sizes, block_event_loop)).1.resize
            == Some(ResizeRequest { size: sizes.last(), block: false }),
        (!s.resize_should_wait && sizes.len() == 1) ==> on_timeout(
            resize_burst(s, sizes, block_event_loop),
        ).1.resize is None,
    decreases sizes.len(),
{
    let init = sizes.drop_last();
    if init.len() > 0 {
        law_burst_delivers_last(s, init, block_event_loop);
        assert(init[0] == sizes[0]);
    } else {
        assert(resize_burst(s, init, block_event_loop) == s);
        assert(burst_resizes(s, init, block_event_loop) == 0);
        assert(sizes.last() == sizes[0]);
    }
}

} // verus!
