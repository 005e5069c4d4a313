use vstd::prelude::*;

verus! {

/// How much is logged.
#[derive(Clone, Copy, Debug, PartialEq, Eq, Structural)]
pub enum LogLevel {
    Trace,
    Debug,
    Info,
    Warn,
    Error,
}

/// The program's options.
pub struct Args {
    /// Log level, use this to turn off unnecessary log messages.
    pub log_level: LogLevel,
    /// Log file, can be relative or absolute path.
    pub log_file: Option<String>,
    /// Whether or not to block the event loop on events like `RedrawRequested` or `Resize`.
    pub block_event_loop: bool,
    /// Whether or not to throttle while handling `Resize` events.
    pub throttle_resize: bool,
    /// Whether or not to enable `test` mode, which replaces the content scene by the test scene.
    pub test: bool,
    /// Whether or not to hide the window, which also disables all rendering calls.
    pub headless: bool,
    /// Whether or not to run all tests on launch (in `test` mode).
    pub auto_run_tests: bool,
}

/// Whether the event loop blocks by default: on Windows.
pub open spec fn spec_default_block_event_loop(windows: bool) -> bool {
    windows
}

/// Whether the event loop blocks by default: on Windows.
pub fn default_block_event_loop(windows: bool) -> (b: bool)
    ensures
        b == spec_default_block_event_loop(windows),
{
    windows
}

impl Args {
    /// The options when none is given, on a Windows platform when `windows`:
    /// log everything to `amk.log`, block the event loop on Windows only and
    /// throttle resizes exactly where it does not block, tests off, window shown.
    pub fn defaults(windows: bool) -> (a: Args)
        ensures
            a.log_level == LogLevel::Trace,
            a.log_file matches Some(f) && f@ == "amk.log"@,
            a.block_event_loop == spec_default_block_event_loop(windows),
            a.throttle_resize == !spec_default_block_event_loop(windows),
            !a.test,
            !a.headless,
            !a.auto_run_tests,
    {
        Args {
            log_level: LogLevel::Trace,
            log_file: Some(String::from_str("amk.log")),
            block_event_loop: default_block_event_loop(windows),
            throttle_resize: !default_block_event_loop(windows),
            test: false,
            headless: false,
            auto_run_tests: false,
        }
    }
}

} // verus!
