use amk::utils::args::{default_block_event_loop, Args, LogLevel};
use amk::utils::clock::SteadyClock;
use amk::utils::debug_handle::DebugHandle;
use amk::utils::error::ResultExt;
use amk::utils::frequency_runner::FrequencyProfiler;
use amk::utils::uid::{Uid, UidCounter};

#[test]
fn uids_are_sequential() {
    let mut c = UidCounter::new();
    let a = Uid::new(&mut c);
    let b = Uid::new(&mut c);
    assert_eq!(a.get(), 0);
    assert_eq!(b.get(), 1);
    assert!(a < b);
    assert_eq!(Uid::from_raw(42).get(), 42);
    assert_eq!(Uid::from_raw(7), Uid::from_raw(7));
}

#[test]
fn default_args() {
    let a = Args::defaults(false);
    assert_eq!(a.log_level, LogLevel::Trace);
    assert_eq!(a.log_file.as_deref(), Some("amk.log"));
    assert!(!a.block_event_loop);
    assert!(a.throttle_resize);
    assert!(!a.test && !a.headless && !a.auto_run_tests);
    let w = Args::defaults(true);
    assert!(w.block_event_loop);
    assert!(!w.throttle_resize);
    assert!(default_block_event_loop(true));
    assert!(!default_block_event_loop(false));
}

#[test]
fn steady_clock_starts_now() {
    let before = std::time::Instant::now();
    let c = SteadyClock::new();
    assert!(*c.start() >= before);
    assert!(*c.start() <= std::time::Instant::now());
}

#[test]
fn debug_handle_keeps_drop_check() {
    assert!(DebugHandle::new(true).drop_check());
    assert!(!DebugHandle::new(false).drop_check());
}

#[test]
fn result_ext_keeps_values() {
    let ok: Result<u8, String> = Ok(3);
    let err: Result<u8, String> = Err("e".to_string());
    assert_eq!(ok.clone().log_error(), Some(3));
    assert_eq!(ok.clone().log_warn(), Some(3));
    assert_eq!(ok.clone().log_info(), Some(3));
    assert_eq!(ok.log_debug(), Some(3));
    assert_eq!(err.clone().log_error(), None);
    assert_eq!(err.log_debug(), None);
}

#[test]
fn frequency_window() {
    let mut p: FrequencyProfiler<u32> = FrequencyProfiler::new(3);
    assert_eq!(p.update_and_get_window(10), None);
    assert_eq!(p.update_and_get_window(20), Some((10, 2)));
    assert_eq!(p.update_and_get_window(30), Some((10, 3)));
    // window full: the oldest sample is dropped
    assert_eq!(p.update_and_get_window(40), Some((10, 3)));
    assert_eq!(p.update_and_get_window(50), Some((20, 3)));
}

#[test]
fn uids_from_one_counter_are_distinct() {
    let mut c = UidCounter::new();
    let ids: Vec<u64> = (0..1000).map(|_| Uid::new(&mut c).get()).collect();
    let mut sorted = ids.clone();
    sorted.sort();
    sorted.dedup();
    assert_eq!(sorted.len(), ids.len());
}

#[test]
fn debug_handle_with_id_keeps_both_fields() {
    let h = DebugHandle::with_id(77, true);
    assert_eq!(h.id(), 77);
    assert!(h.drop_check());
}

#[test]
fn steady_clock_started_at_keeps_start() {
    let then = std::time::Instant::now();
    let c = SteadyClock::started_at(then);
    assert_eq!(*c.start(), then);
}

#[test]
fn frequency_window_over_a_long_run() {
    let n = 4usize;
    let mut p: FrequencyProfiler<u64> = FrequencyProfiler::new(n);
    let readings: Vec<u64> = (1..=20).map(|k| k * 7).collect();
    for (i, &t) in readings.iter().enumerate() {
        let k = i + 1;
        let expected = if k == 1 {
            None
        } else if k - 1 < n {
            Some((readings[0], k))
        } else {
            Some((readings[k - 1 - n], n))
        };
        assert_eq!(p.update_and_get_window(t), expected, "call {k}");
    }
}

#[test]
fn uids_increase_and_are_their_values() {
    let mut c = UidCounter::new();
    let a = Uid::new(&mut c);
    let b = Uid::new(&mut c);
    assert!(a.get() < b.get());
    assert_eq!(b.get(), a.get() + 1);
    assert!(a < b);
    assert_eq!(Uid::from_raw(a.get()), a);
    // from_raw does not advance the counter
    let _ = Uid::from_raw(99);
    assert_eq!(Uid::new(&mut c).get(), b.get() + 1);
}
