use std::collections::VecDeque;
use vstd::prelude::*;

verus! {

/// The samples that a frequency is measured over: the times of the last
/// `num_sample_frames` frames, oldest first.
pub struct FrequencyProfiler<T> {
    num_sample_frames: usize,
    times: VecDeque<T>,
}

/// The window after a new sample `cur`, and what the frequency is measured
/// against: the oldest sample kept (dropped when the window is full) and the
/// number of frames between it and `cur`. The frequency is that number over
/// the time from that sample to `cur`.
pub open spec fn window_step<T>(times: Seq<T>, n: nat, cur: T) -> (Seq<T>, Option<(T, usize)>) {
    if times.len() == 0 {
        (times.push(cur), None)
    } else if times.len() < n {
        (times.push(cur), Some((times[0], (times.len() + 1) as usize)))
    } else {
        (times.drop_first().push(cur), Some((times[0], times.len() as usize)))
    }
}

impl<T> FrequencyProfiler<T> {
    /// No more than the window's size is kept.
    #[verifier::type_invariant]
    spec fn inv(self) -> bool {
        0 < self.num_sample_frames && self.times@.len() <= self.num_sample_frames
    }
}

impl<T: Copy> FrequencyProfiler<T> {
    /// The samples kept, oldest first.
    pub closed spec fn spec_times(&self) -> Seq<T> {
        self.times@
    }

    /// How many samples are kept at most.
    pub closed spec fn spec_num_sample_frames(&self) -> nat {
        self.num_sample_frames as nat
    }


    /// A profiler over windows of `num_sample_frames` frames, with no sample yet.
    pub fn new(num_sample_frames: usize) -> (p: FrequencyProfiler<T>)
        requires
            num_sample_frames > 0,
        ensures
            p.spec_num_sample_frames() == num_sample_frames,
            p.spec_times() == Seq::<T>::empty(),
    {
        FrequencyProfiler { num_sample_frames, times: VecDeque::new() }
    }

    /// Adds the sample `cur`; see [`window_step`].
    pub fn update_and_get_window(&mut self, cur: T) -> (r: Option<(T, usize)>)
        ensures
            final(self).spec_times().len() <= final(self).spec_num_sample_frames(),
            final(self).spec_num_sample_frames() == old(self).spec_num_sample_frames(),
            (final(self).spec_times(), r) == window_step(old(self).spec_times(), old(self).spec_num_sample_frames(), cur),
    {
        proof {
            use_type_invariant(&*self);
        }
        let ghost old_times = self.times@;
        let mut times: VecDeque<T> = VecDeque::new();
        std::mem::swap(&mut times, &mut self.times);
        let r = if times.len() == 0 {
            None
        } else if times.len() < self.num_sample_frames {
            Some((times[0], times.len() + 1))
        } else {
            let first = times.pop_front();
            match first {
                Some(t) => Some((t, times.len() + 1)),
                None => None,
            }
        };
        times.push_back(cur);
        proof {
            if old_times.len() >= self.num_sample_frames && old_times.len() > 0 {
                assert(times@ =~= old_times.drop_first().push(cur));
            }
        }
        self.times = times;
        r
    }
}

/// The window never holds more samples than its size, and after a full
/// window each new sample drops exactly the oldest one.
pub proof fn law_window_bounded<T>(times: Seq<T>, n: nat, cur: T)
    requires
        0 < n,
        times.len() <= n,
    ensures
        window_step(times, n, cur).0.len() <= n,
        window_step(times, n, cur).0.last() == cur,
        times.len() == n ==> window_step(times, n, cur).0 == times.drop_first().push(cur),
{
}

/// The window after one call for each of the readings `readings`, from an
/// empty window of size `n`.
pub open spec fn window_after<T>(readings: Seq<T>, n: nat) -> Seq<T>
    decreases readings.len(),
{
    if readings.len() == 0 {
        Seq::<T>::empty()
    } else {
        window_step(window_after(readings.drop_last(), n), n, readings.last()).0
    }
}

/// The window after a run of calls from an empty window holds the last
/// readings, at most `n` of them, oldest first.
pub proof fn law_window_holds_last_readings<T>(readings: Seq<T>, n: nat)
    requires
        0 < n,
    ensures
        window_after(readings, n) == readings.subrange(
            if readings.len() > n {
                readings.len() - n
            } else {
                0
            },
            readings.len() as int,
        ),
    decreases readings.len(),
{
    if readings.len() > 0 {
        let init = readings.drop_last();
        law_window_holds_last_readings(init, n);
        let w = window_after(init, n);
        if init.len() < n {
            assert(w.push(readings.last()) =~= readings.subrange(0, readings.len() as int));
        } else {
            assert(w.drop_first().push(readings.last()) =~= readings.subrange(
                readings.len() - n,
                readings.len() as int,
            ));
        }
    } else {
        assert(readings.subrange(0, 0) =~= Seq::<T>::empty());
    }
}

/// What the `k`-th call of a run (`k` = `readings.len()`) measures against:
/// nothing on the first call; before the window is full, the first reading
/// and `k` frames; once it is full, the reading `n` calls back and `n` frames.
pub proof fn law_call_result<T>(readings: Seq<T>, n: nat)
    requires
        0 < n,
        readings.len() > 0,
        readings.len() <= usize::MAX,
    ensures
        window_step(window_after(readings.drop_last(), n), n, readings.last()).1 == (if readings.len() == 1 {
            None
        } else if readings.len() - 1 < n {
            Some((readings[0], readings.len() as usize))
        } else {
            Some((readings[readings.len() - 1 - n], n as usize))
        }),
{
    let init = readings.drop_last();
    law_window_holds_last_readings(init, n);
}

} // verus!
