use vstd::prelude::*;

verus! {

#[verifier::external_type_specification]
#[verifier::external_body]
pub struct ExInstant(std::time::Instant);

/// `std::time::Instant::now`: the current time of the monotonic clock; as it
/// depends on when it is called, nothing is claimed of it.
pub assume_specification[ std::time::Instant::now ]() -> std::time::Instant;

/// A clock that counts from the moment it was made.
pub struct SteadyClock {
    start: std::time::Instant,
}

impl SteadyClock {
    /// The moment the clock was made.
    pub closed spec fn spec_start(&self) -> std::time::Instant {
        self.start
    }

    /// A clock started now.
    pub fn new() -> (c: SteadyClock) {
        let now = std::time::Instant::now();
        SteadyClock::started_at(now)
    }

    /// A clock that counts from `start`.
    pub fn started_at(start: std::time::Instant) -> (c: SteadyClock)
        ensures
            c.spec_start() == start,
    {
        SteadyClock { start }
    }

    /// The moment the clock was made.
    pub fn start(&self) -> (s: &std::time::Instant)
        ensures
            *s == self.spec_start(),
    {
        &self.start
    }
}

} // verus!
