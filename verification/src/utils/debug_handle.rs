use rand::RngCore;
use vstd::prelude::*;

verus! {

/// `rand::thread_rng().next_u32()`: a random number; nothing is claimed of it.
#[verifier::external_body]
fn random_u32() -> u32 {
    rand::thread_rng().next_u32()
}

/// A value with a random id, meant to trace when it goes away.
#[derive(Debug)]
pub struct DebugHandle {
    id: u32,
    drop_check: bool,
}

impl DebugHandle {
    /// Whether dropping the handle is reported.
    pub closed spec fn spec_drop_check(&self) -> bool {
        self.drop_check
    }

    /// The handle's id.
    pub closed spec fn spec_id(&self) -> u32 {
        self.id
    }

    /// A handle with a random id.
    pub fn new(drop_check: bool) -> (h: DebugHandle)
        ensures
            h.spec_drop_check() == drop_check,
    {
        let id = random_u32();
        DebugHandle::with_id(id, drop_check)
    }

    /// A handle with the given id.
    pub fn with_id(id: u32, drop_check: bool) -> (h: DebugHandle)
        ensures
            h.spec_id() == id,
            h.spec_drop_check() == drop_check,
    {
        DebugHandle { id, drop_check }
    }

    /// Whether dropping the handle is reported.
    pub fn drop_check(&self) -> (b: bool)
        ensures
            b == self.spec_drop_check(),
    {
        self.drop_check
    }

    /// The handle's id.
    pub fn id(&self) -> (i: u32)
        ensures
            i == self.spec_id(),
    {
        self.id
    }
}

} // verus!
