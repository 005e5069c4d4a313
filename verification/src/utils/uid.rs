use vstd::prelude::*;

verus! {

/// A unique identifier, handed out by a [`UidCounter`] in increasing order.
#[derive(Clone, Copy, Debug, Hash, PartialEq, Eq, PartialOrd, Ord)]
pub struct Uid(u64);

/// The source of fresh [`Uid`]s: it holds the value that the next identifier gets.
/// Like an atomic `fetch_add`, it wraps around after `u64::MAX`.
pub struct UidCounter {
    next: u64,
}

impl UidCounter {
    /// A counter whose first identifier is 0.
    pub fn new() -> (c: UidCounter)
        ensures
            c.next_value() == 0,
    {
        UidCounter { next: 0 }
    }

    /// The raw value that the next identifier will carry.
    pub closed spec fn next_value(&self) -> u64 {
        self.next
    }

    /// Returns the current value and advances the counter by one (wrapping).
    pub fn fetch_next(&mut self) -> (id: u64)
        ensures
            id == old(self).next_value(),
            final(self).next_value() == (if old(self).next_value() == u64::MAX {
                0
            } else {
                (old(self).next_value() + 1) as u64
            }),
    {
        let id = self.next;
        self.next = self.next.wrapping_add(1);
        id
    }
}

impl Uid {
    /// The raw value of the identifier.
    pub closed spec fn value(self) -> u64 {
        self.0
    }

    /// Takes a fresh identifier from `counter`.
    pub fn new(counter: &mut UidCounter) -> (uid: Uid)
        ensures
            uid.value() == old(counter).next_value(),
            final(counter).next_value() == (if old(counter).next_value() == u64::MAX {
                0
            } else {
                (old(counter).next_value() + 1) as u64
            }),
    {
        Uid(counter.fetch_next())
    }

    /// The raw value of the identifier.
    pub fn get(&self) -> (v: u64)
        ensures
            v == self.value(),
    {
        self.0
    }

    /// An identifier with the given raw value.
    pub fn from_raw(id: u64) -> (uid: Uid)
        ensures
            uid.value() == id,
    {
        Uid(id)
    }
}

/// The raw value that a counter holding `start` holds after `k` identifiers
/// were taken from it.
pub open spec fn value_after(start: u64, k: nat) -> u64
    decreases k,
{
    if k == 0 {
        start
    } else {
        let prev = value_after(start, (k - 1) as nat);
        if prev == u64::MAX {
            0
        } else {
            (prev + 1) as u64
        }
    }
}

proof fn lemma_value_after(start: u64, k: nat)
    ensures
        value_after(start, k) == (start + k) % 0x1_0000_0000_0000_0000,
    decreases k,
{
    if k > 0 {
        lemma_value_after(start, (k - 1) as nat);
    }
}

/// Identifiers taken one after another from one counter are pairwise
/// distinct, as long as fewer than 2^64 of them are taken.
pub proof fn law_ids_distinct(start: u64, j: nat, k: nat)
    requires
        j < k < 0x1_0000_0000_0000_0000,
    ensures
        value_after(start, j) != value_after(start, k),
{
    lemma_value_after(start, j);
    lemma_value_after(start, k);
}

/// Identifiers taken one after another from one counter increase, as long as
/// the counter does not wrap around.
pub proof fn law_ids_increase(start: u64, j: nat, k: nat)
    requires
        j < k,
        start + k < 0x1_0000_0000_0000_0000,
    ensures
        value_after(start, j) < value_after(start, k),
        value_after(start, k) == start + k,
{
    lemma_value_after(start, j);
    lemma_value_after(start, k);
}

/// An identifier is its value: two identifiers with the same value are the
/// same, so `Uid::from_raw(u.get()) == u`.
pub proof fn law_uid_is_its_value(a: Uid, b: Uid)
    requires
        a.value() == b.value(),
    ensures
        a == b,
{
}

} // verus!
