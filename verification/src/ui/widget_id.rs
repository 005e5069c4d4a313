use vstd::prelude::*;

verus! {

/// The id of a widget.
pub type WidgetId = usize;

/// The source of widget ids: it holds the id that the next widget gets and,
/// like an atomic `fetch_add`, wraps around after `usize::MAX`.
pub struct WidgetIdCounter {
    next: usize,
}

impl WidgetIdCounter {
    /// The id that the next widget gets.
    pub closed spec fn next_id(&self) -> usize {
        self.next
    }

    /// A counter whose first id is 0.
    pub fn new() -> (c: WidgetIdCounter)
        ensures
            c.next_id() == 0,
    {
        WidgetIdCounter { next: 0 }
    }
}

/// Takes a fresh widget id from `counter`.
pub fn acquire_widget_id(counter: &mut WidgetIdCounter) -> (id: WidgetId)
    ensures
        id == old(counter).next_id(),
        final(counter).next_id() == (if old(counter).next_id() == usize::MAX {
            0
        } else {
            (old(counter).next_id() + 1) as usize
        }),
{
    let id = counter.next;
    counter.next = counter.next.wrapping_add(1);
    id
}

/// The id that a counter holding `start` hands out after `k` ids were taken
/// from it.
pub open spec fn id_after(start: usize, k: nat) -> usize
    decreases k,
{
    if k == 0 {
        start
    } else {
        let prev = id_after(start, (k - 1) as nat);
        if prev == usize::MAX {
            0
        } else {
            (prev + 1) as usize
        }
    }
}

proof fn lemma_id_after(start: usize, k: nat)
    ensures
        id_after(start, k) == (start + k) % (usize::MAX + 1),
    decreases k,
{
    if k > 0 {
        lemma_id_after(start, (k - 1) as nat);
        if usize::MAX == 0xffff_ffff {
            assert(id_after(start, k) == (start + k) % 0x1_0000_0000);
        } else {
            assert(id_after(start, k) == (start + k) % 0x1_0000_0000_0000_0000);
        }
    }
}

/// Widget ids taken one after another from one counter are pairwise
/// distinct, as long as no more ids are taken than `usize` has values.
pub proof fn law_widget_ids_distinct(start: usize, j: nat, k: nat)
    requires
        j < k <= usize::MAX,
    ensures
        id_after(start, j) != id_after(start, k),
{
    lemma_id_after(start, j);
    lemma_id_after(start, k);
    if usize::MAX == 0xffff_ffff {
        assert((start + j) % 0x1_0000_0000 != (start + k) % 0x1_0000_0000);
    } else {
        assert((start + j) % 0x1_0000_0000_0000_0000 != (start + k) % 0x1_0000_0000_0000_0000);
    }
}

} // verus!
