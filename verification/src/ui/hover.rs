use std::collections::HashSet;
use vstd::prelude::*;

use super::event::top_most_first;
use super::routing::UICursorEventKind;

verus! {

/// What a container sends to a child that the cursor is over.
#[derive(Clone, Copy, PartialEq, Eq, Debug)]
pub enum HoverAction {
    /// The cursor is not over the child: nothing.
    Skip,
    /// The cursor was over the child before: `CursorMoved` only.
    Move,
    /// The cursor has just come over the child: `CursorEntered`, then `CursorMoved`.
    EnterThenMove,
}

/// The widgets (by id) that the cursor is over, in the order in which they
/// were found.
pub struct HoverTracker {
    hovered: Vec<usize>,
}

/// One pass over the children of a container for a `CursorMoved` event: the
/// children to visit, top-most first, how many were visited, and the widgets
/// that were hovered before and have not been met yet.
pub struct CursorMovePass {
    order: Vec<usize>,
    next: usize,
    remaining: HashSet<usize>,
}

/// What a container does with a cursor event before (or instead of) asking
/// its children.
pub enum CursorStart {
    /// `CursorEntered`: no child gets anything, and the event passes on.
    PassOn,
    /// `CursorExited`: these children get `CursorExited`, in order, and the
    /// event passes on.
    Exit(Vec<usize>),
    /// `CursorMoved`: the children are visited in this pass.
    Move(CursorMovePass),
}

impl HoverTracker {
    /// The hovered widgets.
    pub closed spec fn spec_hovered(&self) -> Seq<usize> {
        self.hovered@
    }

    /// A tracker with no hovered widget.
    pub fn new() -> (t: HoverTracker)
        ensures
            t.spec_hovered() == Seq::<usize>::empty(),
    {
        HoverTracker { hovered: Vec::new() }
    }

    /// The hovered widgets.
    pub fn hovered(&self) -> (h: &Vec<usize>)
        ensures
            h@ == self.spec_hovered(),
    {
        &self.hovered
    }

    /// `CursorExited`: every hovered widget gets `CursorExited` (in order), and
    /// none stays hovered.
    pub fn cursor_exited(&mut self) -> (exited: Vec<usize>)
        ensures
            exited@ == old(self).spec_hovered(),
            final(self).spec_hovered() == Seq::<usize>::empty(),
    {
        let mut exited = Vec::new();
        std::mem::swap(&mut exited, &mut self.hovered);
        exited
    }

    /// A cursor event reaches a container whose children are `children`,
    /// first pushed first: `CursorEntered` changes nothing and passes on;
    /// `CursorExited` exits every hovered child (see [`Self::cursor_exited`]);
    /// `CursorMoved` starts a pass over the children (see
    /// [`Self::begin_cursor_moved`]).
    pub fn handle_cursor_event(&mut self, kind: UICursorEventKind, children: &Vec<usize>) -> (r: CursorStart)
        ensures
            kind is CursorEntered ==> r is PassOn && final(self).spec_hovered() == old(self).spec_hovered(),
            kind is CursorExited ==> (r matches CursorStart::Exit(v) && v@ == old(self).spec_hovered())
                && final(self).spec_hovered() == Seq::<usize>::empty(),
            kind is CursorMoved ==> (r matches CursorStart::Move(p) && p.spec_order() == children@.reverse()
                && p.spec_next() == 0 && p.spec_remaining() == old(self).spec_hovered().to_set())
                && final(self).spec_hovered() == Seq::<usize>::empty(),
    {
        match kind {
            UICursorEventKind::CursorEntered => CursorStart::PassOn,
            UICursorEventKind::CursorExited => CursorStart::Exit(self.cursor_exited()),
            UICursorEventKind::CursorMoved => CursorStart::Move(self.begin_cursor_moved(children)),
        }
    }

    /// Starts a `CursorMoved` pass over `children` (first pushed first): the
    /// pass visits them top-most first; the hovered widgets are forgotten,
    /// and the pass remembers them.
    pub fn begin_cursor_moved(&mut self, children: &Vec<usize>) -> (pass: CursorMovePass)
        ensures
            final(self).spec_hovered() == Seq::<usize>::empty(),
            pass.spec_remaining() == old(self).spec_hovered().to_set(),
            pass.spec_order() == children@.reverse(),
            pass.spec_next() == 0,
    {
        broadcast use vstd::std_specs::hash::group_hash_axioms;
        let mut old_hovered = Vec::new();
        std::mem::swap(&mut old_hovered, &mut self.hovered);
        let mut remaining: HashSet<usize> = HashSet::new();
        let mut i: usize = 0;
        while i < old_hovered.len()
            invariant
                i <= old_hovered.len(),
                remaining@ == old_hovered@.take(i as int).to_set(),
            decreases old_hovered.len() - i,
        {
            let id = old_hovered[i];
            remaining.insert(id);
            assert(old_hovered@.take(i + 1) =~= old_hovered@.take(i as int).push(id));
            proof {
                old_hovered@.take(i as int).lemma_push_to_set_commute(id);
            }
            i = i + 1;
        }
        assert(old_hovered@.take(old_hovered.len() as int) =~= old_hovered@);
        CursorMovePass { order: top_most_first(children), next: 0, remaining }
    }
}

impl CursorMovePass {
    /// The widgets hovered before that the pass has not met yet.
    pub closed spec fn spec_remaining(&self) -> Set<usize> {
        self.remaining@
    }

    /// The children to visit, top-most first.
    pub closed spec fn spec_order(&self) -> Seq<usize> {
        self.order@
    }

    /// How many children were visited.
    pub closed spec fn spec_next(&self) -> nat {
        self.next as nat
    }

    /// The child to visit next, if any is left.
    pub fn next_child(&self) -> (c: Option<usize>)
        ensures
            self.spec_next() < self.spec_order().len() ==> c == Some(self.spec_order()[self.spec_next() as int]),
            self.spec_next() >= self.spec_order().len() ==> c is None,
    {
        if self.next < self.order.len() {
            Some(self.order[self.next])
        } else {
            None
        }
    }

    /// The pass visits the next child, over which the cursor is when
    /// `inside`, and gives its id. A child under the cursor becomes hovered
    /// and gets `CursorMoved`, preceded by `CursorEntered` unless it was
    /// hovered before; any other child gets nothing.
    pub fn visit(&mut self, tracker: &mut HoverTracker, inside: bool) -> (r: (usize, HoverAction))
        requires
            old(self).spec_next() < old(self).spec_order().len(),
        ensures
            r.0 == old(self).spec_order()[old(self).spec_next() as int],
            final(self).spec_order() == old(self).spec_order(),
            final(self).spec_next() == old(self).spec_next() + 1,
            !inside ==> r.1 == HoverAction::Skip && final(self).spec_remaining() == old(self).spec_remaining()
                && final(tracker).spec_hovered() == old(tracker).spec_hovered(),
            inside ==> r.1 == (if old(self).spec_remaining().contains(r.0) {
                HoverAction::Move
            } else {
                HoverAction::EnterThenMove
            }),
            inside ==> final(tracker).spec_hovered() == old(tracker).spec_hovered().push(r.0),
            inside ==> final(self).spec_remaining() == old(self).spec_remaining().remove(r.0),
    {
        broadcast use vstd::std_specs::hash::group_hash_axioms;
        let id = self.order[self.next];
        assert(self.next < self.order.len());
        self.next = self.next + 1;
        if !inside {
            return (id, HoverAction::Skip);
        }
        tracker.hovered.push(id);
        if self.remaining.remove(&id) {
            (id, HoverAction::Move)
        } else {
            (id, HoverAction::EnterThenMove)
        }
    }

    /// The child that the pass just found under the cursor answered its
    /// `CursorMoved`; `consumed` when it gave nothing back. A consumed move
    /// ends the pass at once (`None`): the hovered widgets stay those found so
    /// far, no widget gets `CursorExited`, and the container consumes the
    /// event. Otherwise the pass goes on as it was.
    pub fn after_move(self, consumed: bool) -> (next: Option<CursorMovePass>)
        ensures
            consumed <==> next is None,
            next matches Some(p) ==> p.spec_remaining() == self.spec_remaining() && p.spec_order()
                == self.spec_order() && p.spec_next() == self.spec_next(),
    {
        if consumed {
            None
        } else {
            Some(self)
        }
    }

    /// Ends the pass once every child was visited: the widgets hovered before
    /// that the pass did not meet get `CursorExited`, and the event passes on.
    pub fn finish(self) -> (exited: HashSet<usize>)
        requires
            self.spec_next() == self.spec_order().len(),
        ensures
            exited@ == self.spec_remaining(),
    {
        self.remaining
    }
}

/// The children that the cursor is over, in the order of a pass.
pub open spec fn inside_ids(visits: Seq<(usize, bool)>) -> Seq<usize>
    decreases visits.len(),
{
    if visits.len() == 0 {
        seq![]
    } else if visits.last().1 {
        inside_ids(visits.drop_last()).push(visits.last().0)
    } else {
        inside_ids(visits.drop_last())
    }
}

/// The widgets that a pass still remembers after `visits`, from the set it
/// began with.
pub open spec fn remaining_after(start: Set<usize>, visits: Seq<(usize, bool)>) -> Set<usize>
    decreases visits.len(),
{
    if visits.len() == 0 {
        start
    } else if visits.last().1 {
        remaining_after(start, visits.drop_last()).remove(visits.last().0)
    } else {
        remaining_after(start, visits.drop_last())
    }
}

/// A child is among those under the cursor after `visits` exactly when a
/// visit of it found it under the cursor.
proof fn lemma_inside_ids(visits: Seq<(usize, bool)>, id: usize)
    ensures
        inside_ids(visits).contains(id) <==> exists|k: int| 0 <= k < visits.len() && visits[k] == (id, true),
    decreases visits.len(),
{
    if visits.len() > 0 {
        let init = visits.drop_last();
        lemma_inside_ids(init, id);
        let prev = inside_ids(init);
        let cur = inside_ids(visits);
        if visits.last().1 {
            assert(cur =~= prev.push(visits.last().0));
        } else {
            assert(cur == prev);
        }
        if cur.contains(id) {
            if prev.contains(id) {
                let k = choose|k: int| 0 <= k < init.len() && init[k] == (id, true);
                assert(visits[k] == (id, true));
            } else {
                let k = choose|k: int| 0 <= k < cur.len() && cur[k] == id;
                assert(k == prev.len());
                assert(visits[visits.len() - 1] == (id, true));
            }
        }
        if exists|k: int| 0 <= k < visits.len() && visits[k] == (id, true) {
            let k = choose|k: int| 0 <= k < visits.len() && visits[k] == (id, true);
            if k < init.len() {
                assert(init[k] == (id, true));
                let j = choose|j: int| 0 <= j < prev.len() && prev[j] == id;
                assert(cur[j] == id);
            } else {
                assert(cur[prev.len() as int] == id);
            }
        }
    } else {
        assert(!inside_ids(visits).contains(id));
    }
}

/// After a complete pass, a widget gets `CursorExited` exactly when it was
/// hovered before and no child visited in the pass with that id was under the
/// cursor.
pub proof fn law_exited_are_left_behind(start: Set<usize>, visits: Seq<(usize, bool)>, id: usize)
    ensures
        remaining_after(start, visits).contains(id) <==> (start.contains(id) && !inside_ids(visits).contains(id)),
    decreases visits.len(),
{
    lemma_inside_ids(visits, id);
    if visits.len() > 0 {
        let init = visits.drop_last();
        law_exited_are_left_behind(start, init, id);
        lemma_inside_ids(init, id);
        if exists|k: int| 0 <= k < init.len() && init[k] == (id, true) {
            let k = choose|k: int| 0 <= k < init.len() && init[k] == (id, true);
            assert(visits[k] == (id, true));
        }
        if exists|k: int| 0 <= k < visits.len() && visits[k] == (id, true) {
            let k = choose|k: int| 0 <= k < visits.len() && visits[k] == (id, true);
            if k < init.len() {
                assert(init[k] == (id, true));
            }
        }
    }
}

} // verus!
