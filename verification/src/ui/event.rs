use vstd::prelude::*;

verus! {

#[verifier::external_type_specification]
#[verifier::external_body]
pub struct ExPathBuf(std::path::PathBuf);

/// `<PathBuf as Clone>::clone`: copies the path; nothing is claimed of the copy.
pub assume_specification[ <std::path::PathBuf as Clone>::clone ](p: &std::path::PathBuf) -> (res: std::path::PathBuf);

/// A file dragged over, or dropped on, the window.
#[derive(Clone, Debug, PartialEq)]
pub enum DragDropAction {
    Hover(std::path::PathBuf),
    Drop(std::path::PathBuf),
    CancelDrop,
}

/// The kinds of events that containers pass on to their children.
#[derive(Clone, Copy, Debug, PartialEq, Eq, Structural)]
pub enum UIPropagatingEventKind {
    ThemeChanged,
    DragDrop,
    MouseWheel,
    MouseInput,
    VisibilityChanged,
    TestHover,
}

impl UIPropagatingEventKind {
    /// Whether only the hovered children get the event: all but theme and
    /// visibility changes.
    pub open spec fn spec_only_propagate_hover(self) -> bool {
        !(self is ThemeChanged) && !(self is VisibilityChanged)
    }

    /// Whether only the hovered children get the event: all but theme and
    /// visibility changes.
    pub fn only_propagate_hover(&self) -> (b: bool)
        ensures
            b == self.spec_only_propagate_hover(),
    {
        !matches!(self, UIPropagatingEventKind::ThemeChanged) && !matches!(
            self,
            UIPropagatingEventKind::VisibilityChanged
        )
    }
}

/// The order in which a container offers an event to its children: the
/// hovered ones in hover order, or, for events that reach every child, all
/// children from the last to the first. How the event goes along that order
/// is [`PropagationChain`].
pub fn propagation_order(kind: UIPropagatingEventKind, hovered: &Vec<usize>, children: &Vec<usize>) -> (order: Vec<usize>)
    ensures
        kind.spec_only_propagate_hover() ==> order@ == hovered@,
        !kind.spec_only_propagate_hover() ==> order@ == children@.reverse(),
{
    if kind.only_propagate_hover() {
        hovered.clone()
    } else {
        top_most_first(children)
    }
}

/// The children of a container from the top-most (the last pushed) to the
/// bottom-most.
pub fn top_most_first(children: &Vec<usize>) -> (order: Vec<usize>)
    ensures
        order@ == children@.reverse(),
{
    let mut order: Vec<usize> = Vec::new();
    let mut i = children.len();
    while i > 0
        invariant
            i <= children.len(),
            order@ == children@.subrange(i as int, children.len() as int).reverse(),
        decreases i,
    {
        i = i - 1;
        order.push(children[i]);
        assert(order@ =~= children@.subrange(i as int, children.len() as int).reverse());
    }
    assert(children@.subrange(0, children.len() as int) =~= children@);
    order
}

/// An event on its way through the children of a container: the children
/// in the order they get it ([`propagation_order`]), how many got it, and the
/// event that the next child gets (none once a child consumed it, or while
/// the container waits for a child's reply).
pub struct PropagationChain<E> {
    order: Vec<usize>,
    next: usize,
    current: Option<E>,
    waiting: bool,
}

impl<E> PropagationChain<E> {
    /// The children, in the order they get the event.
    pub closed spec fn spec_order(&self) -> Seq<usize> {
        self.order@
    }

    /// How many children got the event.
    pub closed spec fn spec_next(&self) -> nat {
        self.next as nat
    }

    /// The event that the next child gets; none once a child consumed it or
    /// while a reply is awaited.
    pub closed spec fn spec_current(&self) -> Option<E> {
        self.current
    }

    /// Whether the chain waits for the reply of the child that got the event last.
    pub closed spec fn spec_waiting(&self) -> bool {
        self.waiting
    }

    /// Starts passing `event`, of kind `kind`, to the children of a container
    /// whose hovered children are `hovered` and whose children are
    /// `children` (first pushed first).
    pub fn new(kind: UIPropagatingEventKind, event: E, hovered: &Vec<usize>, children: &Vec<usize>) -> (c: Self)
        ensures
            kind.spec_only_propagate_hover() ==> c.spec_order() == hovered@,
            !kind.spec_only_propagate_hover() ==> c.spec_order() == children@.reverse(),
            c.spec_next() == 0,
            c.spec_current() == Some(event),
            !c.spec_waiting(),
    {
        PropagationChain { order: propagation_order(kind, hovered, children), next: 0, current: Some(event), waiting: false }
    }

    /// Starts passing `event` to the children in `order`, first to last.
    pub fn in_order(event: E, order: Vec<usize>) -> (c: Self)
        ensures
            c.spec_order() == order@,
            c.spec_next() == 0,
            c.spec_current() == Some(event),
            !c.spec_waiting(),
    {
        PropagationChain { order, next: 0, current: Some(event), waiting: false }
    }

    /// The next child and the event it gets: the first child gets the
    /// original event, each later one what the child before it gave back.
    /// Gives none when a child consumed the event or every child had it.
    pub fn deliver(&mut self) -> (d: Option<(usize, E)>)
        requires
            !old(self).spec_waiting(),
        ensures
            final(self).spec_order() == old(self).spec_order(),
            (old(self).spec_current() is Some && old(self).spec_next() < old(self).spec_order().len()) ==> {
                &&& d == Some((old(self).spec_order()[old(self).spec_next() as int], old(self).spec_current()->Some_0))
                &&& final(self).spec_next() == old(self).spec_next() + 1
                &&& final(self).spec_current() is None
                &&& final(self).spec_waiting()
            },
            !(old(self).spec_current() is Some && old(self).spec_next() < old(self).spec_order().len()) ==> {
                &&& d is None
                &&& final(self).spec_next() == old(self).spec_next()
                &&& final(self).spec_current() == old(self).spec_current()
                &&& !final(self).spec_waiting()
            },
    {
        if self.next < self.order.len() && self.current.is_some() {
            let id = self.order[self.next];
            self.next = self.next + 1;
            let event = self.current.take();
            self.waiting = true;
            match event {
                Some(e) => Some((id, e)),
                None => None,
            }
        } else {
            None
        }
    }

    /// The child that got the event last gave back `reply` (none when it
    /// consumed the event). The next child gets what it gave back.
    pub fn reply(&mut self, reply: Option<E>)
        requires
            old(self).spec_waiting(),
        ensures
            final(self).spec_order() == old(self).spec_order(),
            final(self).spec_next() == old(self).spec_next(),
            final(self).spec_current() == reply,
            !final(self).spec_waiting(),
    {
        self.current = reply;
        self.waiting = false;
    }

    /// What the container gives back once the chain ended: none when a child
    /// consumed the event, otherwise what the last child gave back (the
    /// original event when there was no child).
    pub fn finish(self) -> (r: Option<E>)
        requires
            !self.spec_waiting(),
            self.spec_current() is None || self.spec_next() == self.spec_order().len(),
        ensures
            r == self.spec_current(),
    {
        self.current
    }
}

} // verus!
