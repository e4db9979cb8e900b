//! The persistent list itself: nodes, the list handle, and its operations.

use std::rc::Rc;
use vstd::prelude::*;

verus! {

/// One immutable cell of a chain: an element and a shared reference to the
/// rest of the chain. A node is never modified after it is built.
pub struct Node<T> {
    elem: T,
    next: Option<Rc<Node<T>>>,
}

/// A handle on a possibly empty chain of shared nodes. Copying the chain
/// never happens: `prepend` and `tail` return new handles that share
/// structure with the old one, which stays valid and unchanged.
pub struct List<T> {
    head: Option<Rc<Node<T>>>,
}

/// The sequence of elements reachable from a link, front to back.
spec fn link_seq<T>(link: Option<Rc<Node<T>>>) -> Seq<T>
    decreases link,
{
    match link {
        None => Seq::empty(),
        Some(node) => seq![node.elem] + link_seq(node.next),
    }
}

/// What `tail` leaves of a sequence of elements: everything after the front
/// element, or the empty sequence if there was none.
pub open spec fn tail_seq<T>(s: Seq<T>) -> Seq<T> {
    if s.len() == 0 {
        Seq::empty()
    } else {
        s.drop_first()
    }
}

/// Taking the tail undoes a prepend: for any list whose elements are `s`,
/// prepending a value `v` (which yields the elements `seq![v] + s`, as
/// `prepend` ensures) and then taking the tail (which yields `tail_seq` of
/// the elements, as `tail` ensures) leaves exactly the elements `s` again.
pub proof fn lemma_prepend_then_tail<T>(s: Seq<T>, v: T)
    ensures
        tail_seq(seq![v] + s) == s,
{
    assert(tail_seq(seq![v] + s) =~= s);
}

impl<T> View for List<T> {
    type V = Seq<T>;

    closed spec fn view(&self) -> Seq<T> {
        link_seq(self.head)
    }
}

impl<T> List<T> {
    /// Returns an empty list.
    pub fn new() -> (r: List<T>)
        ensures
            r@ == Seq::<T>::empty(),
    {
        List { head: None }
    }

    /// Returns a new list holding `elem` followed by this list's elements.
    /// This list is read, not consumed: the new list's node points at this
    /// list's unchanged chain, so both handles stay valid.
    pub fn prepend(&self, elem: T) -> (r: List<T>)
        ensures
            r@ == seq![elem] + self@,
    {
        let next: Option<Rc<Node<T>>> = match &self.head {
            Some(rc) => Some(Rc::clone(rc)),
            None => None,
        };
        List { head: Some(Rc::new(Node { elem, next })) }
    }

    /// Returns a new list holding everything after this list's front
    /// element. The result shares this list's chain from its second node
    /// onward; the tail of an empty list is another empty list.
    pub fn tail(&self) -> (r: List<T>)
        ensures
            r@ == tail_seq(self@),
    {
        let head: Option<Rc<Node<T>>> = match &self.head {
            Some(node) => match &node.next {
                Some(rc) => Some(Rc::clone(rc)),
                None => None,
            },
            None => None,
        };
        List { head }
    }

    /// Returns a borrowed view of the front element, or nothing if the list
    /// is empty.
    pub fn head(&self) -> (r: Option<&T>)
        ensures
            match r {
                Some(v) => self@.len() > 0 && *v == self@[0],
                None => self@.len() == 0,
            },
    {
        match &self.head {
            None => None,
            Some(node) => Some(&node.elem),
        }
    }
}

/// Relies on `Rc::try_unwrap`: when this is the only reference to the
/// value it returns the value itself, and otherwise it hands the same
/// reference back untouched; it neither panics nor unwinds.
#[verifier::external_body]
fn rc_try_unwrap<T>(rc: Rc<T>) -> (r: Result<T, Rc<T>>)
    ensures
        match r {
            Ok(v) => v == rc,
            Err(e) => e == rc,
        },
    opens_invariants none
    no_unwind
{
    Rc::try_unwrap(rc)
}

/// Reclaims every node of `link`'s chain that this reference solely owns,
/// front to back, with an explicit loop rather than cascading destructor
/// calls: the stack stays at constant depth however long the chain is. The
/// loop stops at the first node some other handle still shares, which stays
/// alive for its other owners.
fn teardown<T>(link: Option<Rc<Node<T>>>)
    opens_invariants none
    no_unwind
{
    let mut cur: Option<Rc<Node<T>>> = link;
    loop
        decreases link_seq(cur).len(),
    {
        match cur {
            None => {
                break;
            },
            Some(rc) => {
                match rc_try_unwrap(rc) {
                    Ok(node) => {
                        let Node { elem: _elem, next } = node;
                        cur = next;
                    },
                    Err(_shared) => {
                        break;
                    },
                }
            },
        }
    }
}

impl<T> Drop for List<T> {
    /// Detaches this handle's chain and tears it down with `teardown`'s
    /// loop, so that dropping the sole handle to a long chain cannot
    /// overflow the stack.
    fn drop(&mut self)
        opens_invariants none
        no_unwind
    {
        let mut cur: Option<Rc<Node<T>>> = None;
        core::mem::swap(&mut cur, &mut self.head);
        teardown(cur);
    }
}

/// A cursor over a list's chain, front to back. It borrows the chain and
/// yields borrowed references; advancing it touches no reference count.
pub struct Iter<'a, T> {
    next: Option<&'a Node<T>>,
}

/// The elements an iterator has still to yield, front to back.
spec fn iter_seq<T>(cur: Option<&Node<T>>) -> Seq<T> {
    match cur {
        None => Seq::empty(),
        Some(node) => seq![node.elem] + link_seq(node.next),
    }
}

impl<'a, T> View for Iter<'a, T> {
    type V = Seq<T>;

    closed spec fn view(&self) -> Seq<T> {
        iter_seq(self.next)
    }
}

impl<'a, T> Iter<'a, T> {
    /// Yields the front element of what remains, or nothing once the chain
    /// is exhausted; every further call then also yields nothing.
    pub fn next(&mut self) -> (r: Option<&'a T>)
        ensures
            match r {
                Some(v) => old(self)@.len() > 0 && *v == old(self)@[0]
                    && final(self)@ == old(self)@.drop_first(),
                None => old(self)@.len() == 0 && final(self)@ == old(self)@,
            },
    {
        match self.next {
            None => None,
            Some(node) => {
                self.next = match &node.next {
                    Some(rc) => Some(&**rc),
                    None => None,
                };
                Some(&node.elem)
            },
        }
    }
}

impl<'a, T> List<T> {
    /// Returns a cursor that will yield this list's elements front to back.
    /// It borrows from this handle and must not outlive it.
    pub fn iter(&'a self) -> (r: Iter<'a, T>)
        ensures
            r@ == self@,
    {
        Iter {
            next: match &self.head {
                Some(rc) => Some(&**rc),
                None => None,
            },
        }
    }
}

} // verus!
