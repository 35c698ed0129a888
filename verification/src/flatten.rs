//! A sequence of sequences, read as one sequence from both ends.

use vstd::prelude::*;
use std::collections::VecDeque;

verus! {

/// The items of `parts`, one part after the other.
pub open spec fn concat<T>(parts: Seq<Vec<T>>) -> Seq<T>
    decreases parts.len(),
{
    if parts.len() == 0 {
        Seq::empty()
    } else {
        parts[0]@ + concat(parts.drop_first())
    }
}

/// Read from the back, the items of `parts` are those of all parts but the
/// last, followed by those of the last.
pub proof fn lemma_concat_last<T>(parts: Seq<Vec<T>>)
    requires
        parts.len() > 0,
    ensures
        concat(parts) == concat(parts.drop_last()) + parts.last()@,
    decreases parts.len(),
{
    if parts.len() == 1 {
        assert(parts.drop_first() =~= Seq::<Vec<T>>::empty());
        assert(parts.drop_last() =~= Seq::<Vec<T>>::empty());
    } else {
        let rest = parts.drop_first();
        lemma_concat_last(rest);
        assert(rest.drop_last() =~= parts.drop_last().drop_first());
    }
}

/// The items of `v`, in the same order, in a queue that can be read from
/// both ends.
fn into_deque<A>(v: Vec<A>) -> (d: VecDeque<A>)
    ensures
        d@ == v@,
{
    let mut v = v;
    let ghost all = v@;
    let mut d: VecDeque<A> = VecDeque::new();
    while v.len() > 0
        invariant
            v@ + d@ == all,
        decreases v.len(),
    {
        match v.pop() {
            Some(item) => {
                d.push_front(item);
            },
            None => {},
        }
    }
    d
}

/// What is left of a sequence of sequences that is read item by item, from
/// the front and from the back. Its view is the items that are left, in
/// order.
pub struct Flatten<T> {
    iter: VecDeque<Vec<T>>,
    front_iter: Option<VecDeque<T>>,
    back_iter: Option<VecDeque<T>>,
}

/// The items of a part that is being read, if there is one.
pub open spec fn items_of<T>(part: Option<VecDeque<T>>) -> Seq<T> {
    match part {
        Some(items) => items@,
        None => Seq::empty(),
    }
}

impl<T> View for Flatten<T> {
    type V = Seq<T>;

    closed spec fn view(&self) -> Seq<T> {
        items_of(self.front_iter) + concat(self.iter@) + items_of(self.back_iter)
    }
}

impl<T> Flatten<T> {
    /// All the items of `iter`, not yet read.
    pub fn new(iter: Vec<Vec<T>>) -> (flatten: Self)
        ensures
            flatten@ == concat(iter@),
    {
        Flatten { iter: into_deque(iter), front_iter: None, back_iter: None }
    }

    /// Reads the first item that is left, if any is.
    pub fn next(&mut self) -> (item: Option<T>)
        ensures
            old(self)@.len() > 0 ==> item == Some(old(self)@.first()) && final(self)@ == old(
                self,
            )@.drop_first(),
            old(self)@.len() == 0 ==> item is None && final(self)@ == old(self)@,
    {
        loop
            invariant
                self@ == old(self)@,
            decreases 2 * self.iter@.len() + (if self.front_iter is Some { 1int } else { 0int }),
        {
            match self.front_iter.take() {
                None => match self.iter.pop_front() {
                    None => match self.back_iter.take() {
                        None => {
                            return None;
                        },
                        Some(mut sub_iter) => {
                            let item = sub_iter.pop_front();
                            self.back_iter = Some(sub_iter);
                            return item;
                        },
                    },
                    Some(sub_iter) => {
                        self.front_iter = Some(into_deque(sub_iter));
                    },
                },
                Some(mut sub_iter) => match sub_iter.pop_front() {
                    None => {},
                    Some(item) => {
                        self.front_iter = Some(sub_iter);
                        return Some(item);
                    },
                },
            }
        }
    }

    /// Reads the last item that is left, if any is.
    pub fn next_back(&mut self) -> (item: Option<T>)
        ensures
            old(self)@.len() > 0 ==> item == Some(old(self)@.last()) && final(self)@ == old(
                self,
            )@.drop_last(),
            old(self)@.len() == 0 ==> item is None && final(self)@ == old(self)@,
    {
        loop
            invariant
                self@ == old(self)@,
            decreases 2 * self.iter@.len() + (if self.back_iter is Some { 1int } else { 0int }),
        {
            let ghost parts = self.iter@;
            match self.back_iter.take() {
                None => match self.iter.pop_back() {
                    None => match self.front_iter.take() {
                        None => {
                            return None;
                        },
                        Some(mut sub_iter) => {
                            let item = sub_iter.pop_back();
                            self.front_iter = Some(sub_iter);
                            return item;
                        },
                    },
                    Some(sub_iter) => {
                        proof {
                            lemma_concat_last(parts);
                        }
                        self.back_iter = Some(into_deque(sub_iter));
                    },
                },
                Some(mut sub_iter) => match sub_iter.pop_back() {
                    None => {},
                    Some(item) => {
                        self.back_iter = Some(sub_iter);
                        return Some(item);
                    },
                },
            }
        }
    }
}

/// Sequences of sequences that can be flattened.
pub trait IteratorFlatten<T>: Sized {
    /// The items of all parts of `self`, as one sequence that is read from
    /// both ends.
    fn flatten(self) -> (flatten: Flatten<T>);
}

impl<T> IteratorFlatten<T> for Vec<Vec<T>> {
    fn flatten(self) -> (flatten: Flatten<T>)
        ensures
            flatten@ == concat(self@),
    {
        Flatten::new(self)
    }
}

} // verus!
