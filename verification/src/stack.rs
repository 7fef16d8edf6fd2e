//! A stack over a vector, with its interface split into a trait.

use vstd::prelude::*;

verus! {

/// A last-in, first-out container.
pub struct MyStack<T> {
    data: Vec<T>,
}

impl<T> MyStack<T> {
    pub fn new() -> (r: MyStack<T>)
        ensures
            r.entries() == Seq::<T>::empty(),
    {
        MyStack { data: Vec::new() }
    }
}

/// What any stack offers: pushing, popping and peeking at the top,
/// stated over the entries from bottom to top.
pub trait IsStack<T>: Sized {
    /// The entries, bottom first.
    spec fn entries(&self) -> Seq<T>;

    fn push(&mut self, val: T)
        ensures
            final(self).entries() == old(self).entries().push(val),
    ;

    fn size(self) -> (r: usize)
        ensures
            r == self.entries().len(),
    ;

    fn pop(&mut self) -> (r: Option<T>)
        ensures
            old(self).entries().len() == 0 ==> r is None && final(self).entries() == old(self).entries(),
            old(self).entries().len() > 0 ==> r == Some(old(self).entries().last())
                && final(self).entries() == old(self).entries().drop_last(),
    ;

    fn is_empty(self) -> (r: bool)
        ensures
            r == (self.entries().len() == 0),
    ;

    fn peek(&self) -> (r: Option<&T>)
        ensures
            self.entries().len() == 0 ==> r is None,
            self.entries().len() > 0 ==> (r matches Some(v) && *v == self.entries().last()),
    ;
}

impl<T> IsStack<T> for MyStack<T> {
    closed spec fn entries(&self) -> Seq<T> {
        self.data@
    }

    fn push(&mut self, val: T) {
        self.data.push(val)
    }

    fn size(self) -> (r: usize) {
        self.data.len()
    }

    fn pop(&mut self) -> (r: Option<T>) {
        self.data.pop()
    }

    fn is_empty(self) -> (r: bool) {
        self.data.len() == 0
    }

    fn peek(&self) -> (r: Option<&T>) {
        self.data.last()
    }
}

} // verus!
