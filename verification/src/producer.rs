//! The pull-based sequence abstraction that the adapters wrap, a concrete
//! vector-backed producer, and a collector that drains a producer.

use vstd::prelude::*;

verus! {

/// A pull-based producer of a finite sequence of elements.
///
/// `remaining` is the sequence of elements the producer has yet to yield, in
/// order. Each `next` either yields the head of `remaining` and advances past
/// it, or signals exhaustion exactly when `remaining` is empty, leaving
/// `remaining` unchanged. Exhaustion is therefore fused: once `remaining` is
/// empty it stays empty, so every later `next` signals exhaustion again.
pub trait SequenceProducer: Sized {
    type Item;

    /// The elements this producer has yet to yield, in order.
    spec fn remaining(&self) -> Seq<Self::Item>;

    /// Pull one element: the head of `remaining`, or `None` on exhaustion.
    fn next(&mut self) -> (r: Option<Self::Item>)
        ensures
            match r {
                Some(x) => old(self).remaining().len() > 0 && x == old(self).remaining()[0]
                    && final(self).remaining() == old(self).remaining().drop_first(),
                None => old(self).remaining().len() == 0 && final(self).remaining() == old(
                    self,
                ).remaining(),
            },
    ;

    /// The exact number of elements yet to be yielded.
    fn len(&self) -> (n: usize)
        requires
            self.remaining().len() <= usize::MAX,
        ensures
            n == self.remaining().len(),
    ;

    /// A lower bound and an optional upper bound on the number of elements
    /// yet to be yielded.
    fn size_hint(&self) -> (r: (usize, Option<usize>))
        ensures
            r.0 <= self.remaining().len(),
            r.1 matches Some(upper) ==> self.remaining().len() <= upper,
    ;
}

/// A producer backed by a vector, yielding its elements front to back.
#[derive(Debug, Clone)]
pub struct VecProducer<T> {
    items: Vec<T>,
}

impl<T> VecProducer<T> {
    /// Wrap a vector so its elements can be pulled in order.
    pub fn new(items: Vec<T>) -> (r: VecProducer<T>)
        ensures
            r.remaining() == items@,
    {
        VecProducer { items }
    }
}

impl<T> SequenceProducer for VecProducer<T> {
    type Item = T;

    closed spec fn remaining(&self) -> Seq<T> {
        self.items@
    }

    fn next(&mut self) -> (r: Option<T>) {
        let ghost pre = self.items@;
        if self.items.len() > 0 {
            let x = self.items.remove(0);
            proof {
                assert(self.items@ =~= pre.drop_first());
            }
            Some(x)
        } else {
            None
        }
    }

    fn len(&self) -> (n: usize) {
        self.items.len()
    }

    fn size_hint(&self) -> (r: (usize, Option<usize>)) {
        let n: usize = self.items.len();
        (n, Some(n))
    }
}

/// Pull every element out of a producer and collect the results in order.
pub fn collect_all<S: SequenceProducer>(source: S) -> (v: Vec<S::Item>)
    ensures
        v@ == source.remaining(),
{
    let ghost orig = source.remaining();
    let mut s = source;
    let mut v: Vec<S::Item> = Vec::new();
    loop
        invariant
            v@ + s.remaining() =~= orig,
        ensures
            v@ =~= orig,
        decreases s.remaining().len(),
    {
        match s.next() {
            Some(x) => {
                v.push(x);
                proof {
                    assert(v@ + s.remaining() =~= orig);
                }
            },
            None => {
                break;
            },
        }
    }
    v
}

} // verus!
