//! The three marking adapters and the extension trait that creates them.

use vstd::prelude::*;
use crate::marks::buffered;
use crate::marks::flag_first;
use crate::marks::mark_first;
use crate::marks::mark_first_last;
use crate::marks::mark_last;
use crate::marks::repaired;
use crate::producer::SequenceProducer;

verus! {

/// A producer that yields the is-first flag alongside each element.
///
/// Created by the
/// [`identify_first`](IteratorIdentifyFirstLastExt::identify_first)
/// extension method on [`SequenceProducer`]. See its documentation for more.
#[derive(Debug, Clone)]
pub struct IdentifyFirst<S: SequenceProducer> {
    is_first: bool,
    source: S,
}

impl<S: SequenceProducer> SequenceProducer for IdentifyFirst<S> {
    type Item = (S::Item, bool);

    closed spec fn remaining(&self) -> Seq<(S::Item, bool)> {
        flag_first(self.source.remaining(), self.is_first)
    }

    fn next(&mut self) -> (r: Option<(S::Item, bool)>) {
        let ghost pre = *self;
        match self.source.next() {
            Some(item) => {
                let is_first = self.is_first;
                self.is_first = false;
                proof {
                    assert(self.remaining() =~= pre.remaining().drop_first());
                }
                Some((item, is_first))
            },
            None => {
                self.is_first = true;
                proof {
                    assert(self.remaining() =~= pre.remaining());
                }
                None
            },
        }
    }

    fn len(&self) -> (n: usize) {
        self.source.len()
    }

    fn size_hint(&self) -> (r: (usize, Option<usize>)) {
        self.source.size_hint()
    }
}

/// A producer that yields the is-last flag alongside each element, using a
/// single-slot look-ahead buffer to decide lastness.
///
/// Created by the
/// [`identify_last`](IteratorIdentifyFirstLastExt::identify_last)
/// extension method on [`SequenceProducer`]. See its documentation for more.
pub struct IdentifyLast<S: SequenceProducer> {
    slot: Option<S::Item>,
    source: S,
}

impl<S: SequenceProducer> IdentifyLast<S> {
    /// The elements still to be yielded, without their flags: the buffered
    /// element, if any, followed by the source's remaining elements.
    closed spec fn elements(&self) -> Seq<S::Item> {
        buffered(self.slot, self.source.remaining())
    }
}

impl<S: SequenceProducer> SequenceProducer for IdentifyLast<S> {
    type Item = (S::Item, bool);

    closed spec fn remaining(&self) -> Seq<(S::Item, bool)> {
        mark_last(self.elements())
    }

    fn next(&mut self) -> (r: Option<(S::Item, bool)>) {
        let ghost pre = *self;
        let head = match self.slot.take() {
            Some(x) => Some(x),
            None => self.source.next(),
        };
        match head {
            Some(x) => {
                proof {
                    assert(buffered(self.slot, self.source.remaining()) =~= pre.elements()
                        .drop_first());
                }
                self.slot = self.source.next();
                let is_last = self.slot.is_none();
                proof {
                    assert(self.elements() =~= pre.elements().drop_first());
                    assert(self.remaining() =~= pre.remaining().drop_first());
                }
                Some((x, is_last))
            },
            None => {
                proof {
                    assert(self.remaining() =~= pre.remaining());
                }
                None
            },
        }
    }

    fn len(&self) -> (n: usize) {
        let n: usize = self.source.len();
        if self.slot.is_some() {
            n + 1
        } else {
            n
        }
    }

    fn size_hint(&self) -> (r: (usize, Option<usize>)) {
        let hint = self.source.size_hint();
        if self.slot.is_some() {
            let lower: usize = if hint.0 < usize::MAX {
                hint.0 + 1
            } else {
                hint.0
            };
            let upper: Option<usize> = match hint.1 {
                Some(h) => if h < usize::MAX {
                    Some(h + 1)
                } else {
                    None
                },
                None => None,
            };
            (lower, upper)
        } else {
            hint
        }
    }
}

impl<S: SequenceProducer + Clone> Clone for IdentifyLast<S> where S::Item: Clone {
    fn clone(&self) -> (res: Self) {
        IdentifyLast { slot: self.slot.clone(), source: self.source.clone() }
    }
}

/// A producer that yields both the is-first and the is-last flag alongside
/// each element.
///
/// Created by the
/// [`identify_first_last`](IteratorIdentifyFirstLastExt::identify_first_last)
/// extension method on [`SequenceProducer`]. See its documentation for more.
pub struct IdentifyFirstLast<S: SequenceProducer> {
    inner: IdentifyFirst<IdentifyLast<S>>,
}

impl<S: SequenceProducer> SequenceProducer for IdentifyFirstLast<S> {
    type Item = (S::Item, bool, bool);

    closed spec fn remaining(&self) -> Seq<(S::Item, bool, bool)> {
        repaired(self.inner.remaining())
    }

    fn next(&mut self) -> (r: Option<(S::Item, bool, bool)>) {
        let ghost pre = *self;
        match self.inner.next() {
            Some(((item, is_last), is_first)) => {
                proof {
                    assert(self.remaining() =~= pre.remaining().drop_first());
                }
                Some((item, is_first, is_last))
            },
            None => {
                proof {
                    assert(self.remaining() =~= pre.remaining());
                }
                None
            },
        }
    }

    fn len(&self) -> (n: usize) {
        self.inner.len()
    }

    fn size_hint(&self) -> (r: (usize, Option<usize>)) {
        self.inner.size_hint()
    }
}

impl<S: SequenceProducer + Clone> Clone for IdentifyFirstLast<S> where S::Item: Clone {
    fn clone(&self) -> (res: Self) {
        IdentifyFirstLast { inner: self.inner.clone() }
    }
}

/// Extends [`SequenceProducer`] with methods for marking first and last
/// elements with boolean flags.
pub trait IteratorIdentifyFirstLastExt: SequenceProducer {
    /// Creates a producer which gives the is-first flag as well as the next
    /// value.
    ///
    /// The producer returned yields pairs `(val, is_first)`, where `val` is
    /// the value yielded by this producer and `is_first` is the boolean which
    /// is true for the first element and false for the others.
    fn identify_first(self) -> (r: IdentifyFirst<Self>)
        ensures
            r.remaining() == mark_first(self.remaining()),
    ;

    /// Creates a producer which gives the is-last flag as well as the next
    /// value.
    ///
    /// The producer returned yields pairs `(val, is_last)`, where `val` is
    /// the value yielded by this producer and `is_last` is the boolean which
    /// is true for the last element and false for the others.
    fn identify_last(self) -> (r: IdentifyLast<Self>)
        ensures
            r.remaining() == mark_last(self.remaining()),
    ;

    /// Creates a producer which gives the is-first and is-last flags as well
    /// as the next value.
    ///
    /// The producer returned yields triples `(val, is_first, is_last)`,
    /// where `val` is the value yielded by this producer, `is_first` is the
    /// boolean which is true for the first element and false for the others,
    /// and `is_last` is the boolean which is true for the last element and
    /// false for the others.
    fn identify_first_last(self) -> (r: IdentifyFirstLast<Self>)
        ensures
            r.remaining() == mark_first_last(self.remaining()),
    ;
}

impl<S: SequenceProducer> IteratorIdentifyFirstLastExt for S {
    fn identify_first(self) -> (r: IdentifyFirst<S>) {
        let ghost src = self.remaining();
        let r = IdentifyFirst { is_first: true, source: self };
        proof {
            assert(r.remaining() =~= mark_first(src));
        }
        r
    }

    fn identify_last(self) -> (r: IdentifyLast<S>) {
        let ghost src = self.remaining();
        let r = IdentifyLast { slot: None, source: self };
        proof {
            assert(r.remaining() =~= mark_last(src));
        }
        r
    }

    fn identify_first_last(self) -> (r: IdentifyFirstLast<S>) {
        let ghost src = self.remaining();
        let r = IdentifyFirstLast { inner: self.identify_last().identify_first() };
        proof {
            assert(r.remaining() =~= mark_first_last(src));
        }
        r
    }
}

} // verus!
