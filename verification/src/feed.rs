//! The model of an asynchronous source.
//!
//! A [`Feed`] is a queue of items that stands for one asynchronous stream:
//! the unverified I/O layer pushes each delivered item and closes the feed
//! when the stream ends, and the combinators poll it. Polling an empty,
//! open feed reports [`PollNext::Pending`], exactly as polling a stream
//! with no ready item would; polling an empty, closed feed reports
//! [`PollNext::Closed`].

use std::collections::VecDeque;
use vstd::prelude::*;

use crate::item::Modeled;

verus! {

/// The outcome of polling a stream for its next item.
#[derive(Debug, PartialEq)]
pub enum PollNext<T> {
    /// No item is ready yet.
    Pending,
    /// The stream handed out an item.
    Item(T),
    /// The stream is exhausted and will never hand out another item.
    Closed,
}

/// The model of a feed: what it has handed out, what is still queued,
/// and whether its producer has closed it.
pub struct FeedModel<M> {
    /// Models of the items already handed out by polling.
    pub consumed: Seq<M>,
    /// Models of the items delivered but not yet polled.
    pub pending: Seq<M>,
    /// Whether the producer has closed the feed.
    pub closed: bool,
}

/// A queue of delivered items standing for one asynchronous stream.
pub struct Feed<T: Modeled> {
    queue: VecDeque<T>,
    closed: bool,
    consumed: Ghost<Seq<T::Model>>,
}

impl<T: Modeled> Feed<T> {
    /// Models of the items that have been delivered but not yet polled,
    /// oldest first.
    pub closed spec fn pending(&self) -> Seq<T::Model> {
        self.queue@.map_values(|t: T| t.model())
    }

    /// Whether the producer has closed the feed.
    pub closed spec fn is_closed(&self) -> bool {
        self.closed
    }

    /// Models of the items that polling has already handed out, oldest
    /// first.
    pub closed spec fn consumed(&self) -> Seq<T::Model> {
        self.consumed@
    }

    /// Number of items still queued; a measure for loop termination.
    pub open spec fn size(&self) -> nat {
        self.pending().len()
    }

    /// What the next poll of this feed will report, at the model level.
    pub open spec fn head(&self) -> PollNext<T::Model> {
        if self.pending().len() > 0 {
            PollNext::Item(self.pending().first())
        } else if self.is_closed() {
            PollNext::Closed
        } else {
            PollNext::Pending
        }
    }

    /// A fresh feed: open, with nothing delivered.
    pub fn new() -> (r: Feed<T>)
        ensures
            r.pending() == Seq::<T::Model>::empty(),
            !r.is_closed(),
            r.consumed() == Seq::<T::Model>::empty(),
    {
        Feed { queue: VecDeque::new(), closed: false, consumed: Ghost(Seq::empty()) }
    }

    /// A feed that is already exhausted: the permanently-empty stream.
    pub fn exhausted() -> (r: Feed<T>)
        ensures
            r.pending() == Seq::<T::Model>::empty(),
            r.is_closed(),
            r.consumed() == Seq::<T::Model>::empty(),
    {
        Feed { queue: VecDeque::new(), closed: true, consumed: Ghost(Seq::empty()) }
    }

    /// Deliver one item into the feed.
    pub fn push(&mut self, v: T)
        requires
            !old(self).is_closed(),
        ensures
            final(self).pending() == old(self).pending().push(v.model()),
            !final(self).is_closed(),
            final(self).consumed() == old(self).consumed(),
            final(self).size() == old(self).size() + 1,
    {
        self.queue.push_back(v);
        proof {
            assert(self.pending() =~= old(self).pending().push(v.model()));
        }
    }

    /// Whether the producer has closed the feed, as an executable test.
    pub fn producer_closed(&self) -> (r: bool)
        ensures
            r == self.is_closed(),
    {
        self.closed
    }

    /// Close the feed: no more items will ever be delivered.
    pub fn close(&mut self)
        ensures
            final(self).pending() == old(self).pending(),
            final(self).is_closed(),
            final(self).consumed() == old(self).consumed(),
            final(self).size() == old(self).size(),
    {
        self.closed = true;
    }

    /// Poll the feed for its next item.
    pub fn poll_next(&mut self) -> (r: PollNext<T>)
        ensures
            final(self).is_closed() == old(self).is_closed(),
            match old(self).head() {
                PollNext::Item(m) => {
                    &&& r matches PollNext::Item(v) && v.model() == m
                    &&& final(self).pending() == old(self).pending().drop_first()
                    &&& final(self).consumed() == old(self).consumed().push(m)
                    &&& final(self).size() < old(self).size()
                },
                PollNext::Pending => {
                    &&& r is Pending
                    &&& final(self).pending() == old(self).pending()
                    &&& final(self).consumed() == old(self).consumed()
                    &&& final(self).size() == old(self).size()
                },
                PollNext::Closed => {
                    &&& r is Closed
                    &&& final(self).pending() == old(self).pending()
                    &&& final(self).consumed() == old(self).consumed()
                    &&& final(self).size() == old(self).size()
                },
            },
    {
        match self.queue.pop_front() {
            Some(v) => {
                proof {
                    assert(old(self).pending()[0] == v.model());
                    assert(self.pending() =~= old(self).pending().drop_first());
                }
                self.consumed = Ghost(self.consumed@.push(v.model()));
                PollNext::Item(v)
            },
            None => {
                proof {
                    assert(self.pending() =~= old(self).pending());
                }
                if self.closed {
                    PollNext::Closed
                } else {
                    PollNext::Pending
                }
            },
        }
    }
}

impl<T: Modeled> Modeled for Feed<T> {
    type Model = FeedModel<T::Model>;

    open spec fn model(&self) -> FeedModel<T::Model> {
        FeedModel { consumed: self.consumed(), pending: self.pending(), closed: self.is_closed() }
    }
}

} // verus!
