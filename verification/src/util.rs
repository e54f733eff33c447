//! Stream combinators: deduplication and the synchronized pair.
//!
//! Each combinator owns the [`Feed`]s it reads and is a poll-driven state
//! machine. A ghost sequence records the models of the items a combinator
//! has emitted, and the contracts tie it to the models of the items it has
//! consumed.

use vstd::prelude::*;

use crate::feed::Feed;
use crate::feed::FeedModel;
use crate::feed::PollNext;
use crate::item::Modeled;
use crate::item::StreamItem;

verus! {

/// The sequence `s` with adjacent duplicates collapsed into one.
pub open spec fn dedup<M>(s: Seq<M>) -> Seq<M>
    decreases s.len(),
{
    if s.len() == 0 {
        Seq::empty()
    } else {
        let rest = dedup(s.drop_last());
        if rest.len() > 0 && rest.last() == s.last() {
            rest
        } else {
            rest.push(s.last())
        }
    }
}

/// The last element of a sequence, if any.
pub open spec fn opt_last<M>(s: Seq<M>) -> Option<M> {
    if s.len() > 0 {
        Some(s.last())
    } else {
        None
    }
}

/// A deduplicated sequence ends with the same value as its source, and is
/// nonempty exactly when its source is.
pub proof fn lemma_dedup_last<M>(s: Seq<M>)
    ensures
        s.len() == 0 ==> dedup(s).len() == 0,
        s.len() > 0 ==> dedup(s).len() > 0 && dedup(s).last() == s.last(),
{
}

/// No two adjacent elements of a deduplicated sequence are equal.
pub proof fn lemma_dedup_adjacent_distinct<M>(s: Seq<M>)
    ensures
        forall|i: int| 0 <= i < dedup(s).len() - 1 ==> #[trigger] dedup(s)[i] != dedup(s)[i + 1],
    decreases s.len(),
{
    if s.len() > 0 {
        let rest = dedup(s.drop_last());
        lemma_dedup_adjacent_distinct(s.drop_last());
        if !(rest.len() > 0 && rest.last() == s.last()) {
            let d = dedup(s);
            assert forall|i: int| 0 <= i < d.len() - 1 implies #[trigger] d[i] != d[i + 1] by {
                if i < rest.len() - 1 {
                    assert(d[i] == rest[i] && d[i + 1] == rest[i + 1]);
                } else {
                    assert(i == rest.len() - 1);
                    assert(d[i] == rest.last() && d[i + 1] == s.last());
                }
            }
        }
    }
}

/// Every element of a deduplicated sequence is an element of its source.
pub proof fn lemma_dedup_membership<M>(s: Seq<M>)
    ensures
        forall|j: int| 0 <= j < dedup(s).len() ==> s.contains(#[trigger] dedup(s)[j]),
    decreases s.len(),
{
    if s.len() > 0 {
        lemma_dedup_membership(s.drop_last());
        let rest = dedup(s.drop_last());
        assert forall|j: int| 0 <= j < dedup(s).len() implies s.contains(#[trigger] dedup(s)[j]) by {
            if j < rest.len() {
                assert(dedup(s)[j] == rest[j]);
                let i = choose|i: int| 0 <= i < s.drop_last().len() && s.drop_last()[i] == rest[j];
                assert(s[i] == rest[j]);
            } else {
                assert(dedup(s)[j] == s.last());
            }
        }
    }
}

/// Appending a value equal to the last element never changes the
/// deduplicated sequence.
pub proof fn lemma_dedup_push_equal<M>(s: Seq<M>, v: M)
    requires
        s.len() > 0,
        s.last() == v,
    ensures
        dedup(s.push(v)) == dedup(s),
{
    lemma_dedup_last(s);
    assert(s.push(v).drop_last() =~= s);
}

/// Appending a value different from the last element appends it to the
/// deduplicated sequence as well.
pub proof fn lemma_dedup_push_new<M>(s: Seq<M>, v: M)
    requires
        s.len() == 0 || s.last() != v,
    ensures
        dedup(s.push(v)) == dedup(s).push(v),
{
    lemma_dedup_last(s);
    assert(s.push(v).drop_last() =~= s);
}

/// Drops consecutive equal values from a stream: the deduplicator.
///
/// Wraps a source feed and emits the same items with adjacent duplicates
/// collapsed. Suppressing a duplicate immediately re-polls the source, so
/// suppression alone never reports `Pending` while further items are
/// already available.
pub struct FilterNoChange<T: StreamItem> {
    stream: Feed<T>,
    last: Option<T>,
    emitted: Ghost<Seq<T::Model>>,
}

impl<T: StreamItem> FilterNoChange<T> {
    /// Models of the items emitted so far, oldest first.
    pub closed spec fn emitted(&self) -> Seq<T::Model> {
        self.emitted@
    }

    /// Models of the source items consumed so far.
    pub closed spec fn consumed(&self) -> Seq<T::Model> {
        self.stream.consumed()
    }

    /// Models of the source items delivered but not yet consumed.
    pub closed spec fn queued(&self) -> Seq<T::Model> {
        self.stream.pending()
    }

    /// Whether the source feed is closed.
    pub closed spec fn input_closed(&self) -> bool {
        self.stream.is_closed()
    }

    /// The remembered model of the last emitted item.
    pub closed spec fn cache(&self) -> Option<T::Model> {
        match self.last {
            Some(ref v) => Some(v.model()),
            None => None,
        }
    }

    /// Queued source items; a measure for loop termination.
    pub open spec fn size(&self) -> nat {
        self.queued().len()
    }

    /// The deduplicator's invariant: what it has emitted is exactly the
    /// deduplication of what it has consumed, and the cache remembers the
    /// last emitted item (it is dropped once the source closes).
    pub open spec fn inv(&self) -> bool {
        &&& self.emitted() == dedup(self.consumed())
        &&& match self.cache() {
            Some(m) => self.emitted().len() > 0 && m == self.emitted().last(),
            None => self.emitted().len() == 0 || (self.input_closed() && self.queued().len()
                == 0),
        }
    }

    /// No two adjacent items this deduplicator has emitted are equal,
    /// whatever was consumed.
    pub proof fn lemma_no_adjacent_duplicates(&self)
        requires
            self.inv(),
        ensures
            forall|i: int|
                0 <= i < self.emitted().len() - 1 ==> #[trigger] self.emitted()[i]
                    != self.emitted()[i + 1],
    {
        lemma_dedup_adjacent_distinct(self.consumed());
    }

    /// Wrap a fresh source feed.
    pub fn new(stream: Feed<T>) -> (r: FilterNoChange<T>)
        requires
            stream.consumed().len() == 0,
        ensures
            r.inv(),
            r.emitted() == Seq::<T::Model>::empty(),
            r.consumed() == stream.consumed(),
            r.queued() == stream.pending(),
            r.input_closed() == stream.is_closed(),
    {
        FilterNoChange { stream, last: None, emitted: Ghost(Seq::empty()) }
    }

    /// Deliver one item into the source feed.
    pub fn offer(&mut self, v: T)
        requires
            !old(self).input_closed(),
        ensures
            final(self).queued() == old(self).queued().push(v.model()),
            !final(self).input_closed(),
            final(self).consumed() == old(self).consumed(),
            final(self).emitted() == old(self).emitted(),
            final(self).cache() == old(self).cache(),
            old(self).inv() ==> final(self).inv(),
    {
        self.stream.push(v);
    }

    /// Close the source feed.
    pub fn close_input(&mut self)
        ensures
            final(self).queued() == old(self).queued(),
            final(self).input_closed(),
            final(self).consumed() == old(self).consumed(),
            final(self).emitted() == old(self).emitted(),
            final(self).cache() == old(self).cache(),
            old(self).inv() ==> final(self).inv(),
    {
        self.stream.close();
    }

    /// Poll for the next item that differs from the previously emitted
    /// one.
    pub fn poll_next(&mut self) -> (r: PollNext<T>)
        requires
            old(self).inv(),
        ensures
            final(self).inv(),
            final(self).input_closed() == old(self).input_closed(),
            final(self).size() <= old(self).size(),
            final(self).consumed() + final(self).queued() == old(self).consumed() + old(self).queued(),
            old(self).queued().len() == 0 && old(self).input_closed() ==> r is Closed,
            old(self).queued().len() == 0 && !old(self).input_closed() ==> r is Pending,
            match r {
                PollNext::Item(v) => {
                    &&& final(self).emitted() == old(self).emitted().push(v.model())
                    &&& final(self).size() < old(self).size()
                    &&& old(self).emitted().len() > 0 ==> v.model() != old(self).emitted().last()
                    &&& final(self).consumed().len() > 0
                    &&& v.model() == final(self).consumed().last()
                    &&& final(self).cache() == Some(v.model())
                },
                PollNext::Pending => {
                    &&& final(self).emitted() == old(self).emitted()
                    &&& final(self).queued().len() == 0
                    &&& !final(self).input_closed()
                },
                PollNext::Closed => {
                    &&& final(self).emitted() == old(self).emitted()
                    &&& final(self).queued().len() == 0
                    &&& final(self).input_closed()
                    &&& final(self).cache() is None
                },
            },
    {
        loop
            invariant
                self.inv(),
                self.input_closed() == old(self).input_closed(),
                self.emitted() == old(self).emitted(),
                self.size() <= old(self).size(),
                self.queued().len() <= old(self).queued().len(),
                self.consumed() + self.queued() == old(self).consumed() + old(self).queued(),
            decreases self.stream.size(),
        {
            let ghost before = self.stream.consumed();
            let next = self.stream.poll_next();
            match next {
                PollNext::Item(v) => {
                    proof {
                        lemma_dedup_last(before);
                    }
                    let duplicate = match self.last {
                        Some(ref cmp) => v.same(cmp),
                        None => false,
                    };
                    if duplicate {
                        proof {
                            lemma_dedup_push_equal(before, v.model());
                        }
                    } else {
                        proof {
                            lemma_dedup_push_new(before, v.model());
                        }
                        self.emitted = Ghost(self.emitted@.push(v.model()));
                        self.last = Some(v.dup());
                        return PollNext::Item(v);
                    }
                },
                PollNext::Pending => {
                    return PollNext::Pending;
                },
                PollNext::Closed => {
                    self.last = None;
                    return PollNext::Closed;
                },
            }
        }
    }
}

/// Merges two streams into a stream of latest-known pairs.
///
/// Each poll polls both sides once. When either side delivers a new item
/// the combinator emits one pair holding the new item for the side that
/// advanced and the remembered latest item for the other (absent until
/// that side first delivers). The moment either side reports exhaustion
/// the combined stream is exhausted: a fail-fast join.
pub struct PollBoth<A: StreamItem, B: StreamItem> {
    s1: Feed<A>,
    s2: Feed<B>,
    v1: Option<A>,
    v2: Option<B>,
}

impl<A: StreamItem, B: StreamItem> PollBoth<A, B> {
    /// Models of the items consumed from the first side.
    pub closed spec fn consumed1(&self) -> Seq<A::Model> {
        self.s1.consumed()
    }

    /// Models of the items consumed from the second side.
    pub closed spec fn consumed2(&self) -> Seq<B::Model> {
        self.s2.consumed()
    }

    /// Models of the items delivered into the first side but not yet
    /// consumed.
    pub closed spec fn queued1(&self) -> Seq<A::Model> {
        self.s1.pending()
    }

    /// Models of the items delivered into the second side but not yet
    /// consumed.
    pub closed spec fn queued2(&self) -> Seq<B::Model> {
        self.s2.pending()
    }

    /// Whether the first side's feed has been closed by its producer.
    pub closed spec fn left_closed(&self) -> bool {
        self.s1.is_closed()
    }

    /// Whether the second side's feed has been closed by its producer.
    pub closed spec fn right_closed(&self) -> bool {
        self.s2.is_closed()
    }

    /// What the next poll of the first side will report.
    pub closed spec fn head1(&self) -> PollNext<A::Model> {
        self.s1.head()
    }

    /// What the next poll of the second side will report.
    pub closed spec fn head2(&self) -> PollNext<B::Model> {
        self.s2.head()
    }

    /// The remembered latest item of the first side.
    pub closed spec fn latest1(&self) -> Option<A::Model> {
        match self.v1 {
            Some(ref v) => Some(v.model()),
            None => None,
        }
    }

    /// The remembered latest item of the second side.
    pub closed spec fn latest2(&self) -> Option<B::Model> {
        match self.v2 {
            Some(ref v) => Some(v.model()),
            None => None,
        }
    }

    /// Queued items on both sides; a measure for composition loops.
    pub closed spec fn size(&self) -> nat {
        self.s1.size() + self.s2.size()
    }

    /// Whether one side has been seen exhausted; from then on the pair
    /// stream only ever reports exhaustion.
    pub open spec fn is_dead(&self) -> bool {
        self.head1() is Closed || self.head2() is Closed
    }

    /// The pair combinator's invariant: while no side has been seen
    /// exhausted, the remembered values are exactly the latest items
    /// consumed from each side.
    pub open spec fn inv(&self) -> bool {
        !self.is_dead() ==> {
            &&& self.latest1() == opt_last(self.consumed1())
            &&& self.latest2() == opt_last(self.consumed2())
        }
    }

    /// What each side's next poll reports, written out over the exposed
    /// queues and closed flags, so that callers can chain polls.
    pub proof fn lemma_heads(&self)
        ensures
            self.head1() == (if self.queued1().len() > 0 {
                PollNext::Item(self.queued1().first())
            } else if self.left_closed() {
                PollNext::<A::Model>::Closed
            } else {
                PollNext::<A::Model>::Pending
            }),
            self.head2() == (if self.queued2().len() > 0 {
                PollNext::Item(self.queued2().first())
            } else if self.right_closed() {
                PollNext::<B::Model>::Closed
            } else {
                PollNext::<B::Model>::Pending
            }),
    {
    }

    /// A side whose next poll reports exhaustion has been closed by its
    /// producer and holds nothing.
    pub proof fn lemma_closed_heads(&self)
        ensures
            self.head1() is Closed ==> self.left_closed(),
            self.head2() is Closed ==> self.right_closed(),
    {
    }

    /// Deliver one item into the first side.
    pub fn push_left(&mut self, v: A)
        requires
            !old(self).left_closed(),
        ensures
            !final(self).left_closed(),
            final(self).right_closed() == old(self).right_closed(),
            final(self).size() == old(self).size() + 1,
            final(self).queued1() == old(self).queued1().push(v.model()),
            final(self).queued2() == old(self).queued2(),
            old(self).inv() ==> final(self).inv(),
            final(self).head2() == old(self).head2(),
            final(self).consumed1() == old(self).consumed1(),
            final(self).consumed2() == old(self).consumed2(),
            final(self).latest1() == old(self).latest1(),
            final(self).latest2() == old(self).latest2(),
            final(self).head1() == (match old(self).head1() {
                PollNext::Item(m) => PollNext::Item(m),
                _ => PollNext::<A::Model>::Item(v.model()),
            }),
    {
        self.s1.push(v);
    }

    /// Deliver one item into the second side.
    pub fn push_right(&mut self, v: B)
        requires
            !old(self).right_closed(),
        ensures
            !final(self).right_closed(),
            final(self).left_closed() == old(self).left_closed(),
            final(self).size() == old(self).size() + 1,
            final(self).queued2() == old(self).queued2().push(v.model()),
            final(self).queued1() == old(self).queued1(),
            old(self).inv() ==> final(self).inv(),
            final(self).head1() == old(self).head1(),
            final(self).consumed1() == old(self).consumed1(),
            final(self).consumed2() == old(self).consumed2(),
            final(self).latest1() == old(self).latest1(),
            final(self).latest2() == old(self).latest2(),
            final(self).head2() == (match old(self).head2() {
                PollNext::Item(m) => PollNext::Item(m),
                _ => PollNext::<B::Model>::Item(v.model()),
            }),
    {
        self.s2.push(v);
    }

    /// Close the first side.
    pub fn close_left(&mut self)
        ensures
            old(self).inv() ==> final(self).inv(),
            final(self).left_closed(),
            final(self).right_closed() == old(self).right_closed(),
            final(self).size() == old(self).size(),
            final(self).queued1() == old(self).queued1(),
            final(self).queued2() == old(self).queued2(),
            final(self).consumed1() == old(self).consumed1(),
            final(self).consumed2() == old(self).consumed2(),
            final(self).head2() == old(self).head2(),
            final(self).head1() == (match old(self).head1() {
                PollNext::Item(m) => PollNext::Item(m),
                _ => PollNext::<A::Model>::Closed,
            }),
            final(self).latest1() == old(self).latest1(),
            final(self).latest2() == old(self).latest2(),
    {
        self.s1.close();
    }

    /// Close the second side.
    pub fn close_right(&mut self)
        ensures
            old(self).inv() ==> final(self).inv(),
            final(self).right_closed(),
            final(self).left_closed() == old(self).left_closed(),
            final(self).size() == old(self).size(),
            final(self).queued1() == old(self).queued1(),
            final(self).queued2() == old(self).queued2(),
            final(self).consumed1() == old(self).consumed1(),
            final(self).consumed2() == old(self).consumed2(),
            final(self).head1() == old(self).head1(),
            final(self).head2() == (match old(self).head2() {
                PollNext::Item(m) => PollNext::Item(m),
                _ => PollNext::<B::Model>::Closed,
            }),
            final(self).latest1() == old(self).latest1(),
            final(self).latest2() == old(self).latest2(),
    {
        self.s2.close();
    }

    /// Poll both sides once and combine.
    ///
    /// Every emitted pair holds the latest item consumed from each side;
    /// exhaustion of either side exhausts the pair stream at once, even if
    /// the other side could still deliver.
    pub fn poll_next(&mut self) -> (r: PollNext<(Option<A>, Option<B>)>)
        requires
            old(self).inv(),
        ensures
            final(self).inv(),
            final(self).size() <= old(self).size(),
            final(self).left_closed() == old(self).left_closed(),
            final(self).right_closed() == old(self).right_closed(),
            r matches PollNext::Item(_) ==> final(self).size() < old(self).size(),
            match old(self).head1() {
                PollNext::Item(m) => final(self).consumed1() == old(self).consumed1().push(m)
                    && final(self).queued1() == old(self).queued1().drop_first(),
                _ => final(self).consumed1() == old(self).consumed1() && final(self).queued1()
                    == old(self).queued1(),
            },
            match old(self).head2() {
                PollNext::Item(m) => final(self).consumed2() == old(self).consumed2().push(m)
                    && final(self).queued2() == old(self).queued2().drop_first(),
                _ => final(self).consumed2() == old(self).consumed2() && final(self).queued2()
                    == old(self).queued2(),
            },
            match (old(self).head1(), old(self).head2()) {
                (PollNext::Closed, _) | (_, PollNext::Closed) => r is Closed,
                (PollNext::Pending, PollNext::Pending) => {
                    &&& r is Pending
                    &&& final(self).latest1() == old(self).latest1()
                    &&& final(self).latest2() == old(self).latest2()
                    &&& final(self).head1() == old(self).head1()
                    &&& final(self).head2() == old(self).head2()
                },
                (PollNext::Item(a), PollNext::Item(b)) => {
                    r matches PollNext::Item(p) && p.model() == (
                        Some(a),
                        Some(b),
                    )
                },
                (PollNext::Item(a), PollNext::Pending) => {
                    r matches PollNext::Item(p) && p.model() == (
                        Some(a),
                        old(self).latest2(),
                    )
                },
                (PollNext::Pending, PollNext::Item(b)) => {
                    r matches PollNext::Item(p) && p.model() == (
                        old(self).latest1(),
                        Some(b),
                    )
                },
            },
            r matches PollNext::Item(p) ==> {
                &&& p.model().0 == opt_last(final(self).consumed1())
                &&& p.model().1 == opt_last(final(self).consumed2())
                &&& p.model().0 == final(self).latest1()
                &&& p.model().1 == final(self).latest2()
            },
            r is Closed ==> final(self).is_dead(),
    {
        let r1 = self.s1.poll_next();
        let r2 = self.s2.poll_next();
        match (r1, r2) {
            (PollNext::Closed, _) | (_, PollNext::Closed) => PollNext::Closed,
            (PollNext::Pending, PollNext::Pending) => PollNext::Pending,
            (PollNext::Item(a), PollNext::Item(b)) => {
                self.v1 = Some(a.dup());
                self.v2 = Some(b.dup());
                PollNext::Item((Some(a), Some(b)))
            },
            (PollNext::Item(a), PollNext::Pending) => {
                self.v1 = Some(a.dup());
                PollNext::Item((Some(a), self.v2.dup()))
            },
            (PollNext::Pending, PollNext::Item(b)) => {
                self.v2 = Some(b.dup());
                PollNext::Item((self.v1.dup(), Some(b)))
            },
        }
    }
}

/// Combine two fresh feeds into a synchronized pair stream.
pub fn poll_both<A: StreamItem, B: StreamItem>(s1: Feed<A>, s2: Feed<B>) -> (r: PollBoth<A, B>)
    requires
        s1.consumed().len() == 0,
        s2.consumed().len() == 0,
    ensures
        r.inv(),
        r.latest1() is None,
        r.latest2() is None,
        r.consumed1() == Seq::<A::Model>::empty(),
        r.consumed2() == Seq::<B::Model>::empty(),
        r.head1() == s1.head(),
        r.head2() == s2.head(),
        r.left_closed() == s1.is_closed(),
        r.right_closed() == s2.is_closed(),
        r.size() == s1.size() + s2.size(),
        r.queued1() == s1.pending(),
        r.queued2() == s2.pending(),
{
    PollBoth { s1, s2, v1: None, v2: None }
}

/// Prepends one synthetic value to a stream: the initial-value injector.
///
/// The initial value is always the very first item, whether or not the
/// source already has items ready; afterwards the source is forwarded
/// unchanged.
pub struct WithInitialValue<T: Modeled> {
    initial: Option<T>,
    stream: Feed<T>,
    emitted: Ghost<Seq<T::Model>>,
}

impl<T: Modeled> WithInitialValue<T> {
    /// Models of the items emitted so far, oldest first.
    pub closed spec fn emitted(&self) -> Seq<T::Model> {
        self.emitted@
    }

    /// The model of the initial value, while it has not been emitted yet.
    pub closed spec fn initial(&self) -> Option<T::Model> {
        match self.initial {
            Some(ref v) => Some(v.model()),
            None => None,
        }
    }

    /// Models of the source items consumed so far.
    pub closed spec fn consumed(&self) -> Seq<T::Model> {
        self.stream.consumed()
    }

    /// Models of the source items delivered but not yet consumed.
    pub closed spec fn queued(&self) -> Seq<T::Model> {
        self.stream.pending()
    }

    /// Whether the source feed is closed.
    pub closed spec fn input_closed(&self) -> bool {
        self.stream.is_closed()
    }

    /// Queued source items; a measure for loop termination.
    pub open spec fn size(&self) -> nat {
        self.queued().len() + (if self.initial() is Some { 1nat } else { 0nat })
    }

    /// The injector's invariant: everything emitted is the initial value
    /// followed by the consumed source items, and nothing of the source is
    /// consumed before the initial value goes out.
    pub open spec fn inv(&self) -> bool {
        match self.initial() {
            Some(_) => self.emitted().len() == 0 && self.consumed().len() == 0,
            None => self.emitted().len() > 0 && self.emitted() == seq![self.emitted().first()]
                + self.consumed(),
        }
    }

    /// Deliver one item into the source feed.
    pub fn offer(&mut self, v: T)
        requires
            !old(self).input_closed(),
        ensures
            final(self).queued() == old(self).queued().push(v.model()),
            !final(self).input_closed(),
            final(self).consumed() == old(self).consumed(),
            final(self).emitted() == old(self).emitted(),
            final(self).initial() == old(self).initial(),
            old(self).inv() ==> final(self).inv(),
    {
        self.stream.push(v);
    }

    /// Close the source feed.
    pub fn close_input(&mut self)
        ensures
            final(self).queued() == old(self).queued(),
            final(self).input_closed(),
            final(self).consumed() == old(self).consumed(),
            final(self).emitted() == old(self).emitted(),
            final(self).initial() == old(self).initial(),
            old(self).inv() ==> final(self).inv(),
    {
        self.stream.close();
    }

    /// Poll: the initial value first, then the source unchanged.
    pub fn poll_next(&mut self) -> (r: PollNext<T>)
        requires
            old(self).inv(),
        ensures
            final(self).inv(),
            final(self).input_closed() == old(self).input_closed(),
            final(self).initial() is None ==> final(self).emitted().len() > 0,
            match old(self).initial() {
                Some(m) => {
                    &&& r matches PollNext::Item(v) && v.model() == m
                    &&& final(self).emitted() == seq![m]
                    &&& final(self).consumed() == old(self).consumed()
                    &&& final(self).initial() is None
                },
                None => {
                    &&& final(self).initial() is None
                    &&& match old(self).head() {
                        PollNext::Item(m) => {
                            &&& r matches PollNext::Item(v) && v.model() == m
                            &&& final(self).emitted() == old(self).emitted().push(m)
                        },
                        PollNext::Pending => r is Pending && final(self).emitted() == old(self).emitted(),
                        PollNext::Closed => r is Closed && final(self).emitted() == old(self).emitted(),
                    }
                },
            },
    {
        match self.initial.take() {
            Some(v) => {
                self.emitted = Ghost(self.emitted@.push(v.model()));
                proof {
                    assert(self.emitted@ =~= seq![v.model()] + self.consumed());
                }
                PollNext::Item(v)
            },
            None => {
                let r = self.stream.poll_next();
                match r {
                    PollNext::Item(ref v) => {
                        self.emitted = Ghost(self.emitted@.push(v.model()));
                        proof {
                            assert(self.emitted@ =~= seq![self.emitted@.first()]
                                + self.consumed());
                        }
                    },
                    _ => {},
                }
                r
            },
        }
    }

    /// What the next poll of the source feed will report.
    pub closed spec fn head(&self) -> PollNext<T::Model> {
        self.stream.head()
    }
}

/// Prepend `val` to a fresh source feed.
pub fn with_initial_value<T: Modeled>(val: T, stream: Feed<T>) -> (r: WithInitialValue<T>)
    requires
        stream.consumed().len() == 0,
    ensures
        r.inv(),
        r.initial() == Some(val.model()),
        r.emitted() == Seq::<T::Model>::empty(),
        r.queued() == stream.pending(),
        r.input_closed() == stream.is_closed(),
{
    WithInitialValue { initial: Some(val), stream, emitted: Ghost(Seq::empty()) }
}

/// Follows whichever inner stream is newest: the switching combinator.
///
/// Consumes an outer stream whose items are themselves streams. Each poll
/// first checks the outer stream; a newly arrived inner stream
/// unconditionally replaces the current one, abandoning it without
/// draining. Then the current inner stream is polled. An exhausted inner
/// stream is dropped and the whole step retried in the same poll, so
/// exhaustion of one inner stream needs no extra wake to reach the next.
/// The combined stream is exhausted only once the outer stream is
/// exhausted and no inner stream remains.
pub struct FlattenNewest<T: Modeled> {
    outer: Feed<Feed<T>>,
    inner: Option<Feed<T>>,
    outer_done: bool,
    emitted: Ghost<Seq<T::Model>>,
    base: Ghost<Seq<T::Model>>,
    queue: Ghost<Seq<T::Model>>,
    adopted: Ghost<nat>,
}

impl<T: Modeled> FlattenNewest<T> {
    /// Models of the items emitted so far, oldest first.
    pub closed spec fn emitted(&self) -> Seq<T::Model> {
        self.emitted@
    }

    /// Whether the outer stream has been seen exhausted.
    pub closed spec fn outer_finished(&self) -> bool {
        self.outer_done
    }

    /// Whether the outer feed has been closed by its producer.
    pub closed spec fn outer_closed(&self) -> bool {
        self.outer.is_closed()
    }

    /// Models of the inner streams delivered but not yet picked up.
    pub closed spec fn outer_queued(&self) -> Seq<FeedModel<T::Model>> {
        self.outer.pending()
    }

    /// Models of the inner streams already picked up, oldest first.
    pub closed spec fn streams_taken(&self) -> Seq<FeedModel<T::Model>> {
        self.outer.consumed()
    }

    /// What the current inner stream had already handed out when it was
    /// adopted.
    pub closed spec fn adopted_base(&self) -> Seq<T::Model> {
        self.base@
    }

    /// What the current inner stream had queued when it was adopted.
    pub closed spec fn adopted_queue(&self) -> Seq<T::Model> {
        self.queue@
    }

    /// How many items had been emitted when the current inner stream was
    /// adopted.
    pub closed spec fn adopted_at(&self) -> nat {
        self.adopted@
    }

    /// The model of the current inner stream, if any.
    pub closed spec fn inner_feed(&self) -> Option<FeedModel<T::Model>> {
        match self.inner {
            Some(ref s) => Some(s.model()),
            None => None,
        }
    }

    /// The switcher's invariant: once the outer stream was seen
    /// exhausted, its feed stays exhausted; and everything the current
    /// inner stream handed out since its adoption was emitted, in order —
    /// nothing of it is dropped, and nothing of an abandoned stream is
    /// emitted after its replacement.
    pub open spec fn inv(&self) -> bool {
        &&& self.outer_finished() ==> self.outer_closed() && self.outer_queued().len() == 0
        &&& self.adopted_at() <= self.emitted().len()
        &&& match self.inner_feed() {
            Some(f) => {
                &&& self.emitted().len() - self.adopted_at() <= self.adopted_queue().len()
                &&& self.emitted().skip(self.adopted_at() as int) == self.adopted_queue().take(
                    self.emitted().len() - self.adopted_at(),
                )
                &&& f.consumed == self.adopted_base() + self.emitted().skip(
                    self.adopted_at() as int,
                )
                &&& f.pending == self.adopted_queue().skip(
                    self.emitted().len() - self.adopted_at(),
                )
                &&& self.streams_taken().len() > 0
                &&& self.adopted_base() == self.streams_taken().last().consumed
                &&& self.adopted_queue() == self.streams_taken().last().pending
                &&& f.closed == self.streams_taken().last().closed
            },
            None => true,
        }
    }

    /// Everything the current inner stream handed out since its adoption
    /// is exactly the tail of the emissions from the adoption point, and
    /// those emissions are exactly the front of what the stream had
    /// queued when it was adopted.
    pub proof fn lemma_inner_provenance(&self)
        requires
            self.inv(),
        ensures
            match self.inner_feed() {
                Some(f) => {
                    &&& self.adopted_at() <= self.emitted().len()
                    &&& self.emitted().len() - self.adopted_at() <= self.adopted_queue().len()
                    &&& self.emitted().skip(self.adopted_at() as int) == self.adopted_queue().take(
                        self.emitted().len() - self.adopted_at(),
                    )
                    &&& f.consumed == self.adopted_base() + self.emitted().skip(
                        self.adopted_at() as int,
                    )
                    &&& f.pending == self.adopted_queue().skip(
                        self.emitted().len() - self.adopted_at(),
                    )
                },
                None => true,
            },
    {
    }

    /// Measure of the outer side, for loop termination.
    pub closed spec fn outer_measure(&self) -> nat {
        self.outer.size() + (if self.outer_done { 0nat } else { 1nat })
    }

    /// Measure of the inner side, for loop termination.
    pub closed spec fn inner_measure(&self) -> nat {
        match self.inner {
            Some(ref s) => s.size() + 1,
            None => 0,
        }
    }

    /// Wrap a fresh outer feed of streams.
    pub fn new(outer: Feed<Feed<T>>) -> (r: FlattenNewest<T>)
        ensures
            r.inv(),
            r.emitted() == Seq::<T::Model>::empty(),
            !r.outer_finished(),
            r.inner_feed() is None,
            r.outer_queued() == outer.pending(),
            r.outer_closed() == outer.is_closed(),
            r.streams_taken() == outer.consumed(),
    {
        FlattenNewest {
            outer,
            inner: None,
            outer_done: false,
            emitted: Ghost(Seq::empty()),
            base: Ghost(Seq::empty()),
            queue: Ghost(Seq::empty()),
            adopted: Ghost(0),
        }
    }

    /// Deliver one more inner stream into the outer feed.
    pub fn push_stream(&mut self, f: Feed<T>)
        requires
            !old(self).outer_closed(),
        ensures
            final(self).outer_queued() == old(self).outer_queued().push(f.model()),
            !final(self).outer_closed(),
            final(self).emitted() == old(self).emitted(),
            final(self).inner_feed() == old(self).inner_feed(),
            final(self).outer_finished() == old(self).outer_finished(),
            final(self).streams_taken() == old(self).streams_taken(),
            old(self).inv() ==> final(self).inv(),
    {
        self.outer.push(f);
    }

    /// Close the outer feed: no further inner stream will arrive.
    pub fn close_outer(&mut self)
        ensures
            final(self).outer_queued() == old(self).outer_queued(),
            final(self).outer_closed(),
            final(self).emitted() == old(self).emitted(),
            final(self).inner_feed() == old(self).inner_feed(),
            final(self).outer_finished() == old(self).outer_finished(),
            final(self).streams_taken() == old(self).streams_taken(),
            old(self).inv() ==> final(self).inv(),
    {
        self.outer.close();
    }

    /// Poll: outer stream first, then the current inner stream.
    pub fn poll_next(&mut self) -> (r: PollNext<T>)
        requires
            old(self).inv(),
        ensures
            final(self).inv(),
            final(self).outer_closed() == old(self).outer_closed(),
            old(self).outer_finished() ==> final(self).outer_finished(),
            old(self).streams_taken().is_prefix_of(final(self).streams_taken()),
            final(self).streams_taken() + final(self).outer_queued() == old(self).streams_taken()
                + old(self).outer_queued(),
            !old(self).outer_finished() && old(self).outer_queued().len() > 0
                ==> final(self).streams_taken().len() > old(self).streams_taken().len(),
            old(self).outer_finished() && old(self).inner_feed() is None ==> r is Closed,
            final(self).streams_taken().len() > old(self).streams_taken().len()
                && final(self).inner_feed() is Some ==> final(self).adopted_base()
                == final(self).streams_taken().last().consumed && final(self).adopted_queue()
                == final(self).streams_taken().last().pending,
            final(self).streams_taken().len() == old(self).streams_taken().len()
                ==> final(self).adopted_base() == old(self).adopted_base()
                && final(self).adopted_at() == old(self).adopted_at()
                && final(self).adopted_queue() == old(self).adopted_queue(),
            final(self).inner_feed() is None && final(self).streams_taken().len() > old(self).streams_taken().len() ==> final(self).streams_taken().last().closed
                && final(self).emitted().len() == final(self).adopted_at() + final(self).adopted_queue().len(),
            match r {
                PollNext::Item(v) => {
                    &&& final(self).emitted() == old(self).emitted().push(v.model())
                    &&& final(self).inner_feed() matches Some(f) && f.consumed.len() > 0
                        && f.consumed.last() == v.model()
                },
                PollNext::Pending => {
                    &&& final(self).emitted() == old(self).emitted()
                    &&& match final(self).inner_feed() {
                        Some(f) => f.pending.len() == 0 && !f.closed,
                        None => !final(self).outer_finished()
                            && final(self).outer_queued().len() == 0
                            && !final(self).outer_closed(),
                    }
                },
                PollNext::Closed => {
                    &&& final(self).emitted() == old(self).emitted()
                    &&& final(self).outer_finished()
                    &&& final(self).inner_feed() is None
                },
            },
    {
        loop
            invariant
                self.inv(),
                self.emitted() == old(self).emitted(),
                self.outer_closed() == old(self).outer_closed(),
                old(self).outer_finished() ==> self.outer_finished(),
                old(self).streams_taken().is_prefix_of(self.streams_taken()),
                self.streams_taken() + self.outer_queued() == old(self).streams_taken()
                    + old(self).outer_queued(),
                !old(self).outer_finished() && old(self).outer_queued().len() > 0
                    ==> (self.streams_taken().len() > old(self).streams_taken().len()
                    || self == old(self)),
                self.streams_taken().len() > old(self).streams_taken().len() && self.inner_feed()
                    is Some ==> self.adopted_base() == self.streams_taken().last().consumed
                    && self.adopted_queue() == self.streams_taken().last().pending,
                self.streams_taken().len() == old(self).streams_taken().len()
                    ==> self.adopted_base() == old(self).adopted_base()
                    && self.adopted_at() == old(self).adopted_at()
                    && self.adopted_queue() == old(self).adopted_queue(),
                self.inner_feed() is None && self.streams_taken().len() > old(self).streams_taken().len() ==> self.streams_taken().last().closed
                    && self.emitted().len() == self.adopted_at() + self.adopted_queue().len(),
                old(self).outer_finished() && old(self).inner_feed() is None
                    ==> self.outer_finished() && self.inner_feed() is None,
            decreases self.outer_measure(), self.inner_measure(),
        {
            if !self.outer_done {
                let ghost taken_before = self.streams_taken();
                let ghost queued_before = self.outer_queued();
                match self.outer.poll_next() {
                    PollNext::Item(s2) => {
                        proof {
                            assert(self.streams_taken() + self.outer_queued() =~= taken_before
                                + queued_before);
                            assert(taken_before.is_prefix_of(self.streams_taken())) by {
                                assert(self.streams_taken().subrange(
                                    0,
                                    taken_before.len() as int,
                                ) =~= taken_before);
                            }
                        }
                        self.base = Ghost(s2.consumed());
                        self.queue = Ghost(s2.pending());
                        self.adopted = Ghost(self.emitted@.len());
                        proof {
                            assert(self.emitted@.skip(self.adopted@ as int) =~= Seq::empty());
                            assert(self.queue@.take(0) =~= Seq::empty());
                            assert(self.queue@.skip(0) =~= self.queue@);
                            assert(s2.consumed() =~= self.base@ + self.emitted@.skip(
                                self.adopted@ as int,
                            ));
                        }
                        self.inner = Some(s2);
                    },
                    PollNext::Closed => {
                        self.outer_done = true;
                    },
                    PollNext::Pending => {},
                }
            }
            let inner_exhausted = match self.inner {
                Some(ref mut s) => {
                    match s.poll_next() {
                        PollNext::Item(v) => {
                            let ghost before = self.emitted@;
                            self.emitted = Ghost(self.emitted@.push(v.model()));
                            proof {
                                let n = before.len() - self.adopted@;
                                assert(self.emitted@.skip(self.adopted@ as int) =~= before.skip(
                                    self.adopted@ as int,
                                ).push(v.model()));
                                assert(v.model() == self.queue@.skip(n).first());
                                assert(self.queue@.take(n + 1) =~= self.queue@.take(n).push(
                                    self.queue@[n],
                                ));
                                assert(self.queue@.skip(n).drop_first() =~= self.queue@.skip(
                                    n + 1,
                                ));
                                assert(self.base@ + self.emitted@.skip(self.adopted@ as int) =~= (
                                self.base@ + before.skip(self.adopted@ as int)).push(v.model()));
                            }
                            return PollNext::Item(v);
                        },
                        PollNext::Pending => {
                            return PollNext::Pending;
                        },
                        PollNext::Closed => true,
                    }
                },
                None => {
                    if self.outer_done {
                        return PollNext::Closed;
                    }
                    return PollNext::Pending;
                },
            };
            if inner_exhausted {
                self.inner = None;
            }
        }
    }
}

} // verus!



