//! The property-change adapter.
//!
//! A change notification carries no payload; it only says that a property
//! changed and carries the capability to fetch the new value. The adapter
//! turns the notification stream into a stream of fetch results, running
//! at most one fetch at a time: a new notification waits until the current
//! fetch resolves, which preserves per-property update ordering.

use vstd::prelude::*;

use crate::error::Error;
use crate::error::ErrorModel;
use crate::feed::Feed;
use crate::feed::PollNext;
use crate::item::Modeled;
use crate::item::StreamItem;
use crate::util::FilterNoChange;
use crate::util::dedup;
use crate::util::lemma_dedup_last;

verus! {

/// A one-shot asynchronous fetch of a value.
///
/// The fetch resolves after a number of polls; a fetch whose value never
/// arrives models a stalled bus call and reports pending forever.
pub struct Fetch<T: Modeled> {
    delay: usize,
    value: Option<T>,
}

impl<T: Modeled> Fetch<T> {
    /// How many more polls the fetch stays pending.
    pub closed spec fn remaining(&self) -> nat {
        self.delay as nat
    }

    /// The model of the value the fetch will resolve to, if it ever
    /// resolves and has not resolved yet.
    pub closed spec fn result(&self) -> Option<T::Model> {
        match self.value {
            Some(ref v) => Some(v.model()),
            None => None,
        }
    }

    /// A fetch that resolves to `v` on its first poll.
    pub fn ready(v: T) -> (r: Fetch<T>)
        ensures
            r.remaining() == 0,
            r.result() == Some(v.model()),
    {
        Fetch { delay: 0, value: Some(v) }
    }

    /// A fetch that resolves to `v` after `delay` pending polls.
    pub fn after(delay: usize, v: T) -> (r: Fetch<T>)
        ensures
            r.remaining() == delay,
            r.result() == Some(v.model()),
    {
        Fetch { delay, value: Some(v) }
    }

    /// A fetch that never resolves: a stalled bus call.
    pub fn stalled() -> (r: Fetch<T>)
        ensures
            r.result() is None,
    {
        Fetch { delay: 0, value: None }
    }

    /// Poll the fetch once.
    pub fn poll(&mut self) -> (r: Option<T>)
        ensures
            if old(self).remaining() > 0 {
                &&& r is None
                &&& final(self).remaining() == old(self).remaining() - 1
                &&& final(self).result() == old(self).result()
            } else {
                match old(self).result() {
                    Some(m) => {
                        &&& r matches Some(v) && v.model() == m
                        &&& final(self).result() is None
                        &&& final(self).remaining() == 0
                    },
                    None => {
                        &&& r is None
                        &&& final(self).result() is None
                        &&& final(self).remaining() == 0
                    },
                }
            },
    {
        if self.delay > 0 {
            self.delay = self.delay - 1;
            None
        } else {
            self.value.take()
        }
    }
}

impl<T: Modeled> Modeled for Fetch<T> {
    type Model = (nat, Option<T::Model>);

    open spec fn model(&self) -> (nat, Option<T::Model>) {
        (self.remaining(), self.result())
    }
}

/// A notification that a property changed, carrying the capability to
/// fetch the new value once.
pub struct ChangeEvent<T: Modeled> {
    fetch: Fetch<Result<T, Error>>,
}

impl<T: Modeled> ChangeEvent<T> {
    /// The model of the carried fetch.
    pub closed spec fn fetch_model(&self) -> (nat, Option<Result<T::Model, ErrorModel>>) {
        self.fetch.model()
    }

    /// Wrap a fetch capability into a change notification.
    pub fn new(fetch: Fetch<Result<T, Error>>) -> (r: ChangeEvent<T>)
        ensures
            r.fetch_model() == fetch.model(),
    {
        ChangeEvent { fetch }
    }
}

impl<T: Modeled> Modeled for ChangeEvent<T> {
    type Model = (nat, Option<Result<T::Model, ErrorModel>>);

    open spec fn model(&self) -> (nat, Option<Result<T::Model, ErrorModel>>) {
        self.fetch_model()
    }
}

/// The stream of fetch results for one property: the property-change
/// adapter.
pub struct PropertyS<T: Modeled> {
    changes: Feed<ChangeEvent<T>>,
    current: Option<Fetch<Result<T, Error>>>,
    emitted: Ghost<Seq<Result<T::Model, ErrorModel>>>,
}

impl<T: Modeled> PropertyS<T> {
    /// Models of the fetch results emitted so far, oldest first.
    pub closed spec fn emitted(&self) -> Seq<Result<T::Model, ErrorModel>> {
        self.emitted@
    }

    /// The model of the fetch currently in flight, if any.
    pub closed spec fn fetching(&self) -> Option<(nat, Option<Result<T::Model, ErrorModel>>)> {
        match self.current {
            Some(ref f) => Some(f.model()),
            None => None,
        }
    }

    /// What the next poll of the notification feed will report.
    pub closed spec fn head(&self) -> PollNext<(nat, Option<Result<T::Model, ErrorModel>>)> {
        self.changes.head()
    }

    /// Models of the notifications consumed so far.
    pub closed spec fn changes_consumed(&self) -> Seq<
        (nat, Option<Result<T::Model, ErrorModel>>),
    > {
        self.changes.consumed()
    }

    /// Whether the notification feed is closed.
    pub closed spec fn input_closed(&self) -> bool {
        self.changes.is_closed()
    }

    /// Models of the notifications delivered but not yet consumed.
    pub closed spec fn queued(&self) -> Seq<(nat, Option<Result<T::Model, ErrorModel>>)> {
        self.changes.pending()
    }

    /// Queued notifications; a measure for composition loops.
    pub open spec fn size(&self) -> nat {
        self.queued().len() + (if self.fetching() is Some { 1nat } else { 0nat })
    }

    /// Whether the adapter is exhausted: no fetch in flight and the
    /// notification feed drained and closed. An exhausted adapter reports
    /// `Closed` on every further poll.
    pub open spec fn finished(&self) -> bool {
        self.fetching() is None && self.head() is Closed
    }

    /// Whether the next poll is guaranteed to resolve a value: the fetch
    /// in flight is due, or no fetch is in flight and the next queued
    /// notification's fetch resolves at once.
    pub open spec fn has_due(&self) -> bool {
        match self.fetching() {
            Some((d, res)) => d == 0 && res is Some,
            None => self.queued().len() > 0 && self.queued().first().0 == 0
                && self.queued().first().1 is Some,
        }
    }

    /// The value the due fetch resolves to.
    pub open spec fn due_value(&self) -> Result<T::Model, ErrorModel>
        recommends
            self.has_due(),
    {
        match self.fetching() {
            Some((_, res)) => res->0,
            None => self.queued().first().1->0,
        }
    }

    /// What the next poll of the notification feed reports, written out
    /// over the exposed queue and closed flag.
    pub proof fn lemma_head(&self)
        ensures
            self.head() == (if self.queued().len() > 0 {
                PollNext::Item(self.queued().first())
            } else if self.input_closed() {
                PollNext::<(nat, Option<Result<T::Model, ErrorModel>>)>::Closed
            } else {
                PollNext::<(nat, Option<Result<T::Model, ErrorModel>>)>::Pending
            }),
    {
    }

    /// Whether the notification feed is closed, as an executable test.
    pub fn is_input_closed(&self) -> (r: bool)
        ensures
            r == self.input_closed(),
    {
        self.changes.producer_closed()
    }

    /// An exhausted adapter's notification feed is drained and closed.
    pub proof fn lemma_finished_closed(&self)
        ensures
            self.finished() ==> self.input_closed() && self.queued().len() == 0,
    {
    }

    /// Deliver one change notification.
    pub fn notify(&mut self, ev: ChangeEvent<T>)
        requires
            !old(self).input_closed(),
        ensures
            !final(self).input_closed(),
            final(self).emitted() == old(self).emitted(),
            final(self).fetching() == old(self).fetching(),
            final(self).changes_consumed() == old(self).changes_consumed(),
            final(self).size() == old(self).size() + 1,
            final(self).queued() == old(self).queued().push(ev.model()),
            final(self).head() == (match old(self).head() {
                PollNext::Item(m) => PollNext::Item(m),
                _ => PollNext::Item(ev.model()),
            }),
    {
        self.changes.push(ev);
    }

    /// Close the notification feed.
    pub fn close_input(&mut self)
        ensures
            final(self).input_closed(),
            final(self).emitted() == old(self).emitted(),
            final(self).fetching() == old(self).fetching(),
            final(self).changes_consumed() == old(self).changes_consumed(),
            final(self).size() == old(self).size(),
            final(self).queued() == old(self).queued(),
            final(self).head() == (match old(self).head() {
                PollNext::Item(m) => PollNext::Item(m),
                _ => PollNext::<(nat, Option<Result<T::Model, ErrorModel>>)>::Closed,
            }),
    {
        self.changes.close();
    }

    /// Poll for the next fetch result.
    ///
    /// While a fetch is in flight no further notification is consumed;
    /// when a notification is consumed its fetch starts, and is polled
    /// once immediately.
    pub fn poll_next(&mut self) -> (r: PollNext<Result<T, Error>>)
        ensures
            final(self).input_closed() == old(self).input_closed(),
            final(self).size() <= old(self).size(),
            old(self).has_due() ==> (r matches PollNext::Item(v) && v.model() == old(self).due_value()),
            match r {
                PollNext::Item(v) => {
                    &&& final(self).emitted() == old(self).emitted().push(v.model())
                    &&& final(self).fetching() is None
                    &&& final(self).size() < old(self).size()
                },
                PollNext::Pending => final(self).emitted() == old(self).emitted(),
                PollNext::Closed => {
                    &&& final(self).emitted() == old(self).emitted()
                    &&& final(self).finished()
                    &&& final(self).input_closed()
                    &&& final(self).changes_consumed() == old(self).changes_consumed()
                },
            },
            match old(self).fetching() {
                Some((d, res)) => {
                    &&& final(self).changes_consumed() == old(self).changes_consumed()
                    &&& final(self).queued() == old(self).queued()
                    &&& if d > 0 {
                        r is Pending && final(self).fetching() == Some(
                            ((d - 1) as nat, res),
                        )
                    } else {
                        match res {
                            Some(m) => r matches PollNext::Item(v) && v.model() == m,
                            None => r is Pending && final(self).fetching() == Some(
                                (0nat, None::<Result<T::Model, ErrorModel>>),
                            ),
                        }
                    }
                },
                None => match old(self).head() {
                    PollNext::Item((d, res)) => {
                        &&& final(self).changes_consumed() == old(self).changes_consumed().push(
                            (d, res),
                        )
                        &&& final(self).queued() == old(self).queued().drop_first()
                        &&& if d > 0 {
                            r is Pending && final(self).fetching() == Some(
                                ((d - 1) as nat, res),
                            )
                        } else {
                            match res {
                                Some(m) => r matches PollNext::Item(v) && v.model() == m,
                                None => r is Pending && final(self).fetching() == Some(
                                    (0nat, None::<Result<T::Model, ErrorModel>>),
                                ),
                            }
                        }
                    },
                    PollNext::Pending => {
                        &&& r is Pending
                        &&& final(self).fetching() is None
                        &&& final(self).head() is Pending
                        &&& final(self).changes_consumed() == old(self).changes_consumed()
                        &&& final(self).queued() == old(self).queued()
                    },
                    PollNext::Closed => {
                        &&& r is Closed
                        &&& final(self).queued() == old(self).queued()
                    },
                },
            },
    {
        let started = match self.current {
            Some(_) => true,
            None => false,
        };
        if !started {
            match self.changes.poll_next() {
                PollNext::Item(ev) => {
                    self.current = Some(ev.fetch);
                },
                PollNext::Closed => {
                    return PollNext::Closed;
                },
                PollNext::Pending => {
                    return PollNext::Pending;
                },
            }
        }
        match self.current {
            Some(ref mut f) => {
                match f.poll() {
                    Some(v) => {
                        self.current = None;
                        self.emitted = Ghost(self.emitted@.push(v.model()));
                        PollNext::Item(v)
                    },
                    None => PollNext::Pending,
                }
            },
            None => PollNext::Pending,
        }
    }
}

/// Adapt a notification feed into a stream of fetch results. A property
/// whose subscription-time presence check failed is given an already
/// exhausted feed, which yields the permanently-empty stream.
pub fn property_stream<T: Modeled>(changes: Feed<ChangeEvent<T>>) -> (r: PropertyS<T>)
    requires
        changes.consumed().len() == 0,
    ensures
        r.emitted() == Seq::<Result<T::Model, ErrorModel>>::empty(),
        r.fetching() is None,
        r.head() == changes.head(),
        r.changes_consumed() == Seq::<(nat, Option<Result<T::Model, ErrorModel>>)>::empty(),
        r.input_closed() == changes.is_closed(),
{
    PropertyS { changes, current: None, emitted: Ghost(Seq::empty()) }
}

/// A deduplicated stream of one property's values, seeded with the result
/// of an initial fetch: the initial value is emitted first, every change
/// notification is resolved through the adapter, and consecutive equal
/// values are collapsed.
pub struct PropertyValueStream<T: StreamItem> {
    first: Option<Result<T, Error>>,
    adapter: PropertyS<T>,
    dedup: FilterNoChange<Result<T, Error>>,
    init: Ghost<Result<T::Model, ErrorModel>>,
}

impl<T: StreamItem> PropertyValueStream<T> {
    /// Models of the values emitted so far, oldest first.
    pub closed spec fn emitted(&self) -> Seq<Result<T::Model, ErrorModel>> {
        self.dedup.emitted()
    }

    /// The model of the initial fetch result.
    pub closed spec fn init(&self) -> Result<T::Model, ErrorModel> {
        self.init@
    }

    /// Whether the initial value has not yet been emitted.
    pub closed spec fn seed_pending(&self) -> bool {
        self.first is Some
    }

    /// Models of the fetch results the adapter has handed out so far.
    pub closed spec fn fetched(&self) -> Seq<Result<T::Model, ErrorModel>> {
        self.adapter.emitted()
    }

    /// Models of the change notifications delivered but not yet consumed.
    pub closed spec fn pending_changes(&self) -> Seq<
        (nat, Option<Result<T::Model, ErrorModel>>),
    > {
        self.adapter.queued()
    }

    /// The model of the fetch currently in flight, if any.
    pub closed spec fn fetching(&self) -> Option<(nat, Option<Result<T::Model, ErrorModel>>)> {
        self.adapter.fetching()
    }

    /// Whether the adapter's next poll is guaranteed to resolve a value.
    pub closed spec fn adapter_due(&self) -> bool {
        self.adapter.has_due()
    }

    /// The value the adapter's due fetch resolves to.
    pub closed spec fn due_result(&self) -> Result<T::Model, ErrorModel> {
        self.adapter.due_value()
    }

    /// Whether the next poll is guaranteed to make progress: the seed is
    /// still owed, or the adapter's next poll resolves a value.
    pub open spec fn has_due(&self) -> bool {
        self.seed_pending() || self.adapter_due()
    }

    /// An exhausted adapter owes nothing.
    pub proof fn lemma_finished_not_due(&self)
        ensures
            self.adapter_finished() ==> !self.adapter_due(),
    {
        self.adapter.lemma_finished_closed();
        self.adapter.lemma_head();
    }

    /// Whether the notification feed has been closed.
    pub closed spec fn input_closed(&self) -> bool {
        self.adapter.input_closed()
    }

    /// What has entered the deduplication stage so far: nothing until the
    /// seed goes out, then the seed followed by the resolved fetches.
    pub closed spec fn sourced(&self) -> Seq<Result<T::Model, ErrorModel>> {
        match self.first {
            Some(_) => Seq::empty(),
            None => seq![self.init@] + self.adapter.emitted(),
        }
    }

    /// A measure for composition loops.
    pub closed spec fn size(&self) -> nat {
        self.adapter.size() + self.dedup.size() + (if self.first is Some { 1nat } else { 0nat })
    }

    /// The pipeline's invariant: the seed still waits while nothing was
    /// consumed, the deduplicator consumed exactly what the seed and the
    /// adapter handed out, and its input closes only when the adapter is
    /// exhausted.
    pub closed spec fn inv(&self) -> bool {
        &&& self.dedup.inv()
        &&& self.dedup.queued().len() == 0
        &&& self.dedup.consumed() == self.sourced()
        &&& match self.first {
            Some(ref v) => v.model() == self.init@ && self.adapter.emitted().len() == 0,
            None => true,
        }
        &&& self.dedup.input_closed() ==> self.adapter.finished() && self.first is None
    }

    /// Everything this pipeline has emitted is the deduplication of the
    /// initial value followed by the resolved fetches, once the seed is
    /// out.
    pub proof fn lemma_emissions(&self)
        requires
            self.inv(),
            !self.seed_pending(),
        ensures
            self.emitted() == dedup(seq![self.init()] + self.fetched()),
    {
    }

    /// Build the pipeline from the initial fetch result and a fresh
    /// notification feed.
    pub fn new(initial: Result<T, Error>, changes: Feed<ChangeEvent<T>>) -> (r:
        PropertyValueStream<T>)
        requires
            changes.consumed().len() == 0,
        ensures
            r.inv(),
            r.emitted().len() == 0,
            r.fetched().len() == 0,
            r.init() == initial.model(),
            r.seed_pending(),
            r.input_closed() == changes.is_closed(),
    {
        let ghost m = initial.model();
        PropertyValueStream {
            first: Some(initial),
            adapter: property_stream(changes),
            dedup: FilterNoChange::new(Feed::new()),
            init: Ghost(m),
        }
    }

    /// Whether the notification feed is closed, as an executable test.
    pub fn is_input_closed(&self) -> (r: bool)
        ensures
            r == self.input_closed(),
    {
        self.adapter.is_input_closed()
    }

    /// Deliver one change notification; after the feed has been closed
    /// the notification is dropped.
    pub fn notify(&mut self, ev: ChangeEvent<T>)
        requires
            old(self).inv(),
        ensures
            final(self).inv(),
            final(self).input_closed() == old(self).input_closed(),
            final(self).emitted() == old(self).emitted(),
            final(self).fetched() == old(self).fetched(),
            final(self).init() == old(self).init(),
            final(self).seed_pending() == old(self).seed_pending(),
            final(self).adapter_finished() == old(self).adapter_finished(),
            final(self).fetching() == old(self).fetching(),
            final(self).pending_changes() == (if old(self).input_closed() {
                old(self).pending_changes()
            } else {
                old(self).pending_changes().push(ev.model())
            }),
    {
        if !self.adapter.is_input_closed() {
            proof {
                self.adapter.lemma_finished_closed();
            }
            self.adapter.notify(ev);
        }
    }

    /// Close the notification feed: the pipeline will drain what is
    /// queued and exhaust itself.
    pub fn close_input(&mut self)
        requires
            old(self).inv(),
        ensures
            final(self).inv(),
            final(self).input_closed(),
            final(self).emitted() == old(self).emitted(),
            final(self).fetched() == old(self).fetched(),
            final(self).init() == old(self).init(),
            final(self).seed_pending() == old(self).seed_pending(),
            old(self).adapter_finished() ==> final(self).adapter_finished(),
            final(self).fetching() == old(self).fetching(),
            final(self).pending_changes() == old(self).pending_changes(),
    {
        self.adapter.close_input();
    }

    /// Poll for the next value: the seed first, then each resolved fetch,
    /// consecutive duplicates collapsed.
    pub fn poll_next(&mut self) -> (r: PollNext<Result<T, Error>>)
        requires
            old(self).inv(),
        ensures
            final(self).inv(),
            final(self).init() == old(self).init(),
            final(self).input_closed() == old(self).input_closed(),
            final(self).size() <= old(self).size(),
            old(self).adapter_finished() && !old(self).seed_pending() ==> r is Closed,
            old(self).fetched().is_prefix_of(final(self).fetched()),
            !old(self).seed_pending() && old(self).adapter_due() ==> final(self).fetched().len()
                > old(self).fetched().len() && final(self).fetched()[old(self).fetched().len() as int]
                == old(self).due_result(),
            !final(self).seed_pending() ==> final(self).emitted() == dedup(
                seq![final(self).init()] + final(self).fetched(),
            ),
            match r {
                PollNext::Item(v) => {
                    &&& final(self).emitted() == old(self).emitted().push(v.model())
                    &&& old(self).emitted().len() > 0 ==> v.model() != old(self).emitted().last()
                    &&& !final(self).seed_pending()
                    &&& final(self).size() < old(self).size()
                    &&& final(self).sourced().len() > 0
                    &&& v.model() == final(self).sourced().last()
                },
                PollNext::Pending => final(self).emitted() == old(self).emitted(),
                PollNext::Closed => {
                    &&& final(self).emitted() == old(self).emitted()
                    &&& final(self).adapter_finished()
                    &&& !final(self).seed_pending()
                },
            },
            old(self).seed_pending() ==> (r matches PollNext::Item(v) && v.model() == old(self).init()),
    {
        loop
            invariant
                self.inv(),
                self.init() == old(self).init(),
                self.emitted() == old(self).emitted(),
                self.input_closed() == old(self).input_closed(),
                self.size() <= old(self).size(),
                !old(self).seed_pending() ==> !self.seed_pending(),
                old(self).seed_pending() ==> self.seed_pending(),
                old(self).adapter_finished() ==> self.adapter_finished(),
                old(self).fetched().is_prefix_of(self.fetched()),
                !old(self).seed_pending() && old(self).adapter_due() ==> ((self.fetched().len()
                    > old(self).fetched().len() && self.fetched()[old(self).fetched().len() as int]
                    == old(self).due_result()) || self == old(self)),
            decreases self.size(),
        {
            let ghost fetched_before = self.fetched();
            let item: Result<T, Error> = match self.first.take() {
                Some(v) => v,
                None => {
                    match self.adapter.poll_next() {
                        PollNext::Item(v) => {
                            proof {
                                assert(old(self).fetched().is_prefix_of(self.fetched())) by {
                                    assert(self.fetched().subrange(
                                        0,
                                        old(self).fetched().len() as int,
                                    ) =~= old(self).fetched());
                                }
                            }
                            v
                        },
                        PollNext::Pending => {
                            return PollNext::Pending;
                        },
                        PollNext::Closed => {
                            self.dedup.close_input();
                            return self.dedup.poll_next();
                        },
                    }
                },
            };
            let ghost m = item.model();
            let ghost fed = self.dedup.consumed();
            self.dedup.offer(item);
            proof {
                assert(self.dedup.queued() =~= seq![m]);
            }
            match self.dedup.poll_next() {
                PollNext::Item(v) => {
                    proof {
                        assert(self.dedup.consumed() =~= self.dedup.consumed()
                            + self.dedup.queued());
                        assert(self.dedup.consumed() =~= fed.push(m));
                        assert(self.sourced() =~= self.dedup.consumed());
                    }
                    return PollNext::Item(v);
                },
                PollNext::Pending => {
                    proof {
                        assert(self.dedup.consumed() =~= self.dedup.consumed()
                            + self.dedup.queued());
                        assert(self.dedup.consumed() =~= fed.push(m));
                        assert(self.sourced() =~= self.dedup.consumed());
                        lemma_dedup_last(self.dedup.consumed());
                    }
                },
                PollNext::Closed => {
                    proof {
                        assert(false);
                    }
                    return PollNext::Closed;
                },
            }
        }
    }

    /// Whether the adapter is exhausted.
    pub closed spec fn adapter_finished(&self) -> bool {
        self.adapter.finished()
    }
}

} // verus!
