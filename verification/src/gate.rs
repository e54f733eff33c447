//! The visibility gate: suppress or pass the aggregated stream.
//!
//! A boolean hide-state feed (itself deduplicated and seeded with an
//! initial fetch) is joined with an underlying stream through the
//! synchronized pair combinator. On every change of either side the
//! visibility is re-evaluated: while hidden the output is absent; while
//! the hide-state feed has delivered nothing, or its latest value failed,
//! a configured default decides. The join is fail-fast: the output ends
//! the moment the hide-state feed or the underlying stream ends.

use vstd::prelude::*;

use crate::active_player_info::ActivePlayerInfoStream;
use crate::active_player_info::InfoItem;
use crate::active_player_info::InfoItemModel;
use crate::error::Error;
use crate::error::ErrorModel;
use crate::feed::Feed;
use crate::feed::PollNext;
use crate::item::Modeled;
use crate::item::StreamItem;
use crate::player_info::PlayerInfoStream;
use crate::player_info::PropertyChange;
use crate::property::ChangeEvent;
use crate::property::PropertyValueStream;
use crate::util::FilterNoChange;
use crate::util::dedup;
use crate::util::PollBoth;
use crate::util::poll_both;

verus! {

/// Adapt the hide-state source into a deduplicated stream of booleans,
/// seeded with the result of the initial fetch.
pub fn hidden(initial: Result<bool, Error>, changes: Feed<ChangeEvent<bool>>) -> (r:
    PropertyValueStream<bool>)
    requires
        changes.consumed().len() == 0,
    ensures
        r.inv(),
        r.emitted().len() == 0,
        r.fetched().len() == 0,
        r.init() == initial.model(),
        r.seed_pending(),
        r.input_closed() == changes.is_closed(),
{
    PropertyValueStream::new(initial, changes)
}

/// The hide flag a fetched hide-state result contributes to the join:
/// its value, or the default where the fetch failed.
pub open spec fn gate_bool(r: Result<bool, ErrorModel>, default: bool) -> bool {
    match r {
        Ok(b) => b,
        Err(_) => default,
    }
}

/// The visibility applied to a pair of latest-known values: hidden
/// suppresses; an unknown or failed hide state falls back to the default.
pub open spec fn gated<M>(
    gate: Option<bool>,
    value: Option<M>,
    default: bool,
) -> Option<M> {
    let hide_now = match gate {
        Some(b) => b,
        None => default,
    };
    if hide_now {
        None
    } else {
        value
    }
}

/// A stream masked by the hide state: the hide-state feed and the
/// underlying stream run through the synchronized pair combinator, and
/// each pair of latest-known values is projected through the visibility.
pub struct GatedStream<T: StreamItem> {
    hidden: PropertyValueStream<bool>,
    pair: PollBoth<bool, T>,
    default: bool,
    emitted: Ghost<Seq<Option<T::Model>>>,
}

impl<T: StreamItem> GatedStream<T> {
    /// Models of the items emitted so far, oldest first.
    pub closed spec fn emitted(&self) -> Seq<Option<T::Model>> {
        self.emitted@
    }

    /// The configured default hide state.
    pub closed spec fn default_hidden(&self) -> bool {
        self.default
    }

    /// The latest hide-state value handed to the join, if any.
    pub closed spec fn gate_latest(&self) -> Option<bool> {
        self.pair.latest1()
    }

    /// The latest underlying value handed to the join, if any.
    pub closed spec fn value_latest(&self) -> Option<T::Model> {
        self.pair.latest2()
    }

    /// Whether the underlying stream's side has been closed.
    pub closed spec fn values_closed(&self) -> bool {
        self.pair.right_closed()
    }

    /// Models of the hide-state results the hide feed has emitted so far.
    pub closed spec fn hidden_emitted(&self) -> Seq<Result<bool, ErrorModel>> {
        self.hidden.emitted()
    }

    /// Models of the fetch results the hide feed has resolved so far.
    pub closed spec fn hidden_fetched(&self) -> Seq<Result<bool, ErrorModel>> {
        self.hidden.fetched()
    }

    /// Whether the hide feed's next poll is guaranteed to make progress.
    pub closed spec fn hidden_due(&self) -> bool {
        self.hidden.has_due()
    }

    /// Every hide flag that has entered the join's left side, in order.
    pub closed spec fn gate_fed(&self) -> Seq<bool> {
        self.pair.consumed1() + self.pair.queued1()
    }

    /// Every underlying item that has entered the join's right side, in
    /// order.
    pub closed spec fn values_fed(&self) -> Seq<T::Model> {
        self.pair.consumed2() + self.pair.queued2()
    }

    /// Items waiting on the join's sides.
    pub closed spec fn queued_gate(&self) -> Seq<bool> {
        self.pair.queued1()
    }

    /// Items of the underlying stream waiting in the join.
    pub closed spec fn queued_values(&self) -> Seq<T::Model> {
        self.pair.queued2()
    }

    /// Whether the hide feed's seed is still owed.
    pub closed spec fn gate_seed_pending(&self) -> bool {
        self.hidden.seed_pending()
    }

    /// Whether the join's next poll is guaranteed not to stay pending: a
    /// side holds an item, or the hide feed's seed is still owed.
    pub open spec fn has_due(&self) -> bool {
        self.queued_gate().len() > 0 || self.queued_values().len() > 0 || self.gate_seed_pending()
    }

    /// Whether the hide-state feed has been closed.
    pub closed spec fn gate_input_closed(&self) -> bool {
        self.hidden.input_closed()
    }

    /// Whether the join is dead: one side has been seen exhausted.
    pub closed spec fn dead(&self) -> bool {
        self.pair.is_dead()
    }

    /// Queued work; a measure for composition loops.
    pub closed spec fn size(&self) -> nat {
        self.hidden.size() + self.pair.size()
    }

    /// The invariant: the components keep theirs, and the hide-state
    /// side of the join closes only when the hide-state feed is exhausted.
    pub closed spec fn inv(&self) -> bool {
        &&& self.hidden.inv()
        &&& self.pair.inv()
        &&& self.pair.left_closed() ==> self.hidden.adapter_finished()
            && !self.hidden.seed_pending()
    }

    /// Build the masked stream from a hide-state feed and the default.
    pub fn new(gate: PropertyValueStream<bool>, default: bool) -> (r: GatedStream<T>)
        requires
            gate.inv(),
        ensures
            r.inv(),
            r.emitted() == Seq::<Option<T::Model>>::empty(),
            !r.dead(),
            r.default_hidden() == default,
            r.values_fed() == Seq::<T::Model>::empty(),
            r.gate_fed() == Seq::<bool>::empty(),
            r.hidden_emitted() == gate.emitted(),
            r.gate_latest() is None,
            r.value_latest() is None,
            !r.values_closed(),
            r.gate_input_closed() == gate.input_closed(),
    {
        let r = GatedStream {
            hidden: gate,
            pair: poll_both(Feed::new(), Feed::new()),
            default,
            emitted: Ghost(Seq::empty()),
        };
        proof {
            assert(r.values_fed() =~= Seq::<T::Model>::empty());
            assert(r.gate_fed() =~= Seq::<bool>::empty());
        }
        r
    }

    /// Deliver one hide-state change notification; after the hide-state
    /// feed has been closed the notification is dropped.
    pub fn notify_gate(&mut self, ev: ChangeEvent<bool>)
        requires
            old(self).inv(),
        ensures
            final(self).inv(),
            final(self).emitted() == old(self).emitted(),
            final(self).default_hidden() == old(self).default_hidden(),
            final(self).values_closed() == old(self).values_closed(),
            final(self).dead() == old(self).dead(),
            final(self).values_fed() == old(self).values_fed(),
            final(self).gate_fed() == old(self).gate_fed(),
            final(self).hidden_emitted() == old(self).hidden_emitted(),
    {
        self.hidden.notify(ev);
    }

    /// Close the hide-state feed: that side will drain and end the join.
    pub fn close_gate_input(&mut self)
        requires
            old(self).inv(),
        ensures
            final(self).inv(),
            final(self).emitted() == old(self).emitted(),
            final(self).default_hidden() == old(self).default_hidden(),
            final(self).values_closed() == old(self).values_closed(),
            final(self).dead() == old(self).dead(),
            final(self).values_fed() == old(self).values_fed(),
            final(self).gate_fed() == old(self).gate_fed(),
            final(self).hidden_emitted() == old(self).hidden_emitted(),
    {
        self.hidden.close_input();
    }

    /// Deliver one item of the underlying stream.
    pub fn offer_value(&mut self, v: T)
        requires
            old(self).inv(),
            !old(self).values_closed(),
        ensures
            final(self).inv(),
            final(self).emitted() == old(self).emitted(),
            final(self).default_hidden() == old(self).default_hidden(),
            !final(self).values_closed(),
            final(self).size() == old(self).size() + 1,
            final(self).dead() == old(self).dead(),
            final(self).values_fed() == old(self).values_fed().push(v.model()),
            final(self).gate_fed() == old(self).gate_fed(),
            final(self).hidden_emitted() == old(self).hidden_emitted(),
            final(self).queued_values() == old(self).queued_values().push(v.model()),
            final(self).queued_gate() == old(self).queued_gate(),
            final(self).gate_seed_pending() == old(self).gate_seed_pending(),
    {
        proof {
            self.pair.lemma_closed_heads();
            assert(self.pair.consumed2() + self.pair.queued2().push(v.model()) =~= (
            self.pair.consumed2() + self.pair.queued2()).push(v.model()));
        }
        self.pair.push_right(v);
    }

    /// The underlying stream ended: end that side of the join.
    pub fn close_values(&mut self)
        requires
            old(self).inv(),
        ensures
            final(self).inv(),
            final(self).emitted() == old(self).emitted(),
            final(self).default_hidden() == old(self).default_hidden(),
            final(self).values_closed(),
            final(self).size() == old(self).size(),
            old(self).dead() ==> final(self).dead(),
            final(self).values_fed() == old(self).values_fed(),
            final(self).gate_fed() == old(self).gate_fed(),
            final(self).hidden_emitted() == old(self).hidden_emitted(),
            final(self).queued_values() == old(self).queued_values(),
            final(self).queued_gate() == old(self).queued_gate(),
            final(self).gate_seed_pending() == old(self).gate_seed_pending(),
    {
        self.pair.close_right();
    }

    /// Poll: advance the hide-state feed into the join, then combine.
    ///
    /// Every emitted item is the latest underlying value projected
    /// through the latest hide state, with the default where that feed
    /// has delivered nothing.
    pub fn poll_next(&mut self) -> (r: PollNext<Option<T>>)
        requires
            old(self).inv(),
        ensures
            final(self).inv(),
            final(self).default_hidden() == old(self).default_hidden(),
            final(self).size() <= old(self).size(),
            final(self).values_closed() == old(self).values_closed(),
            old(self).dead() ==> r is Closed,
            old(self).hidden_emitted().is_prefix_of(final(self).hidden_emitted()),
            final(self).gate_fed() == (if final(self).hidden_emitted().len() == old(self).hidden_emitted().len() {
                old(self).gate_fed()
            } else {
                old(self).gate_fed().push(
                    gate_bool(final(self).hidden_emitted().last(), old(self).default_hidden()),
                )
            }),
            final(self).values_fed() == old(self).values_fed(),
            old(self).has_due() && !old(self).dead() ==> !(r is Pending),
            old(self).hidden_due() ==> final(self).hidden_fetched().len() > old(self).hidden_fetched().len() || final(self).hidden_emitted().len() > old(self).hidden_emitted().len(),
            match r {
                PollNext::Item(out) => {
                    &&& final(self).emitted() == old(self).emitted().push(out.model())
                    &&& out.model() == gated(
                        final(self).gate_latest(),
                        final(self).value_latest(),
                        final(self).default_hidden(),
                    )
                    &&& final(self).size() < old(self).size()
                },
                PollNext::Pending => {
                    &&& final(self).emitted() == old(self).emitted()
                    &&& !final(self).dead()
                    &&& final(self).gate_latest() == old(self).gate_latest()
                    &&& final(self).value_latest() == old(self).value_latest()
                },
                PollNext::Closed => final(self).emitted() == old(self).emitted()
                    && final(self).dead(),
            },
    {
        proof {
            self.pair.lemma_closed_heads();
        }
        match self.hidden.poll_next() {
            PollNext::Item(got) => {
                let ghost gf = self.gate_fed();
                let now_hidden = match got {
                    Ok(b) => b,
                    Err(_) => self.default,
                };
                self.pair.push_left(now_hidden);
                proof {
                    assert(self.gate_fed() =~= gf.push(now_hidden));
                }
            },
            PollNext::Closed => {
                self.pair.close_left();
            },
            PollNext::Pending => {},
        }
        let ghost gf = self.gate_fed();
        let ghost vf = self.values_fed();
        proof {
            self.pair.lemma_heads();
        }
        match self.pair.poll_next() {
            PollNext::Item(p) => {
                proof {
                    assert(self.gate_fed() =~= gf);
                    assert(self.values_fed() =~= vf);
                }
                let (h, v) = p;
                let hide_now = match h {
                    Some(b) => b,
                    None => self.default,
                };
                let out: Option<T> = if hide_now {
                    None
                } else {
                    v
                };
                self.emitted = Ghost(self.emitted@.push(out.model()));
                PollNext::Item(out)
            },
            PollNext::Pending => {
                proof {
                    assert(self.gate_fed() =~= gf);
                    assert(self.values_fed() =~= vf);
                }
                PollNext::Pending
            },
            PollNext::Closed => {
                proof {
                    assert(self.gate_fed() =~= gf);
                    assert(self.values_fed() =~= vf);
                }
                PollNext::Closed
            },
        }
    }
}

/// The visibility-gated end of the pipeline stack: the active-player
/// stream, gated by the hide state, and deduplicated once more.
pub struct HiddenActivePlayerInfoStream {
    info: ActivePlayerInfoStream,
    gate: GatedStream<InfoItem>,
    dedup: FilterNoChange<Option<InfoItem>>,
}

impl HiddenActivePlayerInfoStream {
    /// Models of the items emitted so far, oldest first.
    pub closed spec fn emitted(&self) -> Seq<Option<InfoItemModel>> {
        self.dedup.emitted()
    }

    /// Models of the items the masking stage has handed out so far.
    pub closed spec fn gate_emitted(&self) -> Seq<Option<InfoItemModel>> {
        self.gate.emitted()
    }

    /// The configured default hide state.
    pub closed spec fn default_hidden(&self) -> bool {
        self.gate.default_hidden()
    }

    /// The selection whose per-player pipeline is awaited, if any.
    pub closed spec fn requested(&self) -> Option<Seq<Seq<char>>> {
        self.info.requested()
    }

    /// Models of the selections consumed so far.
    pub closed spec fn selections(&self) -> Seq<Result<Seq<Seq<char>>, ErrorModel>> {
        self.info.selections()
    }

    /// Models of the selection fetch results resolved so far.
    pub closed spec fn fetched_selections(&self) -> Seq<Result<Seq<Seq<char>>, ErrorModel>> {
        self.info.fetched_selections()
    }

    /// Models of the items the switching stage handed to its own
    /// deduplicator so far.
    pub closed spec fn info_screened(&self) -> Seq<InfoItemModel> {
        self.info.screened()
    }

    /// Models of the underlying items the switching stage emitted so far.
    pub closed spec fn info_items(&self) -> Seq<InfoItemModel> {
        self.info.emitted()
    }

    /// Every underlying item that has entered the join, in order.
    pub closed spec fn values_fed(&self) -> Seq<InfoItemModel> {
        self.gate.values_fed()
    }

    /// Whether the join's next poll is guaranteed not to stay pending.
    pub closed spec fn join_due(&self) -> bool {
        self.gate.has_due()
    }

    /// Whether the switching stage's next poll is guaranteed to make
    /// progress.
    pub closed spec fn info_due(&self) -> bool {
        self.info.has_due()
    }

    /// Whether the join is dead: the hide-state feed or the underlying
    /// stream has been seen exhausted.
    pub closed spec fn dead(&self) -> bool {
        self.gate.dead()
    }

    /// Queued work; a measure for the composition loop.
    pub closed spec fn size(&self) -> nat {
        self.info.size() + self.gate.size() + self.dedup.size()
    }

    /// The invariant: the components keep theirs, the stage feed into
    /// the final deduplicator is drained and has consumed exactly the
    /// masking stage's emissions, the value side closes only once the
    /// underlying stream is exhausted, and the output closes only once
    /// the join is dead.
    pub closed spec fn inv(&self) -> bool {
        &&& self.info.inv()
        &&& self.gate.inv()
        &&& self.dedup.inv()
        &&& self.dedup.queued().len() == 0
        &&& self.dedup.consumed() == self.gate.emitted()
        &&& self.gate.values_fed() == self.info.emitted()
        &&& self.gate.values_closed() ==> self.info.exhausted()
        &&& self.dedup.input_closed() ==> self.gate.dead()
    }

    /// Everything this pipeline has emitted is the deduplication of what
    /// the masking stage delivered.
    pub proof fn lemma_emissions(&self)
        requires
            self.inv(),
        ensures
            self.emitted() == dedup(self.gate_emitted()),
    {
    }

    /// Deliver one hide-state change notification.
    pub fn notify_gate(&mut self, ev: ChangeEvent<bool>)
        requires
            old(self).inv(),
        ensures
            final(self).inv(),
            final(self).emitted() == old(self).emitted(),
            final(self).requested() == old(self).requested(),
    {
        self.gate.notify_gate(ev);
    }

    /// Close the hide-state feed.
    pub fn close_gate_input(&mut self)
        requires
            old(self).inv(),
        ensures
            final(self).inv(),
            final(self).emitted() == old(self).emitted(),
            final(self).requested() == old(self).requested(),
    {
        self.gate.close_gate_input();
    }

    /// Deliver one selection change notification.
    pub fn notify_selection(&mut self, ev: ChangeEvent<Vec<String>>)
        requires
            old(self).inv(),
        ensures
            final(self).inv(),
            final(self).emitted() == old(self).emitted(),
            final(self).requested() == old(self).requested(),
    {
        self.info.notify_selection(ev);
    }

    /// Close the selection feed.
    pub fn close_selection_input(&mut self)
        requires
            old(self).inv(),
        ensures
            final(self).inv(),
            final(self).emitted() == old(self).emitted(),
            final(self).requested() == old(self).requested(),
    {
        self.info.close_selection_input();
    }

    /// Forward one property change notification to the current player's
    /// pipeline.
    pub fn notify_property(&mut self, change: PropertyChange)
        requires
            old(self).inv(),
        ensures
            final(self).inv(),
            final(self).emitted() == old(self).emitted(),
            final(self).requested() == old(self).requested(),
    {
        self.info.notify_property(change);
    }

    /// Tear down the current player's subscriptions.
    pub fn close_player_inputs(&mut self)
        requires
            old(self).inv(),
        ensures
            final(self).inv(),
            final(self).emitted() == old(self).emitted(),
            final(self).requested() == old(self).requested(),
    {
        self.info.close_player_inputs();
    }

    /// Whether a per-player pipeline is currently awaited.
    pub fn has_requested(&self) -> (r: bool)
        ensures
            r == (self.requested() is Some),
    {
        self.info.has_requested()
    }

    /// The selection whose per-player pipeline is awaited, if any.
    pub fn requested_names(&self) -> (r: Option<&Vec<String>>)
        ensures
            match r {
                Some(v) => self.requested() == Some(v.model()),
                None => self.requested() is None,
            },
    {
        self.info.requested_names()
    }

    /// Hand over the per-player pipeline for the requested selection.
    pub fn attach(&mut self, stream: PlayerInfoStream)
        requires
            old(self).inv(),
            old(self).requested() is Some,
            stream.inv(),
        ensures
            final(self).inv(),
            final(self).emitted() == old(self).emitted(),
            final(self).requested() is None,
    {
        self.info.attach(stream);
    }

    /// Report that subscribing to the requested selection's player
    /// failed.
    pub fn attach_failed(&mut self, e: Error)
        requires
            old(self).inv(),
            old(self).requested() is Some,
        ensures
            final(self).inv(),
            final(self).emitted() == old(self).emitted(),
            final(self).requested() is None,
    {
        self.info.attach_failed(e);
    }

    /// Poll for the next gated item.
    pub fn poll_next(&mut self) -> (r: PollNext<Option<InfoItem>>)
        requires
            old(self).inv(),
        ensures
            final(self).inv(),
            final(self).default_hidden() == old(self).default_hidden(),
            old(self).dead() ==> r is Closed,
            final(self).emitted() == dedup(final(self).gate_emitted()),
            final(self).values_fed() == final(self).info_items(),
            old(self).gate_emitted().is_prefix_of(final(self).gate_emitted()),
            old(self).selections().is_prefix_of(final(self).selections()),
            old(self).fetched_selections().is_prefix_of(final(self).fetched_selections()),
            old(self).info_screened().is_prefix_of(final(self).info_screened()),
            old(self).join_due() && !old(self).dead() ==> final(self).gate_emitted().len()
                > old(self).gate_emitted().len() || r is Closed,
            old(self).info_due() ==> final(self).selections().len() > old(self).selections().len()
                || final(self).fetched_selections().len() > old(self).fetched_selections().len()
                || final(self).info_screened().len() > old(self).info_screened().len(),
            match r {
                PollNext::Item(v) => {
                    &&& final(self).emitted() == old(self).emitted().push(v.model())
                    &&& old(self).emitted().len() > 0 ==> v.model() != old(self).emitted().last()
                    &&& final(self).gate_emitted().len() > 0
                    &&& v.model() == final(self).gate_emitted().last()
                },
                PollNext::Pending => final(self).emitted() == old(self).emitted()
                    && !final(self).dead(),
                PollNext::Closed => final(self).emitted() == old(self).emitted()
                    && final(self).dead(),
            },
    {
        loop
            invariant
                self.inv(),
                self.emitted() == old(self).emitted(),
                self.default_hidden() == old(self).default_hidden(),
                self.emitted() == dedup(self.gate_emitted()),
                old(self).gate_emitted().is_prefix_of(self.gate_emitted()),
                old(self).selections().is_prefix_of(self.selections()),
                old(self).fetched_selections().is_prefix_of(self.fetched_selections()),
                old(self).info_screened().is_prefix_of(self.info_screened()),
                self.gate_emitted().len() == old(self).gate_emitted().len() ==> self == old(self),
                old(self).dead() ==> self == old(self),
                old(self).info_due() ==> self.selections().len() > old(self).selections().len()
                    || self.fetched_selections().len() > old(self).fetched_selections().len()
                    || self.info_screened().len() > old(self).info_screened().len()
                    || self == old(self),
            decreases self.size(),
        {
            match self.info.poll_next() {
                PollNext::Item(v) => {
                    proof {
                        assert(old(self).selections().is_prefix_of(self.selections())) by {
                            assert(self.selections().subrange(
                                0,
                                old(self).selections().len() as int,
                            ) =~= old(self).selections());
                        }
                        assert(old(self).fetched_selections().is_prefix_of(
                            self.fetched_selections(),
                        )) by {
                            assert(self.fetched_selections().subrange(
                                0,
                                old(self).fetched_selections().len() as int,
                            ) =~= old(self).fetched_selections());
                        }
                        assert(old(self).info_screened().is_prefix_of(self.info_screened())) by {
                            assert(self.info_screened().subrange(
                                0,
                                old(self).info_screened().len() as int,
                            ) =~= old(self).info_screened());
                        }
                    }
                    self.gate.offer_value(v);
                },
                PollNext::Closed => {
                    self.gate.close_values();
                },
                PollNext::Pending => {
                    proof {
                        assert(old(self).selections().is_prefix_of(self.selections())) by {
                            assert(self.selections().subrange(
                                0,
                                old(self).selections().len() as int,
                            ) =~= old(self).selections());
                        }
                        assert(old(self).fetched_selections().is_prefix_of(
                            self.fetched_selections(),
                        )) by {
                            assert(self.fetched_selections().subrange(
                                0,
                                old(self).fetched_selections().len() as int,
                            ) =~= old(self).fetched_selections());
                        }
                        assert(old(self).info_screened().is_prefix_of(self.info_screened())) by {
                            assert(self.info_screened().subrange(
                                0,
                                old(self).info_screened().len() as int,
                            ) =~= old(self).info_screened());
                        }
                    }
                },
            }
            match self.gate.poll_next() {
                PollNext::Item(g) => {
                    let ghost m = g.model();
                    let ghost fed = self.dedup.consumed();
                    self.dedup.offer(g);
                    proof {
                        assert(self.dedup.queued() =~= seq![m]);
                        assert(old(self).gate_emitted().is_prefix_of(self.gate_emitted())) by {
                            assert(self.gate_emitted().subrange(
                                0,
                                old(self).gate_emitted().len() as int,
                            ) =~= old(self).gate_emitted());
                        }
                    }
                    match self.dedup.poll_next() {
                        PollNext::Item(v) => {
                            proof {
                                assert(self.dedup.consumed() =~= self.dedup.consumed()
                                    + self.dedup.queued());
                                assert(self.dedup.consumed() =~= fed.push(m));
                            }
                            return PollNext::Item(v);
                        },
                        PollNext::Pending => {
                            proof {
                                assert(self.dedup.consumed() =~= self.dedup.consumed()
                                    + self.dedup.queued());
                                assert(self.dedup.consumed() =~= fed.push(m));
                            }
                        },
                        PollNext::Closed => {
                            proof {
                                assert(false);
                            }
                            return PollNext::Closed;
                        },
                    }
                },
                PollNext::Pending => {
                    return PollNext::Pending;
                },
                PollNext::Closed => {
                    self.dedup.close_input();
                    return self.dedup.poll_next();
                },
            }
        }
    }
}

/// Build the masked end of the pipeline stack: the hide-state feed drives
/// the masking, the active-player stream feeds the values, and the result
/// is deduplicated.
pub fn hidden_active_player_info(
    gate_initial: Result<bool, Error>,
    gate_changes: Feed<ChangeEvent<bool>>,
    info: ActivePlayerInfoStream,
    default: bool,
) -> (r: HiddenActivePlayerInfoStream)
    requires
        gate_changes.consumed().len() == 0,
        info.inv(),
        !info.exhausted(),
        info.emitted().len() == 0,
    ensures
        r.inv(),
        r.emitted().len() == 0,
        r.gate_emitted().len() == 0,
        r.default_hidden() == default,
        r.requested() == info.requested(),
{
    let r = HiddenActivePlayerInfoStream {
        info,
        gate: GatedStream::new(hidden(gate_initial, gate_changes), default),
        dedup: FilterNoChange::new(Feed::new()),
    };
    proof {
        assert(r.gate.values_fed() =~= r.info.emitted());
    }
    r
}

} // verus!
