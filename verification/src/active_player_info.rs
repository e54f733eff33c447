//! The active-player pipeline: follow whichever player is selected.
//!
//! The selection pipeline drives a switching combinator: each new
//! selection replaces the per-player snapshot pipeline that feeds the
//! output, abandoning the old player's stream without draining it. An
//! empty selection yields a single absent item; a failed selection yields
//! a single error item. Subscribing to a newly selected player is
//! asynchronous work, so the machine records the request and the
//! subscription layer attaches the new per-player pipeline; the previous
//! player's stream keeps playing until the attachment happens.

use std::mem;
use vstd::prelude::*;

use crate::active_player::ActivePlayersStream;
use crate::error::Error;
use crate::error::ErrorModel;
use crate::feed::Feed;
use crate::feed::PollNext;
use crate::item::Modeled;
use crate::item::StreamItem;
use crate::player_info::PlayerInfo;
use crate::player_info::PlayerInfoModel;
use crate::player_info::PlayerInfoStream;
use crate::player_info::PropertyChange;
use crate::property::ChangeEvent;
use crate::util::FilterNoChange;
use crate::util::dedup;

verus! {

/// One item of the active-player pipeline: absent while no player is
/// active, otherwise the sibling list together with the snapshot, or a
/// failure.
pub type InfoItem = Option<Result<(Vec<String>, PlayerInfo), Error>>;

/// The model of an [`InfoItem`].
pub type InfoItemModel = Option<Result<(Seq<Seq<char>>, PlayerInfoModel), ErrorModel>>;

/// The stream currently feeding the output.
enum InnerInfo {
    /// No current stream.
    Idle,
    /// A stream of exactly one item: the empty-selection or failed-
    /// selection notice.
    Once(InfoItem),
    /// The live pipeline of the selected player, with the selection it
    /// belongs to.
    Live { names: Vec<String>, stream: PlayerInfoStream },
}

/// The switching pipeline: the newest selection's per-player stream feeds
/// the deduplicated output.
pub struct ActivePlayerInfoStream {
    players: ActivePlayersStream,
    requested: Option<Vec<String>>,
    inner: InnerInfo,
    outer_done: bool,
    dedup: FilterNoChange<InfoItem>,
}

impl ActivePlayerInfoStream {
    /// Models of the items emitted so far, oldest first.
    pub closed spec fn emitted(&self) -> Seq<InfoItemModel> {
        self.dedup.emitted()
    }

    /// Models of the selections consumed so far.
    pub closed spec fn selections(&self) -> Seq<Result<Seq<Seq<char>>, ErrorModel>> {
        self.players.emitted()
    }

    /// The selection whose per-player pipeline is awaited, if any.
    pub closed spec fn requested(&self) -> Option<Seq<Seq<char>>> {
        match self.requested {
            Some(ref names) => Some(names.model()),
            None => None,
        }
    }

    /// Whether the selection stream has been seen exhausted.
    pub closed spec fn selections_finished(&self) -> bool {
        self.outer_done
    }

    /// Whether a per-player stream currently feeds the output.
    pub closed spec fn has_inner(&self) -> bool {
        !(self.inner is Idle)
    }

    /// Models of the items handed to the deduplication stage so far.
    pub closed spec fn screened(&self) -> Seq<InfoItemModel> {
        self.dedup.consumed()
    }

    /// Models of the selection fetch results resolved so far.
    pub closed spec fn fetched_selections(&self) -> Seq<Result<Seq<Seq<char>>, ErrorModel>> {
        self.players.fetched()
    }

    /// The model of the one-item notice waiting to be screened, if the
    /// current inner stream is such a notice.
    pub closed spec fn pending_notice(&self) -> Option<InfoItemModel> {
        match self.inner {
            InnerInfo::Once(ref item) => Some(item.model()),
            _ => None,
        }
    }

    /// The selection the current live player stream belongs to, if any.
    pub closed spec fn live_names(&self) -> Option<Seq<Seq<char>>> {
        match self.inner {
            InnerInfo::Live { ref names, .. } => Some(names.model()),
            _ => None,
        }
    }

    /// Models of the items the current live player stream has emitted, if
    /// one is attached.
    pub closed spec fn live_items(&self) -> Option<Seq<Result<PlayerInfoModel, ErrorModel>>> {
        match self.inner {
            InnerInfo::Live { ref stream, .. } => Some(stream.emitted()),
            _ => None,
        }
    }

    /// Whether the selection pipeline's next poll is guaranteed to make
    /// progress.
    pub closed spec fn selection_due(&self) -> bool {
        self.players.has_due()
    }

    /// Whether the next poll is guaranteed to make progress: a selection
    /// is owed, or a one-item notice waits to be screened.
    pub open spec fn has_due(&self) -> bool {
        self.selection_due() || self.pending_notice() is Some
    }

    /// Measure of the current inner stream.
    spec fn inner_measure(&self) -> nat {
        match self.inner {
            InnerInfo::Idle => 0,
            InnerInfo::Once(_) => 1,
            InnerInfo::Live { stream, .. } => stream.size() + 1,
        }
    }

    /// A measure for the composition loop.
    pub closed spec fn size(&self) -> nat {
        self.players.size() + self.inner_measure() + self.dedup.size() + (if self.outer_done {
            0nat
        } else {
            1nat
        })
    }

    /// The pipeline's invariant: the components keep theirs, the stage
    /// feed into the deduplicator is drained, the output closes only once
    /// the selections are exhausted and nothing feeds it, and an exhausted
    /// selection stream stays exhausted.
    pub closed spec fn inv(&self) -> bool {
        &&& self.players.inv()
        &&& self.dedup.inv()
        &&& self.dedup.queued().len() == 0
        &&& self.outer_done ==> self.players.adapter_finished() && !self.players.seed_pending()
        &&& self.dedup.input_closed() ==> self.outer_done && self.inner is Idle
            && self.requested is None
        &&& match self.inner {
            InnerInfo::Live { ref stream, .. } => stream.inv(),
            InnerInfo::Once(ref item) => !(item.model() matches Some(Ok(_))),
            InnerInfo::Idle => true,
        }
    }

    /// Build the switching pipeline on a selection stream.
    pub fn new(players: ActivePlayersStream) -> (r: ActivePlayerInfoStream)
        requires
            players.inv(),
        ensures
            r.inv(),
            r.emitted().len() == 0,
            r.selections() == players.emitted(),
            r.requested() is None,
            !r.has_inner(),
    {
        ActivePlayerInfoStream {
            players,
            requested: None,
            inner: InnerInfo::Idle,
            outer_done: false,
            dedup: FilterNoChange::new(Feed::new()),
        }
    }

    /// Hand over the per-player pipeline for the requested selection.
    /// The previous stream, if any, is abandoned at once.
    pub fn attach(&mut self, stream: PlayerInfoStream)
        requires
            old(self).inv(),
            old(self).requested() is Some,
            stream.inv(),
        ensures
            final(self).inv(),
            final(self).emitted() == old(self).emitted(),
            final(self).requested() is None,
            final(self).has_inner(),
            final(self).live_names() == old(self).requested(),
            final(self).screened() == old(self).screened(),
            final(self).selections() == old(self).selections(),
    {
        let mut taken: Option<Vec<String>> = None;
        mem::swap(&mut taken, &mut self.requested);
        match taken {
            Some(names) => {
                self.inner = InnerInfo::Live { names, stream };
            },
            None => {
                proof {
                    assert(false);
                }
            },
        }
    }

    /// Whether the pipeline is exhausted: the selection stream ended, no
    /// inner stream remains, and nothing is awaited.
    pub open spec fn exhausted(&self) -> bool {
        self.selections_finished() && !self.has_inner() && self.requested() is None
    }

    /// Whether a per-player pipeline is currently awaited.
    pub fn has_requested(&self) -> (r: bool)
        ensures
            r == (self.requested() is Some),
    {
        match self.requested {
            Some(_) => true,
            None => false,
        }
    }

    /// The selection whose per-player pipeline is awaited, if any.
    pub fn requested_names(&self) -> (r: Option<&Vec<String>>)
        ensures
            match r {
                Some(v) => self.requested() == Some(v.model()),
                None => self.requested() is None,
            },
    {
        match self.requested {
            Some(ref names) => Some(names),
            None => None,
        }
    }

    /// Deliver one selection change notification; after the selection
    /// feed has been closed the notification is dropped.
    pub fn notify_selection(&mut self, ev: ChangeEvent<Vec<String>>)
        requires
            old(self).inv(),
        ensures
            final(self).inv(),
            final(self).emitted() == old(self).emitted(),
            final(self).requested() == old(self).requested(),
            final(self).selections() == old(self).selections(),
            final(self).selections_finished() == old(self).selections_finished(),
            final(self).has_inner() == old(self).has_inner(),
    {
        self.players.notify(ev);
    }

    /// Close the selection feed: no further selection will arrive.
    pub fn close_selection_input(&mut self)
        requires
            old(self).inv(),
        ensures
            final(self).inv(),
            final(self).emitted() == old(self).emitted(),
            final(self).requested() == old(self).requested(),
            final(self).selections() == old(self).selections(),
            final(self).selections_finished() == old(self).selections_finished(),
            final(self).has_inner() == old(self).has_inner(),
    {
        self.players.close_input();
    }

    /// Forward one property change notification to the current player's
    /// pipeline; without a live player it is dropped.
    pub fn notify_property(&mut self, change: PropertyChange)
        requires
            old(self).inv(),
        ensures
            final(self).inv(),
            final(self).emitted() == old(self).emitted(),
            final(self).requested() == old(self).requested(),
            final(self).selections_finished() == old(self).selections_finished(),
            final(self).has_inner() == old(self).has_inner(),
    {
        let mut cur = InnerInfo::Idle;
        mem::swap(&mut cur, &mut self.inner);
        match cur {
            InnerInfo::Live { names, stream } => {
                let mut stream = stream;
                stream.notify_property(change);
                self.inner = InnerInfo::Live { names, stream };
            },
            other => {
                self.inner = other;
            },
        }
    }

    /// Tear down the current player's subscriptions: its pipeline drains
    /// what is queued and exhausts itself.
    pub fn close_player_inputs(&mut self)
        requires
            old(self).inv(),
        ensures
            final(self).inv(),
            final(self).emitted() == old(self).emitted(),
            final(self).requested() == old(self).requested(),
            final(self).selections_finished() == old(self).selections_finished(),
            final(self).has_inner() == old(self).has_inner(),
    {
        let mut cur = InnerInfo::Idle;
        mem::swap(&mut cur, &mut self.inner);
        match cur {
            InnerInfo::Live { names, stream } => {
                let mut stream = stream;
                stream.close_inputs();
                self.inner = InnerInfo::Live { names, stream };
            },
            other => {
                self.inner = other;
            },
        }
    }

    /// Report that subscribing to the requested selection's player
    /// failed: a single error item takes the place of its stream. The
    /// previous stream, if any, is abandoned at once.
    pub fn attach_failed(&mut self, e: Error)
        requires
            old(self).inv(),
            old(self).requested() is Some,
        ensures
            final(self).inv(),
            final(self).emitted() == old(self).emitted(),
            final(self).requested() is None,
            final(self).has_inner(),
            final(self).pending_notice() == Some(Some(Err::<
                (Seq<Seq<char>>, PlayerInfoModel),
                ErrorModel,
            >(e.model()))),
            final(self).screened() == old(self).screened(),
            final(self).selections() == old(self).selections(),
    {
        self.requested = None;
        self.inner = InnerInfo::Once(Some(Err(e)));
    }

    /// Poll the pipeline for the next item.
    ///
    /// The selection stream is checked first: a new selection replaces
    /// the current inner stream (an empty or failed selection by a
    /// one-item stream, a non-empty one by a request for attachment).
    /// Then the current inner stream is polled, its items deduplicated;
    /// an exhausted inner stream is dropped and the step retried at once.
    #[verifier::rlimit(100)]
    pub fn poll_next(&mut self) -> (r: PollNext<InfoItem>)
        requires
            old(self).inv(),
        ensures
            final(self).inv(),
            final(self).size() <= old(self).size(),
            old(self).exhausted() ==> r is Closed,
            final(self).emitted() == dedup(final(self).screened()),
            old(self).screened().is_prefix_of(final(self).screened()),
            old(self).selections().is_prefix_of(final(self).selections()),
            old(self).fetched_selections().is_prefix_of(final(self).fetched_selections()),
            final(self).selections().len() == old(self).selections().len()
                ==> final(self).requested() == old(self).requested(),
            final(self).selections().len() > old(self).selections().len() ==> (match final(self).selections().last() {
                Ok(names) => (names.len() > 0 ==> final(self).requested() == Some(names))
                    && (names.len() == 0 ==> final(self).requested() is None),
                Err(_) => final(self).requested() is None,
            }),
            final(self).selections().len() == old(self).selections().len() + 1 ==> (match final(self).selections().last() {
                Ok(names) => names.len() == 0 ==> final(self).screened().len() > old(self).screened().len() && final(self).screened().last() is None
                    && !final(self).has_inner(),
                Err(e) => final(self).screened().len() > old(self).screened().len() && final(self).screened().last() == Some(Err::<(Seq<Seq<char>>, PlayerInfoModel), ErrorModel>(e))
                    && !final(self).has_inner(),
            }),
            old(self).pending_notice() matches Some(m) ==> (final(self).selections().len()
                == old(self).selections().len() ==> final(self).screened().len() > old(self).screened().len() && final(self).screened()[old(self).screened().len() as int] == m),
            old(self).has_due() ==> final(self).selections().len() > old(self).selections().len()
                || final(self).fetched_selections().len() > old(self).fetched_selections().len()
                || final(self).screened().len() > old(self).screened().len(),
            match r {
                PollNext::Item(v) => {
                    &&& final(self).emitted() == old(self).emitted().push(v.model())
                    &&& old(self).emitted().len() > 0 ==> v.model() != old(self).emitted().last()
                    &&& final(self).size() < old(self).size()
                    &&& final(self).screened().len() > 0
                    &&& v.model() == final(self).screened().last()
                    &&& (v.model() matches Some(Ok(p)) ==> final(self).live_names() == Some(p.0)
                        && (final(self).live_items() matches Some(items) && items.len() > 0
                        && items.last() == Ok::<PlayerInfoModel, ErrorModel>(p.1)))
                },
                PollNext::Pending => final(self).emitted() == old(self).emitted()
                    && !final(self).exhausted(),
                PollNext::Closed => {
                    &&& final(self).emitted() == old(self).emitted()
                    &&& final(self).exhausted()
                },
            },
    {
        loop
            invariant
                self.inv(),
                self.emitted() == old(self).emitted(),
                self.size() <= old(self).size(),
                old(self).exhausted() ==> self.exhausted(),
                self.emitted() == dedup(self.screened()),
                old(self).screened().is_prefix_of(self.screened()),
                old(self).selections().is_prefix_of(self.selections()),
                old(self).fetched_selections().is_prefix_of(self.fetched_selections()),
                self.selections().len() == old(self).selections().len()
                    ==> self.requested() == old(self).requested(),
                self.selections().len() > old(self).selections().len() ==> (match self
                    .selections().last() {
                    Ok(names) => (names.len() > 0 ==> self.requested() == Some(names))
                        && (names.len() == 0 ==> self.requested() is None),
                    Err(_) => self.requested() is None,
                }),
                self.selections().len() == old(self).selections().len() + 1 ==> (match self
                    .selections().last() {
                    Ok(names) => names.len() == 0 ==> self.screened().len() > old(self).screened().len() && self.screened().last() is None
                        && !self.has_inner(),
                    Err(e) => self.screened().len() > old(self).screened().len()
                        && self.screened().last() == Some(Err::<
                        (Seq<Seq<char>>, PlayerInfoModel),
                        ErrorModel,
                    >(e)) && !self.has_inner(),
                }),
                old(self).pending_notice() matches Some(m) ==> (self.selections().len() == old(self).selections().len() ==> ((self.screened().len() > old(self).screened().len()
                    && self.screened()[old(self).screened().len() as int] == m) || self == old(self))),
                old(self).has_due() ==> self.selections().len() > old(self).selections().len()
                    || self.fetched_selections().len() > old(self).fetched_selections().len()
                    || self.screened().len() > old(self).screened().len() || self == old(self),
                self.pending_notice() is Some ==> self == old(self),
            decreases self.size(),
        {
            proof {
                self.players.lemma_finished_not_due();
                old(self).players.lemma_finished_not_due();
            }
            if !self.outer_done {
                let ghost sel_before = self.selections();
                let ghost fetched_before = self.fetched_selections();
                match self.players.poll_next() {
                    PollNext::Item(selection) => {
                        proof {
                            assert(old(self).selections().is_prefix_of(self.selections())) by {
                                assert(self.selections().subrange(
                                    0,
                                    old(self).selections().len() as int,
                                ) =~= old(self).selections());
                            }
                            assert(old(self).fetched_selections().is_prefix_of(
                                self.fetched_selections(),
                            )) by {
                                assert(self.fetched_selections().subrange(
                                    0,
                                    old(self).fetched_selections().len() as int,
                                ) =~= old(self).fetched_selections());
                            }
                        }
                        match selection {
                            Ok(names) => {
                                if names.len() == 0 {
                                    self.requested = None;
                                    self.inner = InnerInfo::Once(None);
                                } else {
                                    self.requested = Some(names);
                                }
                            },
                            Err(e) => {
                                self.requested = None;
                                self.inner = InnerInfo::Once(Some(Err(e)));
                            },
                        }
                    },
                    PollNext::Closed => {
                        self.outer_done = true;
                    },
                    PollNext::Pending => {
                        proof {
                            assert(old(self).fetched_selections().is_prefix_of(
                                self.fetched_selections(),
                            )) by {
                                assert(self.fetched_selections().subrange(
                                    0,
                                    old(self).fetched_selections().len() as int,
                                ) =~= old(self).fetched_selections());
                            }
                        }
                    },
                }
            }
            let mut cur = InnerInfo::Idle;
            mem::swap(&mut cur, &mut self.inner);
            let item: InfoItem;
            match cur {
                InnerInfo::Idle => {
                    if self.outer_done && matches!(self.requested, None) {
                        self.dedup.close_input();
                        return self.dedup.poll_next();
                    }
                    return PollNext::Pending;
                },
                InnerInfo::Once(one) => {
                    item = one;
                },
                InnerInfo::Live { names, stream } => {
                    let mut stream = stream;
                    match stream.poll_next() {
                        PollNext::Item(got) => {
                            item = Some(
                                match got {
                                    Ok(info) => Ok((names.dup(), info)),
                                    Err(e) => Err(e),
                                },
                            );
                            self.inner = InnerInfo::Live { names, stream };
                        },
                        PollNext::Pending => {
                            self.inner = InnerInfo::Live { names, stream };
                            return PollNext::Pending;
                        },
                        PollNext::Closed => {
                            continue;
                        },
                    }
                },
            }
            let ghost m = item.model();
            let ghost fed = self.dedup.consumed();
            self.dedup.offer(item);
            proof {
                assert(self.dedup.queued() =~= seq![m]);
            }
            match self.dedup.poll_next() {
                PollNext::Item(v) => {
                    proof {
                        assert(self.dedup.consumed() =~= self.dedup.consumed()
                            + self.dedup.queued());
                        assert(self.screened() =~= fed.push(m));
                        assert(old(self).screened().is_prefix_of(self.screened())) by {
                            assert(self.screened().subrange(
                                0,
                                old(self).screened().len() as int,
                            ) =~= old(self).screened());
                        }
                    }
                    return PollNext::Item(v);
                },
                PollNext::Pending => {
                    proof {
                        assert(self.dedup.consumed() =~= self.dedup.consumed()
                            + self.dedup.queued());
                        assert(self.screened() =~= fed.push(m));
                        assert(old(self).screened().is_prefix_of(self.screened())) by {
                            assert(self.screened().subrange(
                                0,
                                old(self).screened().len() as int,
                            ) =~= old(self).screened());
                        }
                        crate::util::lemma_dedup_last(self.dedup.consumed());
                    }
                },
                PollNext::Closed => {
                    proof {
                        assert(false);
                    }
                    return PollNext::Closed;
                },
            }
        }
    }
}

/// Build the switching pipeline on a selection stream: each selection's
/// player feeds the deduplicated output until the next selection arrives.
pub fn active_player_info(players: ActivePlayersStream) -> (r: ActivePlayerInfoStream)
    requires
        players.inv(),
    ensures
        r.inv(),
        r.emitted().len() == 0,
        r.selections() == players.emitted(),
        r.requested() is None,
        !r.has_inner(),
{
    ActivePlayerInfoStream::new(players)
}
} // verus!
