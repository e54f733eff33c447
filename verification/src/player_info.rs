//! The running snapshot of one player and the fold-aggregator.
//!
//! A snapshot holds the latest known value of each tracked property. The
//! fold-aggregator consumes a stream of tagged update events, applies each
//! successful event to exactly the one field it names, and emits a fresh
//! snapshot per event; a propagated failure is emitted as a standalone
//! error item and never touches the running snapshot.

use vstd::prelude::*;

use crate::error::Error;
use crate::error::ErrorModel;
use crate::feed::Feed;
use crate::feed::PollNext;
use crate::item::Modeled;
use crate::item::StreamItem;
use crate::property::ChangeEvent;
use crate::property::PropertyS;
use crate::property::property_stream;
use crate::proxies::LoopStatus;
use crate::proxies::PlaybackStatus;
use crate::util::FilterNoChange;
use crate::util::dedup;

verus! {

/// A metadata value. Only textual values are interpreted by consumers;
/// everything else is carried opaquely.
#[derive(Debug)]
pub enum MetaValue {
    /// A textual value, such as a title or an artist.
    Text(String),
    /// A value of any other shape.
    Other,
}

/// The mathematical model of a [`MetaValue`].
pub enum MetaValueModel {
    /// A textual value.
    Text(Seq<char>),
    /// A value of any other shape.
    Other,
}

impl Modeled for MetaValue {
    type Model = MetaValueModel;

    open spec fn model(&self) -> MetaValueModel {
        match self {
            MetaValue::Text(s) => MetaValueModel::Text(s@),
            MetaValue::Other => MetaValueModel::Other,
        }
    }
}

impl StreamItem for MetaValue {
    fn dup(&self) -> (r: MetaValue)
        ensures
            r.model() == self.model(),
    {
        match self {
            MetaValue::Text(s) => MetaValue::Text(s.clone()),
            MetaValue::Other => MetaValue::Other,
        }
    }

    fn same(&self, other: &MetaValue) -> (r: bool)
        ensures
            r == (self.model() == other.model()),
    {
        match (self, other) {
            (MetaValue::Text(a), MetaValue::Text(b)) => a.eq(b),
            (MetaValue::Other, MetaValue::Other) => true,
            _ => false,
        }
    }
}

/// A metadata map, as a list of key-value entries.
pub type Metadata = Vec<(String, MetaValue)>;

/// The mathematical model of a metadata map.
pub type MetadataModel = Seq<(Seq<char>, MetaValueModel)>;

/// The immutable aggregate of the latest known value of each tracked
/// property of one player.
#[derive(Debug)]
pub struct PlayerInfo {
    /// Whether the player is playing, paused or stopped.
    pub playback_status: PlaybackStatus,
    /// The loop mode, absent while the property is unsupported or not yet
    /// seen.
    pub loop_status: Option<LoopStatus>,
    /// The shuffle flag, absent while the property is unsupported or not
    /// yet seen.
    pub shuffle: Option<bool>,
    /// The metadata of the current track.
    pub metadata: Metadata,
    /// Whether the player can skip forward.
    pub can_go_next: bool,
    /// Whether the player can skip backward.
    pub can_go_previous: bool,
    /// Whether the player can start playing.
    pub can_play: bool,
    /// Whether the player can pause.
    pub can_pause: bool,
}

/// The mathematical model of a [`PlayerInfo`].
pub struct PlayerInfoModel {
    /// Whether the player is playing, paused or stopped.
    pub playback_status: PlaybackStatus,
    /// The loop mode, if known.
    pub loop_status: Option<LoopStatus>,
    /// The shuffle flag, if known.
    pub shuffle: Option<bool>,
    /// The metadata entries.
    pub metadata: MetadataModel,
    /// Whether the player can skip forward.
    pub can_go_next: bool,
    /// Whether the player can skip backward.
    pub can_go_previous: bool,
    /// Whether the player can start playing.
    pub can_play: bool,
    /// Whether the player can pause.
    pub can_pause: bool,
}

impl Modeled for PlayerInfo {
    type Model = PlayerInfoModel;

    open spec fn model(&self) -> PlayerInfoModel {
        PlayerInfoModel {
            playback_status: self.playback_status,
            loop_status: self.loop_status,
            shuffle: self.shuffle,
            metadata: self.metadata.model(),
            can_go_next: self.can_go_next,
            can_go_previous: self.can_go_previous,
            can_play: self.can_play,
            can_pause: self.can_pause,
        }
    }
}

impl StreamItem for PlayerInfo {
    fn dup(&self) -> (r: PlayerInfo)
        ensures
            r.model() == self.model(),
    {
        PlayerInfo {
            playback_status: self.playback_status,
            loop_status: self.loop_status,
            shuffle: self.shuffle,
            metadata: self.metadata.dup(),
            can_go_next: self.can_go_next,
            can_go_previous: self.can_go_previous,
            can_play: self.can_play,
            can_pause: self.can_pause,
        }
    }

    fn same(&self, other: &PlayerInfo) -> (r: bool)
        ensures
            r == (self.model() == other.model()),
    {
        let playback_same = match (self.playback_status, other.playback_status) {
            (PlaybackStatus::Playing, PlaybackStatus::Playing) => true,
            (PlaybackStatus::Paused, PlaybackStatus::Paused) => true,
            (PlaybackStatus::Stopped, PlaybackStatus::Stopped) => true,
            _ => false,
        };
        let loop_same = match (self.loop_status, other.loop_status) {
            (Some(a), Some(b)) => a == b,
            (None, None) => true,
            _ => false,
        };
        let shuffle_same = match (self.shuffle, other.shuffle) {
            (Some(a), Some(b)) => a == b,
            (None, None) => true,
            _ => false,
        };
        playback_same && loop_same && shuffle_same && self.metadata.same(&other.metadata)
            && self.can_go_next == other.can_go_next && self.can_go_previous
            == other.can_go_previous && self.can_play == other.can_play && self.can_pause
            == other.can_pause
    }
}

/// One tagged update event: which property changed, and its new value.
/// `Nothing` forces an emission of the current snapshot unchanged; it is
/// used once, at stream start, to deliver the pre-fetched initial state.
#[derive(Debug)]
pub enum PlayerInfoUpdate {
    /// The playback status changed.
    PlaybackStatus(PlaybackStatus),
    /// The loop mode changed.
    LoopStatus(LoopStatus),
    /// The shuffle flag changed.
    Shuffle(bool),
    /// The metadata changed.
    Metadata(Metadata),
    /// The can-go-next capability changed.
    CanGoNext(bool),
    /// The can-go-previous capability changed.
    CanGoPrevious(bool),
    /// The can-play capability changed.
    CanPlay(bool),
    /// The can-pause capability changed.
    CanPause(bool),
    /// No property changed; emit the current snapshot.
    Nothing,
}

/// The mathematical model of a [`PlayerInfoUpdate`].
pub enum PlayerInfoUpdateModel {
    /// The playback status changed.
    PlaybackStatus(PlaybackStatus),
    /// The loop mode changed.
    LoopStatus(LoopStatus),
    /// The shuffle flag changed.
    Shuffle(bool),
    /// The metadata changed.
    Metadata(MetadataModel),
    /// The can-go-next capability changed.
    CanGoNext(bool),
    /// The can-go-previous capability changed.
    CanGoPrevious(bool),
    /// The can-play capability changed.
    CanPlay(bool),
    /// The can-pause capability changed.
    CanPause(bool),
    /// No property changed.
    Nothing,
}

impl Modeled for PlayerInfoUpdate {
    type Model = PlayerInfoUpdateModel;

    open spec fn model(&self) -> PlayerInfoUpdateModel {
        match self {
            PlayerInfoUpdate::PlaybackStatus(v) => PlayerInfoUpdateModel::PlaybackStatus(*v),
            PlayerInfoUpdate::LoopStatus(v) => PlayerInfoUpdateModel::LoopStatus(*v),
            PlayerInfoUpdate::Shuffle(v) => PlayerInfoUpdateModel::Shuffle(*v),
            PlayerInfoUpdate::Metadata(v) => PlayerInfoUpdateModel::Metadata(v.model()),
            PlayerInfoUpdate::CanGoNext(v) => PlayerInfoUpdateModel::CanGoNext(*v),
            PlayerInfoUpdate::CanGoPrevious(v) => PlayerInfoUpdateModel::CanGoPrevious(*v),
            PlayerInfoUpdate::CanPlay(v) => PlayerInfoUpdateModel::CanPlay(*v),
            PlayerInfoUpdate::CanPause(v) => PlayerInfoUpdateModel::CanPause(*v),
            PlayerInfoUpdate::Nothing => PlayerInfoUpdateModel::Nothing,
        }
    }
}

/// The snapshot after applying one update event: exactly the one field
/// the event names changes; `Nothing` changes nothing.
pub open spec fn apply_update_spec(m: PlayerInfoModel, u: PlayerInfoUpdateModel) -> PlayerInfoModel {
    match u {
        PlayerInfoUpdateModel::PlaybackStatus(v) => (PlayerInfoModel { playback_status: v, ..m }),
        PlayerInfoUpdateModel::LoopStatus(v) => (PlayerInfoModel { loop_status: Some(v), ..m }),
        PlayerInfoUpdateModel::Shuffle(v) => (PlayerInfoModel { shuffle: Some(v), ..m }),
        PlayerInfoUpdateModel::Metadata(v) => (PlayerInfoModel { metadata: v, ..m }),
        PlayerInfoUpdateModel::CanGoNext(v) => (PlayerInfoModel { can_go_next: v, ..m }),
        PlayerInfoUpdateModel::CanGoPrevious(v) => (PlayerInfoModel { can_go_previous: v, ..m }),
        PlayerInfoUpdateModel::CanPlay(v) => (PlayerInfoModel { can_play: v, ..m }),
        PlayerInfoUpdateModel::CanPause(v) => (PlayerInfoModel { can_pause: v, ..m }),
        PlayerInfoUpdateModel::Nothing => m,
    }
}

/// Whether `b` agrees with `a` on every field the update `u` does not
/// name.
pub open spec fn unchanged_except(
    a: PlayerInfoModel,
    b: PlayerInfoModel,
    u: PlayerInfoUpdateModel,
) -> bool {
    &&& (u !is PlaybackStatus ==> b.playback_status == a.playback_status)
    &&& (u !is LoopStatus ==> b.loop_status == a.loop_status)
    &&& (u !is Shuffle ==> b.shuffle == a.shuffle)
    &&& (u !is Metadata ==> b.metadata == a.metadata)
    &&& (u !is CanGoNext ==> b.can_go_next == a.can_go_next)
    &&& (u !is CanGoPrevious ==> b.can_go_previous == a.can_go_previous)
    &&& (u !is CanPlay ==> b.can_play == a.can_play)
    &&& (u !is CanPause ==> b.can_pause == a.can_pause)
}

/// Applying an update event changes at most the one field it names.
pub proof fn lemma_update_touches_one_field(m: PlayerInfoModel, u: PlayerInfoUpdateModel)
    ensures
        unchanged_except(m, apply_update_spec(m, u), u),
{
}

/// Apply one update event to the running snapshot.
pub fn apply_update(info: &mut PlayerInfo, update: PlayerInfoUpdate)
    ensures
        final(info).model() == apply_update_spec(old(info).model(), update.model()),
{
    match update {
        PlayerInfoUpdate::PlaybackStatus(v) => {
            info.playback_status = v;
        },
        PlayerInfoUpdate::LoopStatus(v) => {
            info.loop_status = Some(v);
        },
        PlayerInfoUpdate::Shuffle(v) => {
            info.shuffle = Some(v);
        },
        PlayerInfoUpdate::Metadata(v) => {
            info.metadata = v;
        },
        PlayerInfoUpdate::CanGoNext(v) => {
            info.can_go_next = v;
        },
        PlayerInfoUpdate::CanGoPrevious(v) => {
            info.can_go_previous = v;
        },
        PlayerInfoUpdate::CanPlay(v) => {
            info.can_play = v;
        },
        PlayerInfoUpdate::CanPause(v) => {
            info.can_pause = v;
        },
        PlayerInfoUpdate::Nothing => {},
    }
}

/// The snapshot after folding a sequence of update events over an initial
/// snapshot: failures leave the snapshot untouched.
pub open spec fn folded(
    init: PlayerInfoModel,
    events: Seq<Result<PlayerInfoUpdateModel, ErrorModel>>,
) -> PlayerInfoModel
    decreases events.len(),
{
    if events.len() == 0 {
        init
    } else {
        let prev = folded(init, events.drop_last());
        match events.last() {
            Ok(u) => apply_update_spec(prev, u),
            Err(_) => prev,
        }
    }
}

/// What the fold-aggregator emits for a sequence of update events: per
/// successful event the snapshot just after it, per failure the failure
/// itself.
pub open spec fn fold_emits(
    init: PlayerInfoModel,
    events: Seq<Result<PlayerInfoUpdateModel, ErrorModel>>,
) -> Seq<Result<PlayerInfoModel, ErrorModel>>
    decreases events.len(),
{
    if events.len() == 0 {
        Seq::empty()
    } else {
        fold_emits(init, events.drop_last()).push(
            match events.last() {
                Ok(_) => Ok(folded(init, events)),
                Err(e) => Err(e),
            },
        )
    }
}

/// The fold-aggregator emits exactly one item per event.
pub proof fn lemma_fold_emits_len(
    init: PlayerInfoModel,
    events: Seq<Result<PlayerInfoUpdateModel, ErrorModel>>,
)
    ensures
        fold_emits(init, events).len() == events.len(),
    decreases events.len(),
{
    if events.len() > 0 {
        lemma_fold_emits_len(init, events.drop_last());
    }
}

/// The fold-aggregator's guarantee, event by event: a successful event
/// yields the snapshot with exactly its one field updated, and a failure
/// is emitted as itself and leaves the running snapshot untouched.
pub proof fn lemma_fold_emissions(
    init: PlayerInfoModel,
    events: Seq<Result<PlayerInfoUpdateModel, ErrorModel>>,
    i: int,
)
    requires
        0 <= i < events.len(),
    ensures
        match events[i] {
            Ok(u) => {
                &&& fold_emits(init, events)[i] == Ok::<_, ErrorModel>(
                    apply_update_spec(folded(init, events.take(i)), u),
                )
                &&& folded(init, events.take(i + 1)) == apply_update_spec(
                    folded(init, events.take(i)),
                    u,
                )
                &&& unchanged_except(
                    folded(init, events.take(i)),
                    folded(init, events.take(i + 1)),
                    u,
                )
            },
            Err(e) => {
                &&& fold_emits(init, events)[i] == Err::<PlayerInfoModel, _>(e)
                &&& folded(init, events.take(i + 1)) == folded(init, events.take(i))
            },
        },
    decreases events.len(),
{
    lemma_fold_emits_len(init, events.drop_last());
    if i == events.len() - 1 {
        assert(events.take(i) =~= events.drop_last());
        assert(events.take(i + 1) =~= events);
        match events[i] {
            Ok(u) => {
                lemma_update_touches_one_field(folded(init, events.take(i)), u);
            },
            Err(_) => {},
        }
    } else {
        lemma_fold_emissions(init, events.drop_last(), i);
        assert(events.take(i) =~= events.drop_last().take(i));
        assert(events.take(i + 1) =~= events.drop_last().take(i + 1));
        assert(events.drop_last()[i] == events[i]);
    }
}

/// Whether no event of the sequence names the loop mode.
pub open spec fn no_loop_status_events(
    events: Seq<Result<PlayerInfoUpdateModel, ErrorModel>>,
) -> bool {
    forall|i: int|
        0 <= i < events.len() ==> !(#[trigger] events[i] matches Ok(
            PlayerInfoUpdateModel::LoopStatus(_),
        ))
}

/// Whether no event of the sequence names the shuffle flag.
pub open spec fn no_shuffle_events(
    events: Seq<Result<PlayerInfoUpdateModel, ErrorModel>>,
) -> bool {
    forall|i: int|
        0 <= i < events.len() ==> !(#[trigger] events[i] matches Ok(
            PlayerInfoUpdateModel::Shuffle(_),
        ))
}

/// A loop mode that starts absent stays absent under events that never
/// name it; likewise for the shuffle flag.
pub proof fn lemma_absent_fields_stay_absent(
    init: PlayerInfoModel,
    events: Seq<Result<PlayerInfoUpdateModel, ErrorModel>>,
)
    ensures
        init.loop_status is None && no_loop_status_events(events) ==> folded(
            init,
            events,
        ).loop_status is None,
        init.shuffle is None && no_shuffle_events(events) ==> folded(init, events).shuffle is None,
    decreases events.len(),
{
    if events.len() > 0 {
        lemma_absent_fields_stay_absent(init, events.drop_last());
        assert(events[events.len() - 1] == events.last());
    }
}

/// Every snapshot the fold emits for such events keeps the absent field
/// absent.
pub proof fn lemma_absent_fields_in_emissions(
    init: PlayerInfoModel,
    events: Seq<Result<PlayerInfoUpdateModel, ErrorModel>>,
    i: int,
)
    requires
        0 <= i < events.len(),
    ensures
        init.loop_status is None && no_loop_status_events(events) ==> (fold_emits(
            init,
            events,
        )[i] matches Ok(s) ==> s.loop_status is None),
        init.shuffle is None && no_shuffle_events(events) ==> (fold_emits(init, events)[i] matches
            Ok(s) ==> s.shuffle is None),
    decreases events.len(),
{
    lemma_fold_emits_len(init, events.drop_last());
    if i == events.len() - 1 {
        assert(events.take(i + 1) =~= events);
        lemma_absent_fields_stay_absent(init, events);
    } else {
        lemma_absent_fields_in_emissions(init, events.drop_last(), i);
        assert(forall|j: int|
            0 <= j < events.drop_last().len() ==> events.drop_last()[j] == events[j]);
    }
}

/// Folds update events into a running snapshot: the fold-aggregator.
///
/// Each successful event updates exactly the one field it names and a
/// fresh copy of the snapshot is emitted; each failure is emitted at once
/// as a standalone error item with the snapshot untouched; the sentinel
/// no-op event emits the current snapshot unchanged.
pub struct FoldMap {
    stream: Feed<Result<PlayerInfoUpdate, Error>>,
    info: PlayerInfo,
    init: Ghost<PlayerInfoModel>,
    emitted: Ghost<Seq<Result<PlayerInfoModel, ErrorModel>>>,
}

impl FoldMap {
    /// The model of the snapshot the fold started from.
    pub closed spec fn init(&self) -> PlayerInfoModel {
        self.init@
    }

    /// The model of the current running snapshot.
    pub closed spec fn snapshot(&self) -> PlayerInfoModel {
        self.info.model()
    }

    /// Models of the items emitted so far, oldest first.
    pub closed spec fn emitted(&self) -> Seq<Result<PlayerInfoModel, ErrorModel>> {
        self.emitted@
    }

    /// Models of the update events consumed so far.
    pub closed spec fn consumed(&self) -> Seq<Result<PlayerInfoUpdateModel, ErrorModel>> {
        self.stream.consumed()
    }

    /// What the next poll of the event feed will report.
    pub closed spec fn head(&self) -> PollNext<Result<PlayerInfoUpdateModel, ErrorModel>> {
        self.stream.head()
    }

    /// Models of the update events delivered but not yet consumed.
    pub closed spec fn queued(&self) -> Seq<Result<PlayerInfoUpdateModel, ErrorModel>> {
        self.stream.pending()
    }

    /// Whether the event feed is closed.
    pub closed spec fn input_closed(&self) -> bool {
        self.stream.is_closed()
    }

    /// Queued events; a measure for composition loops.
    pub open spec fn size(&self) -> nat {
        self.queued().len()
    }

    /// The aggregator's invariant: the running snapshot is the fold of
    /// the consumed events over the initial snapshot, and the emissions
    /// are exactly the fold's emissions.
    pub open spec fn inv(&self) -> bool {
        &&& self.snapshot() == folded(self.init(), self.consumed())
        &&& self.emitted() == fold_emits(self.init(), self.consumed())
    }

    /// Start folding over a fresh event feed, from an initial snapshot.
    pub fn new(info: PlayerInfo, stream: Feed<Result<PlayerInfoUpdate, Error>>) -> (r: FoldMap)
        requires
            stream.consumed().len() == 0,
        ensures
            r.inv(),
            r.init() == info.model(),
            r.snapshot() == info.model(),
            r.consumed() == stream.consumed(),
            r.emitted() == Seq::<Result<PlayerInfoModel, ErrorModel>>::empty(),
            r.queued() == stream.pending(),
            r.input_closed() == stream.is_closed(),
    {
        let ghost m = info.model();
        FoldMap { stream, info, init: Ghost(m), emitted: Ghost(Seq::empty()) }
    }

    /// Deliver one update event.
    pub fn offer(&mut self, ev: Result<PlayerInfoUpdate, Error>)
        requires
            !old(self).input_closed(),
        ensures
            !final(self).input_closed(),
            final(self).queued() == old(self).queued().push(ev.model()),
            final(self).consumed() == old(self).consumed(),
            final(self).emitted() == old(self).emitted(),
            final(self).snapshot() == old(self).snapshot(),
            final(self).init() == old(self).init(),
            final(self).size() == old(self).size() + 1,
            old(self).inv() ==> final(self).inv(),
    {
        self.stream.push(ev);
    }

    /// Close the event feed.
    pub fn close_input(&mut self)
        ensures
            final(self).input_closed(),
            final(self).queued() == old(self).queued(),
            final(self).consumed() == old(self).consumed(),
            final(self).emitted() == old(self).emitted(),
            final(self).snapshot() == old(self).snapshot(),
            final(self).init() == old(self).init(),
            final(self).size() == old(self).size(),
            old(self).inv() ==> final(self).inv(),
    {
        self.stream.close();
    }

    /// Poll: consume one update event and emit what it folds to.
    pub fn poll_next(&mut self) -> (r: PollNext<Result<PlayerInfo, Error>>)
        requires
            old(self).inv(),
        ensures
            final(self).inv(),
            final(self).init() == old(self).init(),
            final(self).input_closed() == old(self).input_closed(),
            final(self).size() <= old(self).size(),
            match old(self).head() {
                PollNext::Item(ev) => {
                    &&& final(self).consumed() == old(self).consumed().push(ev)
                    &&& final(self).size() < old(self).size()
                    &&& match ev {
                        Ok(u) => {
                            &&& r matches PollNext::Item(v) && v.model() == Ok::<_, ErrorModel>(
                                apply_update_spec(old(self).snapshot(), u),
                            )
                            &&& final(self).snapshot() == apply_update_spec(
                                old(self).snapshot(),
                                u,
                            )
                            &&& unchanged_except(old(self).snapshot(), final(self).snapshot(), u)
                        },
                        Err(e) => {
                            &&& r matches PollNext::Item(v) && v.model() == Err::<
                                PlayerInfoModel,
                                _,
                            >(e)
                            &&& final(self).snapshot() == old(self).snapshot()
                        },
                    }
                    &&& r matches PollNext::Item(v) && final(self).emitted() == old(self).emitted().push(v.model())
                },
                PollNext::Pending => {
                    &&& r is Pending
                    &&& final(self).emitted() == old(self).emitted()
                    &&& final(self).snapshot() == old(self).snapshot()
                    &&& final(self).consumed() == old(self).consumed()
                },
                PollNext::Closed => {
                    &&& r is Closed
                    &&& final(self).emitted() == old(self).emitted()
                    &&& final(self).snapshot() == old(self).snapshot()
                    &&& final(self).consumed() == old(self).consumed()
                },
            },
    {
        let ghost before = self.stream.consumed();
        match self.stream.poll_next() {
            PollNext::Item(ev) => {
                proof {
                    assert(self.stream.consumed().drop_last() =~= before);
                }
                match ev {
                    Ok(u) => {
                        proof {
                            lemma_update_touches_one_field(self.info.model(), u.model());
                        }
                        apply_update(&mut self.info, u);
                        let out = Ok::<PlayerInfo, Error>(self.info.dup());
                        self.emitted = Ghost(self.emitted@.push(out.model()));
                        PollNext::Item(out)
                    },
                    Err(e) => {
                        let out = Err::<PlayerInfo, Error>(e);
                        self.emitted = Ghost(self.emitted@.push(out.model()));
                        PollNext::Item(out)
                    },
                }
            },
            PollNext::Pending => PollNext::Pending,
            PollNext::Closed => PollNext::Closed,
        }
    }
}


/// The change-notification feeds of the eight tracked properties of one
/// player, as handed over by the subscription layer.
pub struct PropertyFeeds {
    /// Notifications for the playback status.
    pub playback_status: Feed<ChangeEvent<PlaybackStatus>>,
    /// Notifications for the loop mode.
    pub loop_status: Feed<ChangeEvent<LoopStatus>>,
    /// Notifications for the shuffle flag.
    pub shuffle: Feed<ChangeEvent<bool>>,
    /// Notifications for the metadata.
    pub metadata: Feed<ChangeEvent<Metadata>>,
    /// Notifications for the can-go-next capability.
    pub can_go_next: Feed<ChangeEvent<bool>>,
    /// Notifications for the can-go-previous capability.
    pub can_go_previous: Feed<ChangeEvent<bool>>,
    /// Notifications for the can-play capability.
    pub can_play: Feed<ChangeEvent<bool>>,
    /// Notifications for the can-pause capability.
    pub can_pause: Feed<ChangeEvent<bool>>,
}

impl PropertyFeeds {
    /// Whether every feed is fresh: nothing consumed, nothing closed.
    pub open spec fn fresh(&self) -> bool {
        &&& self.playback_status.consumed().len() == 0 && !self.playback_status.is_closed()
        &&& self.loop_status.consumed().len() == 0 && !self.loop_status.is_closed()
        &&& self.shuffle.consumed().len() == 0 && !self.shuffle.is_closed()
        &&& self.metadata.consumed().len() == 0 && !self.metadata.is_closed()
        &&& self.can_go_next.consumed().len() == 0 && !self.can_go_next.is_closed()
        &&& self.can_go_previous.consumed().len() == 0 && !self.can_go_previous.is_closed()
        &&& self.can_play.consumed().len() == 0 && !self.can_play.is_closed()
        &&& self.can_pause.consumed().len() == 0 && !self.can_pause.is_closed()
    }

    /// Eight fresh, open feeds.
    pub fn open_feeds() -> (r: PropertyFeeds)
        ensures
            r.fresh(),
    {
        PropertyFeeds {
            playback_status: Feed::new(),
            loop_status: Feed::new(),
            shuffle: Feed::new(),
            metadata: Feed::new(),
            can_go_next: Feed::new(),
            can_go_previous: Feed::new(),
            can_play: Feed::new(),
            can_pause: Feed::new(),
        }
    }
}

/// The results of the initial one-shot fetch of all eight properties.
pub struct InitialProperties {
    /// The fetched playback status.
    pub playback_status: Result<PlaybackStatus, Error>,
    /// The fetched loop mode.
    pub loop_status: Result<LoopStatus, Error>,
    /// The fetched shuffle flag.
    pub shuffle: Result<bool, Error>,
    /// The fetched metadata.
    pub metadata: Result<Metadata, Error>,
    /// The fetched can-go-next capability.
    pub can_go_next: Result<bool, Error>,
    /// The fetched can-go-previous capability.
    pub can_go_previous: Result<bool, Error>,
    /// The fetched can-play capability.
    pub can_play: Result<bool, Error>,
    /// The fetched can-pause capability.
    pub can_pause: Result<bool, Error>,
}

/// The failure of the first required initial fetch, in field order, if
/// any. The loop mode and the shuffle flag are optional and never fail
/// the pipeline.
pub open spec fn required_failure(i: InitialProperties) -> Option<ErrorModel> {
    if i.playback_status is Err {
        Some(i.playback_status->Err_0.model())
    } else if i.metadata is Err {
        Some(i.metadata->Err_0.model())
    } else if i.can_go_next is Err {
        Some(i.can_go_next->Err_0.model())
    } else if i.can_go_previous is Err {
        Some(i.can_go_previous->Err_0.model())
    } else if i.can_play is Err {
        Some(i.can_play->Err_0.model())
    } else if i.can_pause is Err {
        Some(i.can_pause->Err_0.model())
    } else {
        None
    }
}

/// The initial snapshot built from the initial fetches. Meaningful only
/// when no required fetch failed; a failed optional fetch leaves its
/// field absent.
pub open spec fn initial_snapshot(i: InitialProperties) -> PlayerInfoModel {
    PlayerInfoModel {
        playback_status: i.playback_status->Ok_0,
        loop_status: match i.loop_status {
            Ok(v) => Some(v),
            Err(_) => None,
        },
        shuffle: match i.shuffle {
            Ok(v) => Some(v),
            Err(_) => None,
        },
        metadata: i.metadata->Ok_0.model(),
        can_go_next: i.can_go_next->Ok_0,
        can_go_previous: i.can_go_previous->Ok_0,
        can_play: i.can_play->Ok_0,
        can_pause: i.can_pause->Ok_0,
    }
}

/// The per-player snapshot pipeline: eight property-change adapters,
/// merged one event at a time into the fold-aggregator, seeded with one
/// sentinel no-op event to deliver the initial snapshot, and
/// deduplicated.
pub struct PlayerInfoStream {
    playback_status: PropertyS<PlaybackStatus>,
    loop_status: PropertyS<LoopStatus>,
    shuffle: PropertyS<bool>,
    metadata: PropertyS<Metadata>,
    can_go_next: PropertyS<bool>,
    can_go_previous: PropertyS<bool>,
    can_play: PropertyS<bool>,
    can_pause: PropertyS<bool>,
    sentinel: bool,
    fold: FoldMap,
    dedup: FilterNoChange<Result<PlayerInfo, Error>>,
}

impl PlayerInfoStream {
    /// Models of the snapshot or error items emitted so far.
    pub closed spec fn emitted(&self) -> Seq<Result<PlayerInfoModel, ErrorModel>> {
        self.dedup.emitted()
    }

    /// The model of the initial snapshot the fold started from.
    pub closed spec fn init(&self) -> PlayerInfoModel {
        self.fold.init()
    }

    /// Models of the update events the fold has consumed so far.
    pub closed spec fn events(&self) -> Seq<Result<PlayerInfoUpdateModel, ErrorModel>> {
        self.fold.consumed()
    }

    /// Whether the sentinel no-op event is still owed.
    pub closed spec fn sentinel_pending(&self) -> bool {
        self.sentinel
    }

    /// Whether every adapter is exhausted.
    pub closed spec fn adapters_finished(&self) -> bool {
        &&& self.playback_status.finished()
        &&& self.loop_status.finished()
        &&& self.shuffle.finished()
        &&& self.metadata.finished()
        &&& self.can_go_next.finished()
        &&& self.can_go_previous.finished()
        &&& self.can_play.finished()
        &&& self.can_pause.finished()
    }

    /// Whether the loop-mode property was excluded as unsupported.
    pub closed spec fn loop_status_closed(&self) -> bool {
        self.loop_status.input_closed()
    }

    /// Whether the shuffle property was excluded as unsupported.
    pub closed spec fn shuffle_closed(&self) -> bool {
        self.shuffle.input_closed()
    }


    /// Models of the playback status notifications delivered but not
    /// yet consumed.
    pub closed spec fn pending_playback_status(&self) -> Seq<(nat, Option<Result<PlaybackStatus, ErrorModel>>)> {
        self.playback_status.queued()
    }

    /// Models of the playback status fetch results resolved so far.
    pub closed spec fn resolved_playback_status(&self) -> Seq<Result<PlaybackStatus, ErrorModel>> {
        self.playback_status.emitted()
    }

    /// Models of the loop status notifications delivered but not
    /// yet consumed.
    pub closed spec fn pending_loop_status(&self) -> Seq<(nat, Option<Result<LoopStatus, ErrorModel>>)> {
        self.loop_status.queued()
    }

    /// Models of the loop status fetch results resolved so far.
    pub closed spec fn resolved_loop_status(&self) -> Seq<Result<LoopStatus, ErrorModel>> {
        self.loop_status.emitted()
    }

    /// Models of the shuffle notifications delivered but not
    /// yet consumed.
    pub closed spec fn pending_shuffle(&self) -> Seq<(nat, Option<Result<bool, ErrorModel>>)> {
        self.shuffle.queued()
    }

    /// Models of the shuffle fetch results resolved so far.
    pub closed spec fn resolved_shuffle(&self) -> Seq<Result<bool, ErrorModel>> {
        self.shuffle.emitted()
    }

    /// Models of the metadata notifications delivered but not
    /// yet consumed.
    pub closed spec fn pending_metadata(&self) -> Seq<(nat, Option<Result<MetadataModel, ErrorModel>>)> {
        self.metadata.queued()
    }

    /// Models of the metadata fetch results resolved so far.
    pub closed spec fn resolved_metadata(&self) -> Seq<Result<MetadataModel, ErrorModel>> {
        self.metadata.emitted()
    }

    /// Models of the can go next notifications delivered but not
    /// yet consumed.
    pub closed spec fn pending_can_go_next(&self) -> Seq<(nat, Option<Result<bool, ErrorModel>>)> {
        self.can_go_next.queued()
    }

    /// Models of the can go next fetch results resolved so far.
    pub closed spec fn resolved_can_go_next(&self) -> Seq<Result<bool, ErrorModel>> {
        self.can_go_next.emitted()
    }

    /// Models of the can go previous notifications delivered but not
    /// yet consumed.
    pub closed spec fn pending_can_go_previous(&self) -> Seq<(nat, Option<Result<bool, ErrorModel>>)> {
        self.can_go_previous.queued()
    }

    /// Models of the can go previous fetch results resolved so far.
    pub closed spec fn resolved_can_go_previous(&self) -> Seq<Result<bool, ErrorModel>> {
        self.can_go_previous.emitted()
    }

    /// Models of the can play notifications delivered but not
    /// yet consumed.
    pub closed spec fn pending_can_play(&self) -> Seq<(nat, Option<Result<bool, ErrorModel>>)> {
        self.can_play.queued()
    }

    /// Models of the can play fetch results resolved so far.
    pub closed spec fn resolved_can_play(&self) -> Seq<Result<bool, ErrorModel>> {
        self.can_play.emitted()
    }

    /// Models of the can pause notifications delivered but not
    /// yet consumed.
    pub closed spec fn pending_can_pause(&self) -> Seq<(nat, Option<Result<bool, ErrorModel>>)> {
        self.can_pause.queued()
    }

    /// Models of the can pause fetch results resolved so far.
    pub closed spec fn resolved_can_pause(&self) -> Seq<Result<bool, ErrorModel>> {
        self.can_pause.emitted()
    }

    /// Total count of fetch results resolved by the eight adapters.
    pub open spec fn resolved_total(&self) -> nat {
        self.resolved_playback_status().len() + self.resolved_loop_status().len()
            + self.resolved_shuffle().len() + self.resolved_metadata().len()
            + self.resolved_can_go_next().len() + self.resolved_can_go_previous().len()
            + self.resolved_can_play().len() + self.resolved_can_pause().len()
    }

    /// Whether some adapter's next poll is guaranteed to resolve a value.
    pub closed spec fn some_adapter_due(&self) -> bool {
        ||| self.playback_status.has_due()
        ||| self.loop_status.has_due()
        ||| self.shuffle.has_due()
        ||| self.metadata.has_due()
        ||| self.can_go_next.has_due()
        ||| self.can_go_previous.has_due()
        ||| self.can_play.has_due()
        ||| self.can_pause.has_due()
    }

    /// Whether the notification feeds have been closed.
    pub closed spec fn inputs_closed(&self) -> bool {
        &&& self.playback_status.input_closed()
        &&& self.metadata.input_closed()
        &&& self.can_go_next.input_closed()
        &&& self.can_go_previous.input_closed()
        &&& self.can_play.input_closed()
        &&& self.can_pause.input_closed()
    }

    /// Total of the adapters' measures.
    pub closed spec fn adapters_size(&self) -> nat {
        self.playback_status.size() + self.loop_status.size() + self.shuffle.size()
            + self.metadata.size() + self.can_go_next.size() + self.can_go_previous.size()
            + self.can_play.size() + self.can_pause.size()
    }

    /// A measure for the composition loop.
    pub closed spec fn size(&self) -> nat {
        self.adapters_size() + self.fold.size() + self.dedup.size() + (if self.sentinel {
            1nat
        } else {
            0nat
        })
    }

    /// The pipeline's invariant: the stage feeds between the adapters,
    /// the fold and the deduplicator are always drained, everything the
    /// fold emitted has reached the deduplicator, and the fold's input is
    /// closed only once every adapter is exhausted.
    pub closed spec fn inv(&self) -> bool {
        &&& self.fold.inv()
        &&& self.dedup.inv()
        &&& self.fold.queued().len() == 0
        &&& self.dedup.queued().len() == 0
        &&& self.dedup.consumed() == self.fold.emitted()
        &&& self.fold.input_closed() ==> self.adapters_finished() && !self.sentinel_pending()
        &&& self.dedup.input_closed() ==> self.fold.input_closed()
        &&& self.sentinel_pending() ==> self.events().len() == 0
        &&& self.events().len() == (if self.sentinel_pending() {
            0nat
        } else {
            1nat
        }) + self.resolved_total()
        &&& self.resolved_loop_status().len() == 0 ==> no_loop_status_events(self.events())
        &&& self.resolved_shuffle().len() == 0 ==> no_shuffle_events(self.events())
    }

    /// Every consumed update event is accounted for: one sentinel no-op
    /// once the stream started, and one event per resolved fetch of each
    /// property's adapter.
    pub proof fn lemma_event_conservation(&self)
        requires
            self.inv(),
        ensures
            self.events().len() == (if self.sentinel_pending() {
                0nat
            } else {
                1nat
            }) + self.resolved_total(),
    {
    }

    /// A property excluded as unsupported stays absent in every emitted
    /// snapshot: while its adapter has resolved nothing and its field
    /// started absent, no emission shows a value for it.
    pub proof fn lemma_excluded_properties(&self)
        requires
            self.inv(),
        ensures
            self.init().loop_status is None && self.resolved_loop_status().len() == 0
                ==> forall|j: int|
                0 <= j < self.emitted().len() ==> (#[trigger] self.emitted()[j] matches Ok(s)
                    ==> s.loop_status is None),
            self.init().shuffle is None && self.resolved_shuffle().len() == 0 ==> forall|j: int|
                0 <= j < self.emitted().len() ==> (#[trigger] self.emitted()[j] matches Ok(s)
                    ==> s.shuffle is None),
    {
        let outs = fold_emits(self.init(), self.events());
        crate::util::lemma_dedup_membership(outs);
        lemma_fold_emits_len(self.init(), self.events());
        assert forall|j: int| 0 <= j < self.emitted().len() implies {
            &&& (self.init().loop_status is None && self.resolved_loop_status().len() == 0 ==> (
            #[trigger] self.emitted()[j] matches Ok(s) ==> s.loop_status is None))
            &&& (self.init().shuffle is None && self.resolved_shuffle().len() == 0 ==> (
            self.emitted()[j] matches Ok(s) ==> s.shuffle is None))
        } by {
            assert(outs.contains(self.emitted()[j]));
            let i = choose|i: int| 0 <= i < outs.len() && outs[i] == self.emitted()[j];
            lemma_absent_fields_in_emissions(self.init(), self.events(), i);
        }
    }

    /// Everything this pipeline has emitted is the deduplication of what
    /// the fold-aggregator emits for the consumed events.
    pub proof fn lemma_emissions(&self)
        requires
            self.inv(),
        ensures
            self.emitted() == dedup(fold_emits(self.init(), self.events())),
    {
    }

    /// Whether the playback-status notification feed has been closed.
    pub closed spec fn playback_status_closed(&self) -> bool {
        self.playback_status.input_closed()
    }

    /// Whether the metadata notification feed has been closed.
    pub closed spec fn metadata_closed(&self) -> bool {
        self.metadata.input_closed()
    }

    /// Whether the can-go-next notification feed has been closed.
    pub closed spec fn can_go_next_closed(&self) -> bool {
        self.can_go_next.input_closed()
    }

    /// Whether the can-go-previous notification feed has been closed.
    pub closed spec fn can_go_previous_closed(&self) -> bool {
        self.can_go_previous.input_closed()
    }

    /// Whether the can-play notification feed has been closed.
    pub closed spec fn can_play_closed(&self) -> bool {
        self.can_play.input_closed()
    }

    /// Whether the can-pause notification feed has been closed.
    pub closed spec fn can_pause_closed(&self) -> bool {
        self.can_pause.input_closed()
    }

    /// Deliver a playback-status change notification.
    pub fn notify_playback_status(&mut self, ev: ChangeEvent<PlaybackStatus>)
        requires
            old(self).inv(),
        ensures
            final(self).inv(),
            final(self).emitted() == old(self).emitted(),
            final(self).events() == old(self).events(),
            final(self).init() == old(self).init(),
            final(self).sentinel_pending() == old(self).sentinel_pending(),
            final(self).pending_playback_status() == (if old(self).playback_status_closed() {
                old(self).pending_playback_status()
            } else {
                old(self).pending_playback_status().push(ev.model())
            }),
    {
        if !self.playback_status.is_input_closed() {
            proof {
                self.playback_status.lemma_finished_closed();
            }
            self.playback_status.notify(ev);
        }
    }

    /// Deliver a loop-mode change notification.
    pub fn notify_loop_status(&mut self, ev: ChangeEvent<LoopStatus>)
        requires
            old(self).inv(),
        ensures
            final(self).inv(),
            final(self).emitted() == old(self).emitted(),
            final(self).events() == old(self).events(),
            final(self).init() == old(self).init(),
            final(self).sentinel_pending() == old(self).sentinel_pending(),
            final(self).pending_loop_status() == (if old(self).loop_status_closed() {
                old(self).pending_loop_status()
            } else {
                old(self).pending_loop_status().push(ev.model())
            }),
    {
        if !self.loop_status.is_input_closed() {
            proof {
                self.loop_status.lemma_finished_closed();
            }
            self.loop_status.notify(ev);
        }
    }

    /// Deliver a shuffle change notification.
    pub fn notify_shuffle(&mut self, ev: ChangeEvent<bool>)
        requires
            old(self).inv(),
        ensures
            final(self).inv(),
            final(self).emitted() == old(self).emitted(),
            final(self).events() == old(self).events(),
            final(self).init() == old(self).init(),
            final(self).sentinel_pending() == old(self).sentinel_pending(),
            final(self).pending_shuffle() == (if old(self).shuffle_closed() {
                old(self).pending_shuffle()
            } else {
                old(self).pending_shuffle().push(ev.model())
            }),
    {
        if !self.shuffle.is_input_closed() {
            proof {
                self.shuffle.lemma_finished_closed();
            }
            self.shuffle.notify(ev);
        }
    }

    /// Deliver a metadata change notification.
    pub fn notify_metadata(&mut self, ev: ChangeEvent<Metadata>)
        requires
            old(self).inv(),
        ensures
            final(self).inv(),
            final(self).emitted() == old(self).emitted(),
            final(self).events() == old(self).events(),
            final(self).init() == old(self).init(),
            final(self).sentinel_pending() == old(self).sentinel_pending(),
            final(self).pending_metadata() == (if old(self).metadata_closed() {
                old(self).pending_metadata()
            } else {
                old(self).pending_metadata().push(ev.model())
            }),
    {
        if !self.metadata.is_input_closed() {
            proof {
                self.metadata.lemma_finished_closed();
            }
            self.metadata.notify(ev);
        }
    }

    /// Deliver a can-go-next change notification.
    pub fn notify_can_go_next(&mut self, ev: ChangeEvent<bool>)
        requires
            old(self).inv(),
        ensures
            final(self).inv(),
            final(self).emitted() == old(self).emitted(),
            final(self).events() == old(self).events(),
            final(self).init() == old(self).init(),
            final(self).sentinel_pending() == old(self).sentinel_pending(),
            final(self).pending_can_go_next() == (if old(self).can_go_next_closed() {
                old(self).pending_can_go_next()
            } else {
                old(self).pending_can_go_next().push(ev.model())
            }),
    {
        if !self.can_go_next.is_input_closed() {
            proof {
                self.can_go_next.lemma_finished_closed();
            }
            self.can_go_next.notify(ev);
        }
    }

    /// Deliver a can-go-previous change notification.
    pub fn notify_can_go_previous(&mut self, ev: ChangeEvent<bool>)
        requires
            old(self).inv(),
        ensures
            final(self).inv(),
            final(self).emitted() == old(self).emitted(),
            final(self).events() == old(self).events(),
            final(self).init() == old(self).init(),
            final(self).sentinel_pending() == old(self).sentinel_pending(),
            final(self).pending_can_go_previous() == (if old(self).can_go_previous_closed() {
                old(self).pending_can_go_previous()
            } else {
                old(self).pending_can_go_previous().push(ev.model())
            }),
    {
        if !self.can_go_previous.is_input_closed() {
            proof {
                self.can_go_previous.lemma_finished_closed();
            }
            self.can_go_previous.notify(ev);
        }
    }

    /// Deliver a can-play change notification.
    pub fn notify_can_play(&mut self, ev: ChangeEvent<bool>)
        requires
            old(self).inv(),
        ensures
            final(self).inv(),
            final(self).emitted() == old(self).emitted(),
            final(self).events() == old(self).events(),
            final(self).init() == old(self).init(),
            final(self).sentinel_pending() == old(self).sentinel_pending(),
            final(self).pending_can_play() == (if old(self).can_play_closed() {
                old(self).pending_can_play()
            } else {
                old(self).pending_can_play().push(ev.model())
            }),
    {
        if !self.can_play.is_input_closed() {
            proof {
                self.can_play.lemma_finished_closed();
            }
            self.can_play.notify(ev);
        }
    }

    /// Deliver a can-pause change notification.
    pub fn notify_can_pause(&mut self, ev: ChangeEvent<bool>)
        requires
            old(self).inv(),
        ensures
            final(self).inv(),
            final(self).emitted() == old(self).emitted(),
            final(self).events() == old(self).events(),
            final(self).init() == old(self).init(),
            final(self).sentinel_pending() == old(self).sentinel_pending(),
            final(self).pending_can_pause() == (if old(self).can_pause_closed() {
                old(self).pending_can_pause()
            } else {
                old(self).pending_can_pause().push(ev.model())
            }),
    {
        if !self.can_pause.is_input_closed() {
            proof {
                self.can_pause.lemma_finished_closed();
            }
            self.can_pause.notify(ev);
        }
    }

    /// Deliver one change notification of whichever property it names.
    pub fn notify_property(&mut self, change: PropertyChange)
        requires
            old(self).inv(),
        ensures
            final(self).inv(),
            final(self).emitted() == old(self).emitted(),
            final(self).events() == old(self).events(),
            final(self).init() == old(self).init(),
            final(self).sentinel_pending() == old(self).sentinel_pending(),
    {
        match change {
            PropertyChange::PlaybackStatus(ev) => self.notify_playback_status(ev),
            PropertyChange::LoopStatus(ev) => self.notify_loop_status(ev),
            PropertyChange::Shuffle(ev) => self.notify_shuffle(ev),
            PropertyChange::Metadata(ev) => self.notify_metadata(ev),
            PropertyChange::CanGoNext(ev) => self.notify_can_go_next(ev),
            PropertyChange::CanGoPrevious(ev) => self.notify_can_go_previous(ev),
            PropertyChange::CanPlay(ev) => self.notify_can_play(ev),
            PropertyChange::CanPause(ev) => self.notify_can_pause(ev),
        }
    }

    /// Close every notification feed: the subscriptions are torn down and
    /// the pipeline will drain what is queued and exhaust itself.
    pub fn close_inputs(&mut self)
        requires
            old(self).inv(),
        ensures
            final(self).inv(),
            final(self).emitted() == old(self).emitted(),
            final(self).events() == old(self).events(),
            final(self).init() == old(self).init(),
    {
        self.playback_status.close_input();
        self.loop_status.close_input();
        self.shuffle.close_input();
        self.metadata.close_input();
        self.can_go_next.close_input();
        self.can_go_previous.close_input();
        self.can_play.close_input();
        self.can_pause.close_input();
    }

    /// Poll the eight adapters in a fixed order for one update event.
    fn poll_adapters(&mut self) -> (r: PollNext<Result<PlayerInfoUpdate, Error>>)
        ensures
            final(self).fold == old(self).fold,
            final(self).dedup == old(self).dedup,
            final(self).sentinel == old(self).sentinel,
            final(self).adapters_size() <= old(self).adapters_size(),
            old(self).adapters_finished() ==> final(self).adapters_finished(),
            old(self).adapters_finished() ==> r is Closed,
            old(self).some_adapter_due() ==> r is Item,
            final(self).resolved_loop_status().len() >= old(self).resolved_loop_status().len(),
            final(self).resolved_shuffle().len() >= old(self).resolved_shuffle().len(),
            match r {
                PollNext::Item(ev) => {
                    &&& final(self).adapters_size() < old(self).adapters_size()
                    &&& !old(self).adapters_finished()
                    &&& final(self).resolved_total() == old(self).resolved_total() + 1
                    &&& (ev.model() matches Ok(PlayerInfoUpdateModel::LoopStatus(_)) ==> final(self).resolved_loop_status().len() > old(self).resolved_loop_status().len())
                    &&& (ev.model() matches Ok(PlayerInfoUpdateModel::Shuffle(_)) ==> final(self).resolved_shuffle().len() > old(self).resolved_shuffle().len())
                },
                PollNext::Pending => !final(self).adapters_finished()
                    && final(self).resolved_total() == old(self).resolved_total(),
                PollNext::Closed => final(self).adapters_finished()
                    && final(self).resolved_total() == old(self).resolved_total(),
            },
    {
        let mut waiting = false;
        match self.playback_status.poll_next() {
            PollNext::Item(got) => {
                return PollNext::Item(
                    match got {
                        Ok(v) => Ok(PlayerInfoUpdate::PlaybackStatus(v)),
                        Err(e) => Err(e),
                    },
                );
            },
            PollNext::Pending => {
                waiting = true;
            },
            PollNext::Closed => {},
        }
        match self.loop_status.poll_next() {
            PollNext::Item(got) => {
                return PollNext::Item(
                    match got {
                        Ok(v) => Ok(PlayerInfoUpdate::LoopStatus(v)),
                        Err(e) => Err(e),
                    },
                );
            },
            PollNext::Pending => {
                waiting = true;
            },
            PollNext::Closed => {},
        }
        match self.shuffle.poll_next() {
            PollNext::Item(got) => {
                return PollNext::Item(
                    match got {
                        Ok(v) => Ok(PlayerInfoUpdate::Shuffle(v)),
                        Err(e) => Err(e),
                    },
                );
            },
            PollNext::Pending => {
                waiting = true;
            },
            PollNext::Closed => {},
        }
        match self.metadata.poll_next() {
            PollNext::Item(got) => {
                return PollNext::Item(
                    match got {
                        Ok(v) => Ok(PlayerInfoUpdate::Metadata(v)),
                        Err(e) => Err(e),
                    },
                );
            },
            PollNext::Pending => {
                waiting = true;
            },
            PollNext::Closed => {},
        }
        match self.can_go_next.poll_next() {
            PollNext::Item(got) => {
                return PollNext::Item(
                    match got {
                        Ok(v) => Ok(PlayerInfoUpdate::CanGoNext(v)),
                        Err(e) => Err(e),
                    },
                );
            },
            PollNext::Pending => {
                waiting = true;
            },
            PollNext::Closed => {},
        }
        match self.can_go_previous.poll_next() {
            PollNext::Item(got) => {
                return PollNext::Item(
                    match got {
                        Ok(v) => Ok(PlayerInfoUpdate::CanGoPrevious(v)),
                        Err(e) => Err(e),
                    },
                );
            },
            PollNext::Pending => {
                waiting = true;
            },
            PollNext::Closed => {},
        }
        match self.can_play.poll_next() {
            PollNext::Item(got) => {
                return PollNext::Item(
                    match got {
                        Ok(v) => Ok(PlayerInfoUpdate::CanPlay(v)),
                        Err(e) => Err(e),
                    },
                );
            },
            PollNext::Pending => {
                waiting = true;
            },
            PollNext::Closed => {},
        }
        match self.can_pause.poll_next() {
            PollNext::Item(got) => {
                return PollNext::Item(
                    match got {
                        Ok(v) => Ok(PlayerInfoUpdate::CanPause(v)),
                        Err(e) => Err(e),
                    },
                );
            },
            PollNext::Pending => {
                waiting = true;
            },
            PollNext::Closed => {},
        }
        if waiting {
            PollNext::Pending
        } else {
            PollNext::Closed
        }
    }

    /// Poll the pipeline for the next snapshot or error item.
    ///
    /// One update event at a time is taken from the sentinel or the
    /// adapters, folded into the snapshot, and deduplicated; a suppressed
    /// duplicate immediately retries. The pipeline is exhausted once every
    /// adapter is exhausted.
    pub fn poll_next(&mut self) -> (r: PollNext<Result<PlayerInfo, Error>>)
        requires
            old(self).inv(),
        ensures
            final(self).inv(),
            final(self).init() == old(self).init(),
            final(self).size() <= old(self).size(),
            old(self).events().is_prefix_of(final(self).events()),
            old(self).sentinel_pending() ==> (r matches PollNext::Item(v) && v.model()
                == Ok::<PlayerInfoModel, ErrorModel>(old(self).init()) && final(self).emitted()
                == old(self).emitted().push(Ok(old(self).init()))),
            old(self).adapters_finished() && !old(self).sentinel_pending() ==> r is Closed,
            !old(self).sentinel_pending() && old(self).some_adapter_due()
                ==> final(self).events().len() > old(self).events().len(),
            match r {
                PollNext::Item(v) => {
                    &&& final(self).emitted() == old(self).emitted().push(v.model())
                    &&& old(self).emitted().len() > 0 ==> v.model() != old(self).emitted().last()
                    &&& final(self).size() < old(self).size()
                },
                PollNext::Pending => {
                    &&& final(self).emitted() == old(self).emitted()
                    &&& !final(self).sentinel_pending()
                    &&& !final(self).adapters_finished()
                },
                PollNext::Closed => final(self).emitted() == old(self).emitted()
                    && final(self).adapters_finished(),
            },
    {
        loop
            invariant
                self.inv(),
                self.init() == old(self).init(),
                self.emitted() == old(self).emitted(),
                self.size() <= old(self).size(),
                old(self).sentinel_pending() ==> self.sentinel_pending(),
                old(self).adapters_finished() ==> self.adapters_finished(),
                old(self).events().is_prefix_of(self.events()),
                self.events().len() == old(self).events().len() ==> self == old(self),
            decreases self.size(),
        {
            let ev: Result<PlayerInfoUpdate, Error>;
            if self.sentinel {
                self.sentinel = false;
                ev = Ok(PlayerInfoUpdate::Nothing);
            } else {
                match self.poll_adapters() {
                    PollNext::Item(update) => {
                        proof {
                            self.playback_status.lemma_finished_closed();
                        }
                        ev = update;
                    },
                    PollNext::Pending => {
                        return PollNext::Pending;
                    },
                    PollNext::Closed => {
                        self.fold.close_input();
                        self.dedup.close_input();
                        return self.dedup.poll_next();
                    },
                }
            }
            let ghost events_before = self.events();
            self.fold.offer(ev);
            match self.fold.poll_next() {
                PollNext::Item(out) => {
                    proof {
                        assert(self.fold.queued() =~= Seq::<
                            Result<PlayerInfoUpdateModel, ErrorModel>,
                        >::empty());
                        assert(events_before.is_prefix_of(self.events())) by {
                            assert(self.events().subrange(0, events_before.len() as int)
                                =~= events_before);
                        }
                        assert(old(self).events().is_prefix_of(self.events())) by {
                            assert(self.events().subrange(0, old(self).events().len() as int)
                                =~= old(self).events());
                        }
                    }
                    let ghost m = out.model();
                    self.dedup.offer(out);
                    proof {
                        assert(self.dedup.queued() =~= seq![m]);
                    }
                    let ghost fed = self.dedup.consumed();
                    match self.dedup.poll_next() {
                        PollNext::Item(v) => {
                            proof {
                                assert(self.dedup.queued().len() == 0);
                                assert(self.dedup.consumed() =~= self.dedup.consumed()
                                    + self.dedup.queued());
                                assert(self.dedup.consumed() =~= fed.push(m));
                            }
                            return PollNext::Item(v);
                        },
                        PollNext::Pending => {
                            proof {
                                assert(self.dedup.consumed() =~= self.dedup.consumed()
                                    + self.dedup.queued());
                                assert(self.dedup.consumed() =~= fed.push(m));
                                crate::util::lemma_dedup_last(self.dedup.consumed());
                            }
                        },
                        PollNext::Closed => {
                            proof {
                                assert(false);
                            }
                            return PollNext::Closed;
                        },
                    }
                },
                PollNext::Pending => {
                    proof {
                        assert(false);
                    }
                    return PollNext::Pending;
                },
                PollNext::Closed => {
                    proof {
                        assert(false);
                    }
                    return PollNext::Closed;
                },
            }
        }
    }
}

/// Build the per-player snapshot pipeline from the initial fetches and
/// the change-notification feeds.
///
/// A failed required initial fetch fails the whole pipeline with that
/// failure, first in field order. A failed optional fetch (loop mode,
/// shuffle) excludes that property: its field stays absent and its
/// notification feed is replaced with the permanently-empty stream.
pub fn player_info(initial: InitialProperties, feeds: PropertyFeeds) -> (r: Result<
    PlayerInfoStream,
    Error,
>)
    requires
        feeds.fresh(),
    ensures
        match r {
            Ok(s) => {
                &&& required_failure(initial) is None
                &&& s.inv()
                &&& s.init() == initial_snapshot(initial)
                &&& s.emitted().len() == 0
                &&& s.events().len() == 0
                &&& s.sentinel_pending()
                &&& s.loop_status_closed() == (initial.loop_status is Err)
                &&& s.shuffle_closed() == (initial.shuffle is Err)
                &&& !s.playback_status_closed()
                &&& !s.metadata_closed()
                &&& !s.can_go_next_closed()
                &&& !s.can_go_previous_closed()
                &&& !s.can_play_closed()
                &&& !s.can_pause_closed()
                &&& !s.adapters_finished()
            },
            Err(e) => required_failure(initial) == Some(e.model()),
        },
{
    let playback_status = match initial.playback_status {
        Ok(v) => v,
        Err(e) => {
            return Err(e);
        },
    };
    let metadata = match initial.metadata {
        Ok(v) => v,
        Err(e) => {
            return Err(e);
        },
    };
    let can_go_next = match initial.can_go_next {
        Ok(v) => v,
        Err(e) => {
            return Err(e);
        },
    };
    let can_go_previous = match initial.can_go_previous {
        Ok(v) => v,
        Err(e) => {
            return Err(e);
        },
    };
    let can_play = match initial.can_play {
        Ok(v) => v,
        Err(e) => {
            return Err(e);
        },
    };
    let can_pause = match initial.can_pause {
        Ok(v) => v,
        Err(e) => {
            return Err(e);
        },
    };
    let (loop_status, loop_feed) = match initial.loop_status {
        Ok(v) => (Some(v), feeds.loop_status),
        Err(_) => (None, Feed::exhausted()),
    };
    let (shuffle, shuffle_feed) = match initial.shuffle {
        Ok(v) => (Some(v), feeds.shuffle),
        Err(_) => (None, Feed::exhausted()),
    };
    let info = PlayerInfo {
        playback_status,
        loop_status,
        shuffle,
        metadata,
        can_go_next,
        can_go_previous,
        can_play,
        can_pause,
    };
    Ok(
        PlayerInfoStream {
            playback_status: property_stream(feeds.playback_status),
            loop_status: property_stream(loop_feed),
            shuffle: property_stream(shuffle_feed),
            metadata: property_stream(feeds.metadata),
            can_go_next: property_stream(feeds.can_go_next),
            can_go_previous: property_stream(feeds.can_go_previous),
            can_play: property_stream(feeds.can_play),
            can_pause: property_stream(feeds.can_pause),
            sentinel: true,
            fold: FoldMap::new(info, Feed::new()),
            dedup: FilterNoChange::new(Feed::new()),
        },
    )
}

/// One change notification of any of the eight tracked properties.
pub enum PropertyChange {
    /// The playback status changed.
    PlaybackStatus(ChangeEvent<PlaybackStatus>),
    /// The loop mode changed.
    LoopStatus(ChangeEvent<LoopStatus>),
    /// The shuffle flag changed.
    Shuffle(ChangeEvent<bool>),
    /// The metadata changed.
    Metadata(ChangeEvent<Metadata>),
    /// The can-go-next capability changed.
    CanGoNext(ChangeEvent<bool>),
    /// The can-go-previous capability changed.
    CanGoPrevious(ChangeEvent<bool>),
    /// The can-play capability changed.
    CanPlay(ChangeEvent<bool>),
    /// The can-pause capability changed.
    CanPause(ChangeEvent<bool>),
}

} // verus!
