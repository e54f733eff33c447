//! The selection pipeline: which players exist, and which is active.
//!
//! The selection source publishes an ordered list of player names whose
//! first element is the active one; an empty list means no active target.
//! The pipeline adapts the change notifications of that list into a
//! deduplicated stream of selections, seeded with an initial fetch.

use vstd::prelude::*;

use crate::error::Error;
use crate::feed::Feed;
use crate::item::Modeled;
use crate::property::ChangeEvent;
use crate::property::PropertyValueStream;

verus! {

/// The deduplicated, seeded stream of player-name selections.
pub type ActivePlayersStream = PropertyValueStream<Vec<String>>;

/// Adapt the selection source into a deduplicated stream of selections,
/// seeded with the result of the initial fetch of the player-name list.
pub fn active_players(
    initial: Result<Vec<String>, Error>,
    changes: Feed<ChangeEvent<Vec<String>>>,
) -> (r: ActivePlayersStream)
    requires
        changes.consumed().len() == 0,
    ensures
        r.inv(),
        r.emitted().len() == 0,
        r.fetched().len() == 0,
        r.init() == initial.model(),
        r.seed_pending(),
        r.input_closed() == changes.is_closed(),
{
    PropertyValueStream::new(initial, changes)
}

} // verus!
