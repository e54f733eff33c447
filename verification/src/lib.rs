//! Stream-combinator core for aggregating property-change notifications
//! from a publish/subscribe bus into deduplicated snapshot streams.
//!
//! The combinators are poll-driven state machines. An asynchronous source
//! is represented by a [`feed::Feed`]: a queue of delivered items that the
//! unverified I/O layer fills and the verified machines drain. Every
//! machine records the models of the items it has emitted in a ghost
//! history, and its contract ties that history to the histories of its
//! upstream sources.

pub mod active_player;
pub mod active_player_info;
pub mod error;
pub mod feed;
pub mod gate;
pub mod info;
pub mod item;
pub mod player_info;
pub mod property;
pub mod proxies;
pub mod util;

pub use feed::Feed;
pub use feed::PollNext;
pub use item::Modeled;
pub use item::StreamItem;
