//! The archival service's decision layer: the per-run state (suppression
//! lists and session identifier), the suppression check that runs before any
//! lookup, and the handler step that folds one event into the looked-up
//! record. The caller owns the store itself: it looks the record up by
//! message id, hands it in, and persists whatever record comes back — insert
//! for a first-seen creation, upsert-by-id for everything else.

use vstd::prelude::*;

use crate::event::GatewayEvent;
use crate::merge::{merge, merge_ok, MergeOutcome};
use crate::record::ArchivedMessage;

verus! {

/// Whether an event in `channel_id` (and `guild_id`, when the event carries
/// one) falls under the suppression lists.
pub open spec fn spec_event_ignored(
    ignored_guilds: Seq<u64>,
    ignored_channels: Seq<u64>,
    channel_id: u64,
    guild_id: Option<u64>,
) -> bool {
    match guild_id {
        Some(g) => ignored_channels.contains(channel_id) || ignored_guilds.contains(g),
        None => ignored_channels.contains(channel_id),
    }
}

fn contains_id(ids: &Vec<u64>, x: u64) -> (r: bool)
    ensures
        r == ids@.contains(x),
{
    let mut i: usize = 0;
    while i < ids.len()
        invariant
            i <= ids@.len(),
            forall|j: int| 0 <= j < i ==> ids@[j] != x,
        decreases ids@.len() - i,
    {
        if ids[i] == x {
            return true;
        }
        i = i + 1;
    }
    false
}

/// One run of the archival service: which events it suppresses and the
/// session identifier it stamps on every iteration it captures.
#[derive(Clone, Debug, PartialEq)]
pub struct Archiver {
    pub ignored_guilds: Vec<u64>,
    pub ignored_channels: Vec<u64>,
    pub session_id: u128,
}

/// Relies on chrono's `Utc::now` (read through `timestamp_millis`) for the
/// wall-clock receipt time; the result depends on the system clock, so
/// nothing is assumed of it.
#[verifier::external_body]
fn now_millis() -> i64 {
    chrono::Utc::now().timestamp_millis()
}

impl Archiver {
    /// Whether this run suppresses events from the given channel and guild.
    pub open spec fn spec_is_event_ignored(&self, channel_id: u64, guild_id: Option<u64>) -> bool {
        spec_event_ignored(self.ignored_guilds@, self.ignored_channels@, channel_id, guild_id)
    }

    /// The suppression check, evaluated before any lookup or write: an event
    /// is ignored when its channel is suppressed, or when it carries a guild
    /// id and that guild is suppressed.
    pub fn is_event_ignored(&self, channel_id: u64, guild_id: Option<u64>) -> (r: bool)
        ensures
            r == self.spec_is_event_ignored(channel_id, guild_id),
    {
        match guild_id {
            Some(g) => contains_id(&self.ignored_channels, channel_id) || contains_id(
                &self.ignored_guilds,
                g,
            ),
            None => contains_id(&self.ignored_channels, channel_id),
        }
    }

    /// Folds one dispatched event into the record the caller looked up,
    /// stamping this run's session identifier and taking the wall clock as
    /// the receipt time: the outcome is exactly the merge engine's, for the
    /// receipt time that was read.
    pub fn handle_event(&self, existing: Option<ArchivedMessage>, event: GatewayEvent) -> (r:
        MergeOutcome)
        ensures
            exists|now: i64| #[trigger] merge_ok(existing, event, now, self.session_id, r),
    {
        let now = now_millis();
        merge(existing, event, now, self.session_id)
    }
}

} // verus!
