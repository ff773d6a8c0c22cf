//! The merge engine: given the record the store currently holds for a message
//! (or its absence) and one incoming event, computes the next record to
//! persist, or says why the event is to be dropped. Lifecycle rules: a record
//! only moves forward (Full to FullDeleted, Incomplete to IncompleteDeleted,
//! absent to UnknownDeleted); edits append to the iteration log and never
//! reorder or rewrite it; events against an already-deleted record are
//! anomalies and change nothing.

use vstd::prelude::*;

use crate::event::{GatewayEvent, GatewayMessage, MessageUpdate};
use crate::record::{
    full_promoted_to_deleted, incomplete_promoted_to_deleted, ArchivedMessage,
    ArchivedMessageFull, ArchivedMessageIncomplete, ArchivedMessageIncompleteDeleted,
    ArchivedMessageIteration, ArchivedMessageUnknownDeleted,
};
use crate::translate::{
    is_edit_iteration, is_full_from_creation, is_incomplete_from_edit, translation_fails,
    ArchivedMessageIncompleteFromSerenityError,
};

verus! {

/// What the merge engine decides for one event.
#[derive(Clone, Debug, PartialEq)]
pub enum MergeOutcome {
    /// Persist this record under its message id.
    Store(ArchivedMessage),
    /// Drop the event: the update was too sparse to found a record.
    SkipTranslation(ArchivedMessageIncompleteFromSerenityError),
    /// Drop the event: it addressed an already-deleted record, which the
    /// platform should never do; the record is left untouched.
    SkipAnomalous,
    /// Drop the event: bulk deletions are not resolved by the merge engine.
    SkipUnhandled,
}

/// The observation time for an edit: the edit's own timestamp when the
/// platform reported one, else the wall-clock receipt time `now`.
pub open spec fn spec_observed_at(u: MessageUpdate, now: i64) -> i64 {
    match u.edited_timestamp {
        Some(t) => t,
        None => now,
    }
}

/// `g` is `f` with the iteration for edit `u` appended: the static fields
/// unchanged, every prior iteration preserved in place, one new iteration at
/// the end, and the edit flag as the edit itself reports it.
pub open spec fn full_after_edit(
    f: ArchivedMessageFull,
    g: ArchivedMessageFull,
    u: MessageUpdate,
    observed_at: i64,
    session_id: u128,
) -> bool {
    &&& g.id == f.id
    &&& g.channel_id == f.channel_id
    &&& g.guild_id == f.guild_id
    &&& g.author_id == f.author_id
    &&& g.timestamp == f.timestamp
    &&& g.kind == f.kind
    &&& g.message_reference == f.message_reference
    &&& g.webhook_id == f.webhook_id
    &&& g.application_id == f.application_id
    &&& g.interaction == f.interaction
    &&& g.iterations@.len() == f.iterations@.len() + 1
    &&& g.iterations@.subrange(0, f.iterations@.len() as int) == f.iterations@
    &&& is_edit_iteration(g.iterations@.last(), u, observed_at, session_id)
    &&& g.marked_as_edited == (u.edited_timestamp is Some)
}

/// `g` is `x` with the iteration for edit `u` appended, as for Full records.
pub open spec fn incomplete_after_edit(
    x: ArchivedMessageIncomplete,
    g: ArchivedMessageIncomplete,
    u: MessageUpdate,
    observed_at: i64,
    session_id: u128,
) -> bool {
    &&& g.id == x.id
    &&& g.channel_id == x.channel_id
    &&& g.guild_id == x.guild_id
    &&& g.author_id == x.author_id
    &&& g.timestamp == x.timestamp
    &&& g.iterations@.len() == x.iterations@.len() + 1
    &&& g.iterations@.subrange(0, x.iterations@.len() as int) == x.iterations@
    &&& is_edit_iteration(g.iterations@.last(), u, observed_at, session_id)
    &&& g.marked_as_edited == (u.edited_timestamp is Some)
}

/// `u` carries the deletion record owed to a deletion for a message the store
/// has never seen: only the ids the event itself carries and the receipt time.
pub open spec fn is_unknown_deleted(
    u: ArchivedMessageUnknownDeleted,
    channel_id: u64,
    message_id: u64,
    guild_id: Option<u64>,
    now: i64,
) -> bool {
    &&& u.id == message_id
    &&& u.channel_id == channel_id
    &&& u.guild_id == guild_id
    &&& u.deleted_timestamp == Some(now)
}

/// The full transition relation of the merge engine: `r` is the outcome owed
/// to folding `event`, received at wall-clock time `now` during session
/// `session_id`, into `existing`.
pub open spec fn merge_ok(
    existing: Option<ArchivedMessage>,
    event: GatewayEvent,
    now: i64,
    session_id: u128,
    r: MergeOutcome,
) -> bool {
    match event {
        GatewayEvent::Create(m) => {
            &&& r matches MergeOutcome::Store(ArchivedMessage::Full(f))
            &&& is_full_from_creation(f, m, session_id)
        },
        GatewayEvent::Edit(u) => {
            let observed_at = spec_observed_at(u, now);
            match existing {
                None => {
                    ||| {
                        &&& r matches MergeOutcome::Store(ArchivedMessage::Incomplete(x))
                        &&& u.author_id is Some
                        &&& u.timestamp is Some
                        &&& is_incomplete_from_edit(x, u, observed_at, session_id)
                    }
                    ||| {
                        &&& r matches MergeOutcome::SkipTranslation(e)
                        &&& translation_fails(u, e)
                    }
                },
                Some(ArchivedMessage::Full(f)) => {
                    &&& r matches MergeOutcome::Store(ArchivedMessage::Full(g))
                    &&& full_after_edit(f, g, u, observed_at, session_id)
                },
                Some(ArchivedMessage::Incomplete(x)) => {
                    &&& r matches MergeOutcome::Store(ArchivedMessage::Incomplete(g))
                    &&& incomplete_after_edit(x, g, u, observed_at, session_id)
                },
                Some(_) => r is SkipAnomalous,
            }
        },
        GatewayEvent::Delete { channel_id, message_id, guild_id } => match existing {
            None => {
                &&& r matches MergeOutcome::Store(ArchivedMessage::UnknownDeleted(d))
                &&& is_unknown_deleted(d, channel_id, message_id, guild_id, now)
            },
            Some(ArchivedMessage::Full(f)) => {
                &&& r matches MergeOutcome::Store(ArchivedMessage::FullDeleted(d))
                &&& full_promoted_to_deleted(f, d, Some(now))
            },
            Some(ArchivedMessage::Incomplete(x)) => {
                &&& r matches MergeOutcome::Store(ArchivedMessage::IncompleteDeleted(d))
                &&& incomplete_promoted_to_deleted(x, d, Some(now))
            },
            Some(_) => r is SkipAnomalous,
        },
        GatewayEvent::BulkDelete { .. } => r is SkipUnhandled,
    }
}

/// Folds one event into whatever record already exists, under the lifecycle
/// table: creations found a Full record whatever the store held; edits append
/// to a live record or found an Incomplete one; deletions promote a live
/// record or leave an UnknownDeleted marker; anything addressing an
/// already-deleted record is an anomaly and is dropped; bulk deletions are
/// left to the caller.
pub fn merge(
    existing: Option<ArchivedMessage>,
    event: GatewayEvent,
    now: i64,
    session_id: u128,
) -> (r: MergeOutcome)
    ensures
        merge_ok(existing, event, now, session_id, r),
{
    match event {
        GatewayEvent::Create(m) => {
            let f = ArchivedMessageFull::from_gateway(m, session_id);
            MergeOutcome::Store(ArchivedMessage::Full(f))
        },
        GatewayEvent::Edit(u) => {
            let observed_at = match u.edited_timestamp {
                Some(t) => t,
                None => now,
            };
            let marked_as_edited = u.edited_timestamp.is_some();
            match existing {
                None => match ArchivedMessageIncomplete::from_gateway(u, observed_at, session_id) {
                    Ok(x) => MergeOutcome::Store(ArchivedMessage::Incomplete(x)),
                    Err(e) => MergeOutcome::SkipTranslation(e),
                },
                Some(ArchivedMessage::Full(mut f)) => {
                    let ghost prior = f.iterations@;
                    let it = ArchivedMessageIteration::from_gateway(u, observed_at, session_id);
                    f.iterations.push(it);
                    f.marked_as_edited = marked_as_edited;
                    proof {
                        assert(f.iterations@.subrange(0, prior.len() as int) =~= prior);
                    }
                    MergeOutcome::Store(ArchivedMessage::Full(f))
                },
                Some(ArchivedMessage::Incomplete(mut x)) => {
                    let ghost prior = x.iterations@;
                    let it = ArchivedMessageIteration::from_gateway(u, observed_at, session_id);
                    x.iterations.push(it);
                    x.marked_as_edited = marked_as_edited;
                    proof {
                        assert(x.iterations@.subrange(0, prior.len() as int) =~= prior);
                    }
                    MergeOutcome::Store(ArchivedMessage::Incomplete(x))
                },
                Some(_) => MergeOutcome::SkipAnomalous,
            }
        },
        GatewayEvent::Delete { channel_id, message_id, guild_id } => match existing {
            None => MergeOutcome::Store(
                ArchivedMessage::UnknownDeleted(
                    ArchivedMessageUnknownDeleted {
                        id: message_id,
                        channel_id,
                        guild_id,
                        deleted_timestamp: Some(now),
                    },
                ),
            ),
            Some(ArchivedMessage::Full(f)) => MergeOutcome::Store(
                ArchivedMessage::FullDeleted(f.into_deleted(Some(now))),
            ),
            Some(ArchivedMessage::Incomplete(x)) => MergeOutcome::Store(
                ArchivedMessage::IncompleteDeleted(x.into_deleted(Some(now))),
            ),
            Some(_) => MergeOutcome::SkipAnomalous,
        },
        GatewayEvent::BulkDelete { .. } => MergeOutcome::SkipUnhandled,
    }
}

} // verus!
