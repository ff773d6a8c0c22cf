//! The merge engine's guarantees, stated once for all inputs and proved from
//! the transition relation in `merge`.

use vstd::prelude::*;

use crate::event::{GatewayEvent, GatewayMessage, MessageUpdate};
use crate::merge::{merge_ok, spec_observed_at, MergeOutcome};
use crate::record::{
    full_promoted_to_deleted, incomplete_promoted_to_deleted, ArchivedMessage,
    ArchivedMessageFull, ArchivedMessageFullDeleted, ArchivedMessageIncomplete,
};
use crate::translate::is_incomplete_from_edit;

verus! {

/// Every creation event, whatever record already exists, yields a Full record
/// with exactly one iteration, whose content equals the event's content, and
/// with the edit flag clear.
pub proof fn lemma_create_yields_full(
    existing: Option<ArchivedMessage>,
    m: GatewayMessage,
    now: i64,
    session_id: u128,
    r: MergeOutcome,
)
    requires
        merge_ok(existing, GatewayEvent::Create(m), now, session_id, r),
    ensures
        r matches MergeOutcome::Store(ArchivedMessage::Full(f)) && {
            &&& f.iterations@.len() == 1
            &&& f.iterations@[0].content@ == m.content@
            &&& f.marked_as_edited == false
        },
{
}

/// An edit with no prior record founds an Incomplete record with the edit
/// flag set — unless the update lacks its author or its timestamp, in which
/// case no record is produced and exactly the matching translation error is
/// signaled.
pub proof fn lemma_edit_without_record(
    u: MessageUpdate,
    now: i64,
    session_id: u128,
    r: MergeOutcome,
)
    requires
        merge_ok(None::<ArchivedMessage>, GatewayEvent::Edit(u), now, session_id, r),
    ensures
        u.author_id is Some && u.timestamp is Some ==> (r matches MergeOutcome::Store(
            ArchivedMessage::Incomplete(x),
        ) && is_incomplete_from_edit(x, u, spec_observed_at(u, now), session_id)
            && x.marked_as_edited == true),
        u.author_id is None ==> (r matches MergeOutcome::SkipTranslation(e) && e is NoAuthor),
        u.author_id is Some && u.timestamp is None ==> (r matches MergeOutcome::SkipTranslation(e)
            && e is NoTimestamp),
{
}

/// An edit against an existing Full record appends exactly one iteration:
/// the count grows by one and every prior iteration is preserved unchanged,
/// in place.
pub proof fn lemma_edit_appends_to_full(
    f: ArchivedMessageFull,
    u: MessageUpdate,
    now: i64,
    session_id: u128,
    r: MergeOutcome,
)
    requires
        merge_ok(
            Some(ArchivedMessage::Full(f)),
            GatewayEvent::Edit(u),
            now,
            session_id,
            r,
        ),
    ensures
        r matches MergeOutcome::Store(ArchivedMessage::Full(g)) && {
            &&& g.iterations@.len() == f.iterations@.len() + 1
            &&& forall|i: int|
                0 <= i < f.iterations@.len() ==> g.iterations@[i] == f.iterations@[i]
        },
{
}

/// An edit against an existing Incomplete record appends exactly one
/// iteration, as for Full records.
pub proof fn lemma_edit_appends_to_incomplete(
    x: ArchivedMessageIncomplete,
    u: MessageUpdate,
    now: i64,
    session_id: u128,
    r: MergeOutcome,
)
    requires
        merge_ok(
            Some(ArchivedMessage::Incomplete(x)),
            GatewayEvent::Edit(u),
            now,
            session_id,
            r,
        ),
    ensures
        r matches MergeOutcome::Store(ArchivedMessage::Incomplete(g)) && {
            &&& g.iterations@.len() == x.iterations@.len() + 1
            &&& forall|i: int|
                0 <= i < x.iterations@.len() ==> g.iterations@[i] == x.iterations@[i]
        },
{
}

/// A deletion against an existing Full record promotes it to FullDeleted,
/// with every prior field and iteration preserved and the receipt time set
/// as the deletion timestamp.
pub proof fn lemma_delete_promotes_full(
    f: ArchivedMessageFull,
    channel_id: u64,
    message_id: u64,
    guild_id: Option<u64>,
    now: i64,
    session_id: u128,
    r: MergeOutcome,
)
    requires
        merge_ok(
            Some(ArchivedMessage::Full(f)),
            GatewayEvent::Delete { channel_id, message_id, guild_id },
            now,
            session_id,
            r,
        ),
    ensures
        r matches MergeOutcome::Store(ArchivedMessage::FullDeleted(d))
            && full_promoted_to_deleted(f, d, Some(now)) && d.deleted_timestamp is Some,
{
}

/// A deletion against an existing Incomplete record promotes it to
/// IncompleteDeleted, with every prior field and iteration preserved and the
/// receipt time set as the deletion timestamp.
pub proof fn lemma_delete_promotes_incomplete(
    x: ArchivedMessageIncomplete,
    channel_id: u64,
    message_id: u64,
    guild_id: Option<u64>,
    now: i64,
    session_id: u128,
    r: MergeOutcome,
)
    requires
        merge_ok(
            Some(ArchivedMessage::Incomplete(x)),
            GatewayEvent::Delete { channel_id, message_id, guild_id },
            now,
            session_id,
            r,
        ),
    ensures
        r matches MergeOutcome::Store(ArchivedMessage::IncompleteDeleted(d))
            && incomplete_promoted_to_deleted(x, d, Some(now)) && d.deleted_timestamp is Some,
{
}

/// A deletion with no prior record yields an UnknownDeleted marker carrying
/// only the ids the event itself carries and the receipt time.
pub proof fn lemma_delete_without_record(
    channel_id: u64,
    message_id: u64,
    guild_id: Option<u64>,
    now: i64,
    session_id: u128,
    r: MergeOutcome,
)
    requires
        merge_ok(
            None::<ArchivedMessage>,
            GatewayEvent::Delete { channel_id, message_id, guild_id },
            now,
            session_id,
            r,
        ),
    ensures
        r matches MergeOutcome::Store(ArchivedMessage::UnknownDeleted(d)) && {
            &&& d.id == message_id
            &&& d.channel_id == channel_id
            &&& d.guild_id == guild_id
            &&& d.deleted_timestamp == Some(now)
        },
{
}

/// Folding any event into a record whose iteration log is non-empty — or
/// into no record at all — only ever stores a record whose iteration log is
/// non-empty again.
pub proof fn lemma_merge_preserves_well_formed(
    existing: Option<ArchivedMessage>,
    event: GatewayEvent,
    now: i64,
    session_id: u128,
    r: MergeOutcome,
)
    requires
        merge_ok(existing, event, now, session_id, r),
        existing matches Some(m) ==> m.well_formed(),
    ensures
        r matches MergeOutcome::Store(next) ==> next.well_formed(),
{
}

/// Deleting twice is idempotent on a Full record: the first deletion yields
/// its FullDeleted counterpart with every content field preserved, and the
/// second deletion of the same message is flagged as an anomaly and stores
/// nothing, so that same FullDeleted record, untouched, stands after both.
pub proof fn lemma_delete_idempotent_on_full(
    f: ArchivedMessageFull,
    d: ArchivedMessageFullDeleted,
    channel_id: u64,
    message_id: u64,
    guild_id: Option<u64>,
    now1: i64,
    now2: i64,
    session_id: u128,
    r2: MergeOutcome,
)
    requires
        merge_ok(
            Some(ArchivedMessage::Full(f)),
            GatewayEvent::Delete { channel_id, message_id, guild_id },
            now1,
            session_id,
            MergeOutcome::Store(ArchivedMessage::FullDeleted(d)),
        ),
        merge_ok(
            Some(ArchivedMessage::FullDeleted(d)),
            GatewayEvent::Delete { channel_id, message_id, guild_id },
            now2,
            session_id,
            r2,
        ),
    ensures
        full_promoted_to_deleted(f, d, Some(now1)),
        r2 is SkipAnomalous,
{
}

} // verus!
