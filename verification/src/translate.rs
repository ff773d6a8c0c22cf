//! The event translator: pure conversions from decoded stream events into
//! records and iterations, given the observation time and the identifier of
//! the archiver session doing the capturing.

use vstd::prelude::*;

use crate::event::{GatewayMessage, MessageUpdate};
use crate::record::{
    ArchivedMessageFull, ArchivedMessageIncomplete, ArchivedMessageIteration,
};

verus! {

/// Why a partial update could not found a new Incomplete record: the static
/// fields it would need cannot be synthesized.
#[derive(Clone, Copy, Debug, PartialEq, Eq, Structural)]
pub enum ArchivedMessageIncompleteFromSerenityError {
    NoAuthor,
    NoTimestamp,
}

/// The millisecond value of a nanosecond epoch offset, of either sign:
/// sub-millisecond precision is truncated toward zero, as the machine
/// division behaves.
pub open spec fn millis_of_nanos(ts_nanos: int) -> int {
    if ts_nanos >= 0 {
        ts_nanos / 1_000_000
    } else {
        -((-ts_nanos) / 1_000_000)
    }
}

/// Converts a platform timestamp, given as nanoseconds since the Unix epoch,
/// to the millisecond precision used by stored records. Timestamps before the
/// epoch are admitted; the result only has to fit the stored width.
pub fn convert_ts(ts_nanos: i128) -> (r: i64)
    requires
        i64::MIN as int <= millis_of_nanos(ts_nanos as int) <= i64::MAX as int,
    ensures
        r == millis_of_nanos(ts_nanos as int),
{
    let millis: i128 = ts_nanos / 1_000_000;
    millis as i64
}

/// `it` is the iteration that edit `u`, observed at `observed_at` during
/// session `session_id`, translates to: a facet the platform did not report
/// is recorded empty, which stands for "no change reported", not "empty".
pub open spec fn is_edit_iteration(
    it: ArchivedMessageIteration,
    u: MessageUpdate,
    observed_at: i64,
    session_id: u128,
) -> bool {
    &&& it.timestamp == observed_at
    &&& it.may_contain_gap == false
    &&& it.session_id == session_id
    &&& match u.content {
        Some(c) => it.content@ == c@,
        None => it.content@ == Seq::<char>::empty(),
    }
    &&& match u.attachments {
        Some(v) => it.attachments@ == v@,
        None => it.attachments@ == Seq::<String>::empty(),
    }
    &&& match u.embeds {
        Some(v) => it.embeds@ == v@,
        None => it.embeds@ == Seq::<String>::empty(),
    }
    &&& match u.components {
        Some(v) => it.components@ == v@,
        None => it.components@ == Seq::<String>::empty(),
    }
    &&& match u.sticker_items {
        Some(v) => it.sticker_items@ == v@,
        None => it.sticker_items@ == Seq::<String>::empty(),
    }
}

/// `it` is the founding iteration captured from creation message `m` during
/// session `session_id`.
pub open spec fn is_creation_iteration(
    it: ArchivedMessageIteration,
    m: GatewayMessage,
    session_id: u128,
) -> bool {
    &&& it.timestamp == m.timestamp
    &&& it.may_contain_gap == false
    &&& it.session_id == session_id
    &&& it.content@ == m.content@
    &&& it.attachments@ == m.attachments@
    &&& it.embeds@ == m.embeds@
    &&& it.components@ == m.components@
    &&& it.sticker_items@ == m.sticker_items@
}

/// `f` is the Full record that creation message `m` translates to: the static
/// fields captured from the message, exactly one founding iteration, and the
/// edit flag clear.
pub open spec fn is_full_from_creation(
    f: ArchivedMessageFull,
    m: GatewayMessage,
    session_id: u128,
) -> bool {
    &&& f.id == m.id
    &&& f.channel_id == m.channel_id
    &&& f.guild_id == m.guild_id
    &&& f.author_id == m.author_id
    &&& f.timestamp == m.timestamp
    &&& f.kind == m.kind
    &&& f.message_reference == m.message_reference
    &&& f.webhook_id == m.webhook_id
    &&& f.application_id == m.application_id
    &&& f.interaction == m.interaction
    &&& f.iterations@.len() == 1
    &&& is_creation_iteration(f.iterations@[0], m, session_id)
    &&& f.marked_as_edited == false
}

/// `x` is the Incomplete record that edit `u` founds when no record exists:
/// the static fields the update does carry, exactly one iteration, and the
/// edit flag set, since the edit itself is evidence of an earlier revision.
pub open spec fn is_incomplete_from_edit(
    x: ArchivedMessageIncomplete,
    u: MessageUpdate,
    observed_at: i64,
    session_id: u128,
) -> bool {
    &&& x.id == u.id
    &&& x.channel_id == u.channel_id
    &&& x.guild_id == u.guild_id
    &&& u.author_id matches Some(a) && x.author_id == a
    &&& u.timestamp matches Some(t) && x.timestamp == t
    &&& x.iterations@.len() == 1
    &&& is_edit_iteration(x.iterations@[0], u, observed_at, session_id)
    &&& x.marked_as_edited == true
}

/// The error `e` is the one owed to update `u`: `NoAuthor` exactly when the
/// author is missing, else `NoTimestamp` exactly when the timestamp is.
pub open spec fn translation_fails(
    u: MessageUpdate,
    e: ArchivedMessageIncompleteFromSerenityError,
) -> bool {
    ||| (e is NoAuthor && u.author_id is None)
    ||| (e is NoTimestamp && u.author_id is Some && u.timestamp is None)
}

/// What translating edit `u` into a fresh Incomplete record returns: a record
/// exactly when the update carries both an author and a timestamp, and the
/// matching error otherwise.
pub open spec fn incomplete_translation_ok(
    u: MessageUpdate,
    observed_at: i64,
    session_id: u128,
    r: Result<ArchivedMessageIncomplete, ArchivedMessageIncompleteFromSerenityError>,
) -> bool {
    match r {
        Ok(x) => {
            &&& u.author_id is Some
            &&& u.timestamp is Some
            &&& is_incomplete_from_edit(x, u, observed_at, session_id)
        },
        Err(e) => translation_fails(u, e),
    }
}

impl ArchivedMessageIteration {
    /// Builds the log entry that edit `update`, observed at `timestamp`,
    /// appends to a record's history.
    pub fn from_gateway(update: MessageUpdate, timestamp: i64, session_id: u128) -> (r: Self)
        ensures
            is_edit_iteration(r, update, timestamp, session_id),
    {
        let MessageUpdate { content, attachments, embeds, components, sticker_items, .. } = update;
        ArchivedMessageIteration {
            timestamp,
            may_contain_gap: false,
            session_id,
            content: match content {
                Some(c) => c,
                None => String::new(),
            },
            attachments: match attachments {
                Some(v) => v,
                None => Vec::new(),
            },
            embeds: match embeds {
                Some(v) => v,
                None => Vec::new(),
            },
            components: match components {
                Some(v) => v,
                None => Vec::new(),
            },
            sticker_items: match sticker_items {
                Some(v) => v,
                None => Vec::new(),
            },
        }
    }
}

impl ArchivedMessageFull {
    /// Builds the Full record founded by creation message `message`, with its
    /// single founding iteration.
    pub fn from_gateway(message: GatewayMessage, session_id: u128) -> (r: Self)
        ensures
            is_full_from_creation(r, message, session_id),
    {
        let GatewayMessage {
            id,
            channel_id,
            guild_id,
            author_id,
            timestamp,
            kind,
            message_reference,
            webhook_id,
            application_id,
            interaction,
            content,
            attachments,
            embeds,
            components,
            sticker_items,
        } = message;
        let founding = ArchivedMessageIteration {
            timestamp,
            may_contain_gap: false,
            session_id,
            content,
            attachments,
            embeds,
            components,
            sticker_items,
        };
        let mut iterations: Vec<ArchivedMessageIteration> = Vec::new();
        iterations.push(founding);
        ArchivedMessageFull {
            id,
            channel_id,
            guild_id,
            author_id,
            timestamp,
            kind,
            message_reference,
            webhook_id,
            application_id,
            interaction,
            iterations,
            marked_as_edited: false,
        }
    }
}

impl ArchivedMessageIncomplete {
    /// Builds the Incomplete record founded by edit `update` when no record
    /// exists yet; fails when the update lacks the author or the timestamp,
    /// which are required static fields.
    pub fn from_gateway(update: MessageUpdate, timestamp: i64, session_id: u128) -> (r: Result<
        Self,
        ArchivedMessageIncompleteFromSerenityError,
    >)
        ensures
            incomplete_translation_ok(update, timestamp, session_id, r),
    {
        let author_id = match update.author_id {
            Some(a) => a,
            None => {
                return Err(ArchivedMessageIncompleteFromSerenityError::NoAuthor);
            },
        };
        let message_timestamp = match update.timestamp {
            Some(t) => t,
            None => {
                return Err(ArchivedMessageIncompleteFromSerenityError::NoTimestamp);
            },
        };
        let id = update.id;
        let channel_id = update.channel_id;
        let guild_id = update.guild_id;
        let iteration = ArchivedMessageIteration::from_gateway(update, timestamp, session_id);
        let mut iterations: Vec<ArchivedMessageIteration> = Vec::new();
        iterations.push(iteration);
        Ok(
            ArchivedMessageIncomplete {
                id,
                channel_id,
                guild_id,
                author_id,
                timestamp: message_timestamp,
                iterations,
                marked_as_edited: true,
            },
        )
    }
}

} // verus!
