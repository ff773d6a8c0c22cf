//! Decoded event-stream shapes, as the archival logic consumes them: plain
//! values already pulled out of the platform client's own types. Identifiers
//! are numeric ids, timestamps are milliseconds since the Unix epoch, and the
//! opaque content facets are carried as one encoded entry per item.

use vstd::prelude::*;

use crate::record::{ArchivedMessageType, MessageInteraction, MessageReference};

verus! {

/// A full message as delivered by a creation event.
#[derive(Clone, Debug, PartialEq)]
pub struct GatewayMessage {
    pub id: u64,
    pub channel_id: u64,
    pub guild_id: Option<u64>,
    pub author_id: u64,
    pub timestamp: i64,
    pub kind: ArchivedMessageType,
    pub message_reference: Option<MessageReference>,
    pub webhook_id: Option<u64>,
    pub application_id: Option<u64>,
    pub interaction: Option<MessageInteraction>,
    pub content: String,
    pub attachments: Vec<String>,
    pub embeds: Vec<String>,
    pub components: Vec<String>,
    pub sticker_items: Vec<String>,
}

/// A partial message update as delivered by an edit event. A facet that is
/// `None` was not reported by the platform; that is not the same as the facet
/// being empty.
#[derive(Clone, Debug, PartialEq)]
pub struct MessageUpdate {
    pub id: u64,
    pub channel_id: u64,
    pub guild_id: Option<u64>,
    pub author_id: Option<u64>,
    pub timestamp: Option<i64>,
    pub edited_timestamp: Option<i64>,
    pub content: Option<String>,
    pub attachments: Option<Vec<String>>,
    pub embeds: Option<Vec<String>>,
    pub components: Option<Vec<String>>,
    pub sticker_items: Option<Vec<String>>,
}

/// One decoded lifecycle event from the stream.
#[derive(Clone, Debug, PartialEq)]
pub enum GatewayEvent {
    Create(GatewayMessage),
    Edit(MessageUpdate),
    Delete { channel_id: u64, message_id: u64, guild_id: Option<u64> },
    BulkDelete { channel_id: u64, message_ids: Vec<u64>, guild_id: Option<u64> },
}

} // verus!
