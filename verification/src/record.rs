//! The record model: the shapes a message's archived state can take across
//! its lifecycle, and the append-only iteration log of its observed revisions.
//!
//! Identifiers are the platform's numeric ids, timestamps are milliseconds
//! since the Unix epoch, and a session identifier is the 128-bit value of the
//! archiver run that captured an iteration. The mutable content facets of an
//! iteration (attachments, embeds, components, sticker references) are carried
//! opaquely, one encoded entry per item, exactly as the caller handed them in;
//! the archival logic never looks inside them.

use vstd::prelude::*;

verus! {

/// One archived record, tagged by where the message stands in its lifecycle.
#[derive(Clone, Debug, PartialEq)]
pub enum ArchivedMessage {
    /// Created while the service was observing live creation events.
    Full(ArchivedMessageFull),
    /// A Full record whose message was later deleted.
    FullDeleted(ArchivedMessageFullDeleted),
    /// First observed through an edit; the original content is unknown.
    Incomplete(ArchivedMessageIncomplete),
    /// An Incomplete record whose message was later deleted.
    IncompleteDeleted(ArchivedMessageIncompleteDeleted),
    /// A deletion for a message id the store has never seen.
    UnknownDeleted(ArchivedMessageUnknownDeleted),
}

/// A message observed from its creation onward.
#[derive(Clone, Debug, PartialEq)]
pub struct ArchivedMessageFull {
    // Static fields, captured once from the creation event.
    pub id: u64,
    pub channel_id: u64,
    pub guild_id: Option<u64>,
    pub author_id: u64,
    pub timestamp: i64,
    pub kind: ArchivedMessageType,
    pub message_reference: Option<MessageReference>,
    pub webhook_id: Option<u64>,
    pub application_id: Option<u64>,
    pub interaction: Option<MessageInteraction>,

    // Tracked when editing.
    /// The original body and subsequent modifications; may or may not hold
    /// the full history.
    pub iterations: Vec<ArchivedMessageIteration>,
    /// Whether the platform has reported at least one content edit.
    pub marked_as_edited: bool,
}

/// A Full record after its message was deleted.
#[derive(Clone, Debug, PartialEq)]
pub struct ArchivedMessageFullDeleted {
    pub id: u64,
    pub channel_id: u64,
    pub guild_id: Option<u64>,
    pub author_id: u64,
    pub timestamp: i64,
    pub kind: ArchivedMessageType,
    pub message_reference: Option<MessageReference>,
    pub webhook_id: Option<u64>,
    pub application_id: Option<u64>,
    pub interaction: Option<MessageInteraction>,
    pub iterations: Vec<ArchivedMessageIteration>,
    pub marked_as_edited: bool,
    /// When the deletion was observed, if a time was known.
    pub deleted_timestamp: Option<i64>,
}

/// A message first heard of when it was edited.
#[derive(Clone, Debug, PartialEq)]
pub struct ArchivedMessageIncomplete {
    pub id: u64,
    pub channel_id: u64,
    pub guild_id: Option<u64>,
    pub author_id: u64,
    pub timestamp: i64,
    pub iterations: Vec<ArchivedMessageIteration>,
    pub marked_as_edited: bool,
}

/// An Incomplete record after its message was deleted.
#[derive(Clone, Debug, PartialEq)]
pub struct ArchivedMessageIncompleteDeleted {
    pub id: u64,
    pub channel_id: u64,
    pub guild_id: Option<u64>,
    pub author_id: u64,
    pub timestamp: i64,
    pub iterations: Vec<ArchivedMessageIteration>,
    pub marked_as_edited: bool,
    pub deleted_timestamp: Option<i64>,
}

/// A deletion observed for a message the store holds nothing about.
#[derive(Clone, Debug, PartialEq)]
pub struct ArchivedMessageUnknownDeleted {
    pub id: u64,
    pub channel_id: u64,
    pub guild_id: Option<u64>,
    pub deleted_timestamp: Option<i64>,
}

/// One captured revision of a message's mutable content.
#[derive(Clone, Debug, PartialEq)]
pub struct ArchivedMessageIteration {
    /// When the revision was observed, or when the platform says it was made.
    pub timestamp: i64,
    /// Whether revisions between this iteration and the previous one may have
    /// been missed while no archiver was connected.
    pub may_contain_gap: bool,
    /// The archiver run that captured this iteration, used only to judge
    /// whether a continuity gap is possible.
    pub session_id: u128,

    // The facets that change under editing.
    pub content: String,
    pub attachments: Vec<String>,
    pub embeds: Vec<String>,
    pub components: Vec<String>,
    pub sticker_items: Vec<String>,
}

/// A reference from one message to another, as on a reply.
#[derive(Clone, Copy, Debug, PartialEq, Eq, Structural)]
pub struct MessageReference {
    pub message_id: Option<u64>,
    pub channel_id: u64,
    pub guild_id: Option<u64>,
}

/// The command invocation a message responds to, if any.
#[derive(Clone, Debug, PartialEq)]
pub struct MessageInteraction {
    pub id: u64,
    pub kind: u64,
    pub name: String,
    pub user_id: u64,
}

/// The platform's message subtype, mirroring its numeric wire codes.
#[derive(Clone, Copy, Debug, PartialEq, Eq, Structural, Hash)]
pub enum ArchivedMessageType {
    Regular,
    GroupRecipientAddition,
    GroupRecipientRemoval,
    GroupCallCreation,
    GroupNameUpdate,
    GroupIconUpdate,
    PinsAdd,
    MemberJoin,
    NitroBoost,
    NitroTier1,
    NitroTier2,
    NitroTier3,
    ChannelFollowAdd,
    GuildDiscoveryDisqualified,
    GuildDiscoveryRequalified,
    GuildDiscoveryGracePeriodInitialWarning,
    GuildDiscoveryGracePeriodFinalWarning,
    ThreadCreated,
    InlineReply,
    ChatInputCommand,
    ThreadStarterMessage,
    GuildInviteReminder,
    ContextMenuCommand,
    AutoModerationAction,
    Unknown,
}

/// The subtype a given platform wire code stands for; codes the model does
/// not distinguish map to `Unknown`.
pub open spec fn spec_type_from_code(code: u64) -> ArchivedMessageType {
    match code {
        0u64 => ArchivedMessageType::Regular,
        1u64 => ArchivedMessageType::GroupRecipientAddition,
        2u64 => ArchivedMessageType::GroupRecipientRemoval,
        3u64 => ArchivedMessageType::GroupCallCreation,
        4u64 => ArchivedMessageType::GroupNameUpdate,
        5u64 => ArchivedMessageType::GroupIconUpdate,
        6u64 => ArchivedMessageType::PinsAdd,
        7u64 => ArchivedMessageType::MemberJoin,
        8u64 => ArchivedMessageType::NitroBoost,
        9u64 => ArchivedMessageType::NitroTier1,
        10u64 => ArchivedMessageType::NitroTier2,
        11u64 => ArchivedMessageType::NitroTier3,
        12u64 => ArchivedMessageType::ChannelFollowAdd,
        14u64 => ArchivedMessageType::GuildDiscoveryDisqualified,
        15u64 => ArchivedMessageType::GuildDiscoveryRequalified,
        16u64 => ArchivedMessageType::GuildDiscoveryGracePeriodInitialWarning,
        17u64 => ArchivedMessageType::GuildDiscoveryGracePeriodFinalWarning,
        18u64 => ArchivedMessageType::ThreadCreated,
        19u64 => ArchivedMessageType::InlineReply,
        20u64 => ArchivedMessageType::ChatInputCommand,
        21u64 => ArchivedMessageType::ThreadStarterMessage,
        22u64 => ArchivedMessageType::GuildInviteReminder,
        23u64 => ArchivedMessageType::ContextMenuCommand,
        24u64 => ArchivedMessageType::AutoModerationAction,
        _ => ArchivedMessageType::Unknown,
    }
}

impl ArchivedMessageType {
    /// Decodes the platform's numeric message-type code.
    pub fn from_code(code: u64) -> (r: Self)
        ensures
            r == spec_type_from_code(code),
    {
        match code {
            0u64 => ArchivedMessageType::Regular,
            1u64 => ArchivedMessageType::GroupRecipientAddition,
            2u64 => ArchivedMessageType::GroupRecipientRemoval,
            3u64 => ArchivedMessageType::GroupCallCreation,
            4u64 => ArchivedMessageType::GroupNameUpdate,
            5u64 => ArchivedMessageType::GroupIconUpdate,
            6u64 => ArchivedMessageType::PinsAdd,
            7u64 => ArchivedMessageType::MemberJoin,
            8u64 => ArchivedMessageType::NitroBoost,
            9u64 => ArchivedMessageType::NitroTier1,
            10u64 => ArchivedMessageType::NitroTier2,
            11u64 => ArchivedMessageType::NitroTier3,
            12u64 => ArchivedMessageType::ChannelFollowAdd,
            14u64 => ArchivedMessageType::GuildDiscoveryDisqualified,
            15u64 => ArchivedMessageType::GuildDiscoveryRequalified,
            16u64 => ArchivedMessageType::GuildDiscoveryGracePeriodInitialWarning,
            17u64 => ArchivedMessageType::GuildDiscoveryGracePeriodFinalWarning,
            18u64 => ArchivedMessageType::ThreadCreated,
            19u64 => ArchivedMessageType::InlineReply,
            20u64 => ArchivedMessageType::ChatInputCommand,
            21u64 => ArchivedMessageType::ThreadStarterMessage,
            22u64 => ArchivedMessageType::GuildInviteReminder,
            23u64 => ArchivedMessageType::ContextMenuCommand,
            24u64 => ArchivedMessageType::AutoModerationAction,
            _ => ArchivedMessageType::Unknown,
        }
    }
}

impl ArchivedMessage {
    /// The iteration log is never empty on a variant that carries one; a
    /// freshly founded record holds exactly its founding iteration, which
    /// satisfies this too.
    pub open spec fn well_formed(&self) -> bool {
        match self {
            ArchivedMessage::Full(f) => f.iterations@.len() >= 1,
            ArchivedMessage::FullDeleted(d) => d.iterations@.len() >= 1,
            ArchivedMessage::Incomplete(x) => x.iterations@.len() >= 1,
            ArchivedMessage::IncompleteDeleted(d) => d.iterations@.len() >= 1,
            ArchivedMessage::UnknownDeleted(_) => true,
        }
    }
}

/// `d` is `f` promoted to its deleted counterpart: every field carried over
/// unchanged, with `ts` recorded as the deletion time.
pub open spec fn full_promoted_to_deleted(
    f: ArchivedMessageFull,
    d: ArchivedMessageFullDeleted,
    ts: Option<i64>,
) -> bool {
    &&& d.id == f.id
    &&& d.channel_id == f.channel_id
    &&& d.guild_id == f.guild_id
    &&& d.author_id == f.author_id
    &&& d.timestamp == f.timestamp
    &&& d.kind == f.kind
    &&& d.message_reference == f.message_reference
    &&& d.webhook_id == f.webhook_id
    &&& d.application_id == f.application_id
    &&& d.interaction == f.interaction
    &&& d.iterations@ == f.iterations@
    &&& d.marked_as_edited == f.marked_as_edited
    &&& d.deleted_timestamp == ts
}

/// `d` is `x` promoted to its deleted counterpart: every field carried over
/// unchanged, with `ts` recorded as the deletion time.
pub open spec fn incomplete_promoted_to_deleted(
    x: ArchivedMessageIncomplete,
    d: ArchivedMessageIncompleteDeleted,
    ts: Option<i64>,
) -> bool {
    &&& d.id == x.id
    &&& d.channel_id == x.channel_id
    &&& d.guild_id == x.guild_id
    &&& d.author_id == x.author_id
    &&& d.timestamp == x.timestamp
    &&& d.iterations@ == x.iterations@
    &&& d.marked_as_edited == x.marked_as_edited
    &&& d.deleted_timestamp == ts
}

impl ArchivedMessageFull {
    /// Promotes this record to its deleted counterpart, consuming it so the
    /// undeleted value cannot live on beside the deleted one.
    pub fn into_deleted(self, timestamp: Option<i64>) -> (r: ArchivedMessageFullDeleted)
        ensures
            full_promoted_to_deleted(self, r, timestamp),
    {
        ArchivedMessageFullDeleted {
            id: self.id,
            channel_id: self.channel_id,
            guild_id: self.guild_id,
            author_id: self.author_id,
            timestamp: self.timestamp,
            kind: self.kind,
            message_reference: self.message_reference,
            webhook_id: self.webhook_id,
            application_id: self.application_id,
            interaction: self.interaction,
            iterations: self.iterations,
            marked_as_edited: self.marked_as_edited,
            deleted_timestamp: timestamp,
        }
    }
}

impl ArchivedMessageFullDeleted {
    /// Builds the deleted counterpart of `message`, consuming it.
    pub fn from_undeleted(message: ArchivedMessageFull, timestamp: Option<i64>) -> (r: Self)
        ensures
            full_promoted_to_deleted(message, r, timestamp),
    {
        message.into_deleted(timestamp)
    }
}

impl ArchivedMessageIncomplete {
    /// Promotes this record to its deleted counterpart, consuming it so the
    /// undeleted value cannot live on beside the deleted one.
    pub fn into_deleted(self, timestamp: Option<i64>) -> (r: ArchivedMessageIncompleteDeleted)
        ensures
            incomplete_promoted_to_deleted(self, r, timestamp),
    {
        ArchivedMessageIncompleteDeleted {
            id: self.id,
            channel_id: self.channel_id,
            guild_id: self.guild_id,
            author_id: self.author_id,
            timestamp: self.timestamp,
            iterations: self.iterations,
            marked_as_edited: self.marked_as_edited,
            deleted_timestamp: timestamp,
        }
    }
}

impl ArchivedMessageIncompleteDeleted {
    /// Builds the deleted counterpart of `undeleted`, consuming it.
    pub fn from_undeleted(undeleted: ArchivedMessageIncomplete, timestamp: Option<i64>) -> (r: Self)
        ensures
            incomplete_promoted_to_deleted(undeleted, r, timestamp),
    {
        undeleted.into_deleted(timestamp)
    }
}

} // verus!
