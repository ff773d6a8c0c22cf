use message_archiver::event::{GatewayEvent, GatewayMessage, MessageUpdate};
use message_archiver::merge::{merge, MergeOutcome};
use message_archiver::record::{ArchivedMessage, ArchivedMessageType};
use message_archiver::translate::ArchivedMessageIncompleteFromSerenityError;

const SESSION: u128 = 0xfeed_beef;

fn creation(id: u64, content: &str) -> GatewayMessage {
    GatewayMessage {
        id,
        channel_id: 10,
        guild_id: Some(20),
        author_id: 30,
        timestamp: 1_000,
        kind: ArchivedMessageType::Regular,
        message_reference: None,
        webhook_id: None,
        application_id: None,
        interaction: None,
        content: content.to_string(),
        attachments: Vec::new(),
        embeds: Vec::new(),
        components: Vec::new(),
        sticker_items: Vec::new(),
    }
}

fn edit(id: u64, content: &str) -> MessageUpdate {
    MessageUpdate {
        id,
        channel_id: 10,
        guild_id: Some(20),
        author_id: Some(30),
        timestamp: Some(1_000),
        edited_timestamp: Some(2_000),
        content: Some(content.to_string()),
        attachments: None,
        embeds: None,
        components: None,
        sticker_items: None,
    }
}

fn delete(id: u64) -> GatewayEvent {
    GatewayEvent::Delete { channel_id: 10, message_id: id, guild_id: Some(20) }
}

#[test]
fn create_then_edit_then_delete() {
    let r = merge(None, GatewayEvent::Create(creation(1, "hi")), 1_000, SESSION);
    let full = match r {
        MergeOutcome::Store(ArchivedMessage::Full(f)) => f,
        other => panic!("expected a Full record, got {other:?}"),
    };
    assert_eq!(full.id, 1);
    assert_eq!(full.iterations.len(), 1);
    assert_eq!(full.iterations[0].content, "hi");
    assert!(!full.marked_as_edited);

    let r = merge(
        Some(ArchivedMessage::Full(full)),
        GatewayEvent::Edit(edit(1, "hi!")),
        2_000,
        SESSION,
    );
    let full = match r {
        MergeOutcome::Store(ArchivedMessage::Full(f)) => f,
        other => panic!("expected a Full record, got {other:?}"),
    };
    assert_eq!(full.iterations.len(), 2);
    assert_eq!(full.iterations[0].content, "hi");
    assert_eq!(full.iterations[1].content, "hi!");
    assert!(full.marked_as_edited);

    let r = merge(Some(ArchivedMessage::Full(full)), delete(1), 3_000, SESSION);
    let deleted = match r {
        MergeOutcome::Store(ArchivedMessage::FullDeleted(d)) => d,
        other => panic!("expected a FullDeleted record, got {other:?}"),
    };
    assert_eq!(deleted.iterations.len(), 2);
    assert_eq!(deleted.iterations[0].content, "hi");
    assert_eq!(deleted.iterations[1].content, "hi!");
    assert_eq!(deleted.deleted_timestamp, Some(3_000));
}

#[test]
fn edit_without_prior_record_founds_incomplete() {
    let mut u = edit(2, "edited");
    u.author_id = Some(77);
    u.timestamp = Some(5_000);
    let r = merge(None, GatewayEvent::Edit(u), 9_000, SESSION);
    let inc = match r {
        MergeOutcome::Store(ArchivedMessage::Incomplete(x)) => x,
        other => panic!("expected an Incomplete record, got {other:?}"),
    };
    assert_eq!(inc.id, 2);
    assert_eq!(inc.author_id, 77);
    assert_eq!(inc.timestamp, 5_000);
    assert_eq!(inc.iterations.len(), 1);
    assert_eq!(inc.iterations[0].content, "edited");
    assert!(inc.marked_as_edited);
}

#[test]
fn edit_without_author_is_rejected() {
    let mut u = edit(2, "edited");
    u.author_id = None;
    let r = merge(None, GatewayEvent::Edit(u), 9_000, SESSION);
    assert_eq!(
        r,
        MergeOutcome::SkipTranslation(ArchivedMessageIncompleteFromSerenityError::NoAuthor)
    );
}

#[test]
fn edit_without_timestamp_is_rejected() {
    let mut u = edit(2, "edited");
    u.timestamp = None;
    let r = merge(None, GatewayEvent::Edit(u), 9_000, SESSION);
    assert_eq!(
        r,
        MergeOutcome::SkipTranslation(ArchivedMessageIncompleteFromSerenityError::NoTimestamp)
    );
}

#[test]
fn delete_without_prior_record_leaves_unknown_deleted() {
    let r = merge(None, delete(3), 4_500, SESSION);
    let d = match r {
        MergeOutcome::Store(ArchivedMessage::UnknownDeleted(d)) => d,
        other => panic!("expected an UnknownDeleted record, got {other:?}"),
    };
    assert_eq!(d.id, 3);
    assert_eq!(d.channel_id, 10);
    assert_eq!(d.guild_id, Some(20));
    assert_eq!(d.deleted_timestamp, Some(4_500));
}

#[test]
fn edit_appends_to_incomplete() {
    let r = merge(None, GatewayEvent::Edit(edit(4, "first")), 1_000, SESSION);
    let inc = match r {
        MergeOutcome::Store(ArchivedMessage::Incomplete(x)) => x,
        other => panic!("expected an Incomplete record, got {other:?}"),
    };
    let r = merge(
        Some(ArchivedMessage::Incomplete(inc)),
        GatewayEvent::Edit(edit(4, "second")),
        2_000,
        SESSION,
    );
    let inc = match r {
        MergeOutcome::Store(ArchivedMessage::Incomplete(x)) => x,
        other => panic!("expected an Incomplete record, got {other:?}"),
    };
    assert_eq!(inc.iterations.len(), 2);
    assert_eq!(inc.iterations[0].content, "first");
    assert_eq!(inc.iterations[1].content, "second");
}

#[test]
fn delete_promotes_incomplete() {
    let r = merge(None, GatewayEvent::Edit(edit(5, "body")), 1_000, SESSION);
    let inc = match r {
        MergeOutcome::Store(ArchivedMessage::Incomplete(x)) => x,
        other => panic!("expected an Incomplete record, got {other:?}"),
    };
    let r = merge(Some(ArchivedMessage::Incomplete(inc)), delete(5), 2_000, SESSION);
    let d = match r {
        MergeOutcome::Store(ArchivedMessage::IncompleteDeleted(d)) => d,
        other => panic!("expected an IncompleteDeleted record, got {other:?}"),
    };
    assert_eq!(d.iterations.len(), 1);
    assert_eq!(d.iterations[0].content, "body");
    assert_eq!(d.deleted_timestamp, Some(2_000));
}

#[test]
fn second_delete_is_anomalous_and_mutates_nothing() {
    let r = merge(None, GatewayEvent::Create(creation(6, "hi")), 1_000, SESSION);
    let full = match r {
        MergeOutcome::Store(ArchivedMessage::Full(f)) => f,
        other => panic!("expected a Full record, got {other:?}"),
    };
    let r = merge(Some(ArchivedMessage::Full(full)), delete(6), 2_000, SESSION);
    let deleted = match r {
        MergeOutcome::Store(ArchivedMessage::FullDeleted(d)) => d,
        other => panic!("expected a FullDeleted record, got {other:?}"),
    };
    let again = merge(
        Some(ArchivedMessage::FullDeleted(deleted.clone())),
        delete(6),
        3_000,
        SESSION,
    );
    assert_eq!(again, MergeOutcome::SkipAnomalous);
    // The record the store holds is still the one from the first deletion.
    assert_eq!(deleted.deleted_timestamp, Some(2_000));
    assert_eq!(deleted.iterations[0].content, "hi");
}

#[test]
fn edit_on_deleted_record_is_anomalous() {
    let r = merge(None, GatewayEvent::Create(creation(7, "hi")), 1_000, SESSION);
    let full = match r {
        MergeOutcome::Store(ArchivedMessage::Full(f)) => f,
        other => panic!("expected a Full record, got {other:?}"),
    };
    let r = merge(Some(ArchivedMessage::Full(full)), delete(7), 2_000, SESSION);
    let deleted = match r {
        MergeOutcome::Store(d) => d,
        other => panic!("expected a stored record, got {other:?}"),
    };
    let r = merge(Some(deleted), GatewayEvent::Edit(edit(7, "late")), 3_000, SESSION);
    assert_eq!(r, MergeOutcome::SkipAnomalous);
}

#[test]
fn bulk_delete_is_unhandled() {
    let ev = GatewayEvent::BulkDelete {
        channel_id: 10,
        message_ids: vec![1, 2, 3],
        guild_id: Some(20),
    };
    assert_eq!(merge(None, ev, 1_000, SESSION), MergeOutcome::SkipUnhandled);
}

#[test]
fn edit_flag_follows_the_edit_event() {
    // An edit that does not carry the platform's edited timestamp leaves the
    // flag clear on a Full record.
    let r = merge(None, GatewayEvent::Create(creation(8, "hi")), 1_000, SESSION);
    let full = match r {
        MergeOutcome::Store(ArchivedMessage::Full(f)) => f,
        other => panic!("expected a Full record, got {other:?}"),
    };
    let mut u = edit(8, "hi!");
    u.edited_timestamp = None;
    let r = merge(Some(ArchivedMessage::Full(full)), GatewayEvent::Edit(u), 2_000, SESSION);
    let full = match r {
        MergeOutcome::Store(ArchivedMessage::Full(f)) => f,
        other => panic!("expected a Full record, got {other:?}"),
    };
    assert!(!full.marked_as_edited);
    // With no edited timestamp the iteration is stamped with the receipt time.
    assert_eq!(full.iterations[1].timestamp, 2_000);
}

#[test]
fn unreported_facets_default_to_empty() {
    let mut u = edit(9, "kept");
    u.content = None;
    u.attachments = Some(vec!["one attachment".to_string()]);
    let r = merge(None, GatewayEvent::Edit(u), 1_000, SESSION);
    let inc = match r {
        MergeOutcome::Store(ArchivedMessage::Incomplete(x)) => x,
        other => panic!("expected an Incomplete record, got {other:?}"),
    };
    let it = &inc.iterations[0];
    assert_eq!(it.content, "");
    assert_eq!(it.attachments, vec!["one attachment".to_string()]);
    assert!(it.embeds.is_empty());
    assert!(it.components.is_empty());
    assert!(it.sticker_items.is_empty());
    assert!(!it.may_contain_gap);
    assert_eq!(it.session_id, SESSION);
}
