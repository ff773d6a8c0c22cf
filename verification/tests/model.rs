use message_archiver::archiver::Archiver;
use message_archiver::config::Config;
use message_archiver::event::GatewayEvent;
use message_archiver::merge::MergeOutcome;
use message_archiver::record::ArchivedMessage;
use message_archiver::record::{
    ArchivedMessageFull, ArchivedMessageFullDeleted, ArchivedMessageIncomplete,
    ArchivedMessageIncompleteDeleted, ArchivedMessageIteration, ArchivedMessageType,
};
use message_archiver::translate::convert_ts;

fn sample_iteration(content: &str) -> ArchivedMessageIteration {
    ArchivedMessageIteration {
        timestamp: 1_000,
        may_contain_gap: false,
        session_id: 42,
        content: content.to_string(),
        attachments: vec!["a".to_string()],
        embeds: Vec::new(),
        components: Vec::new(),
        sticker_items: Vec::new(),
    }
}

fn sample_full() -> ArchivedMessageFull {
    ArchivedMessageFull {
        id: 1,
        channel_id: 2,
        guild_id: Some(3),
        author_id: 4,
        timestamp: 1_000,
        kind: ArchivedMessageType::InlineReply,
        message_reference: None,
        webhook_id: Some(5),
        application_id: None,
        interaction: None,
        iterations: vec![sample_iteration("hello")],
        marked_as_edited: true,
    }
}

fn sample_incomplete() -> ArchivedMessageIncomplete {
    ArchivedMessageIncomplete {
        id: 1,
        channel_id: 2,
        guild_id: None,
        author_id: 4,
        timestamp: 1_000,
        iterations: vec![sample_iteration("hello")],
        marked_as_edited: true,
    }
}

#[test]
fn into_deleted_preserves_full_fields() {
    let full = sample_full();
    let expected = full.clone();
    let d = full.into_deleted(Some(9_000));
    assert_eq!(d.id, expected.id);
    assert_eq!(d.channel_id, expected.channel_id);
    assert_eq!(d.guild_id, expected.guild_id);
    assert_eq!(d.author_id, expected.author_id);
    assert_eq!(d.timestamp, expected.timestamp);
    assert_eq!(d.kind, expected.kind);
    assert_eq!(d.webhook_id, expected.webhook_id);
    assert_eq!(d.iterations, expected.iterations);
    assert_eq!(d.marked_as_edited, expected.marked_as_edited);
    assert_eq!(d.deleted_timestamp, Some(9_000));
}

#[test]
fn from_undeleted_matches_into_deleted() {
    let a = ArchivedMessageFullDeleted::from_undeleted(sample_full(), None);
    let b = sample_full().into_deleted(None);
    assert_eq!(a, b);
    assert_eq!(a.deleted_timestamp, None);
}

#[test]
fn incomplete_into_deleted_preserves_fields() {
    let inc = sample_incomplete();
    let expected = inc.clone();
    let d = inc.into_deleted(Some(9_000));
    assert_eq!(d.id, expected.id);
    assert_eq!(d.author_id, expected.author_id);
    assert_eq!(d.iterations, expected.iterations);
    assert_eq!(d.deleted_timestamp, Some(9_000));
    let e = ArchivedMessageIncompleteDeleted::from_undeleted(sample_incomplete(), Some(9_000));
    assert_eq!(d, e);
}

#[test]
fn convert_ts_truncates_to_milliseconds() {
    assert_eq!(convert_ts(0), 0);
    assert_eq!(convert_ts(1_000_000), 1);
    assert_eq!(convert_ts(1_234_567_890), 1_234);
    assert_eq!(convert_ts(999_999), 0);
    assert_eq!(convert_ts(1_462_015_105_796_000_000), 1_462_015_105_796);
}

#[test]
fn convert_ts_admits_timestamps_before_the_epoch() {
    assert_eq!(convert_ts(-1), 0);
    assert_eq!(convert_ts(-999_999), 0);
    assert_eq!(convert_ts(-1_000_000), -1);
    assert_eq!(convert_ts(-1_500_000), -1);
    assert_eq!(convert_ts(-1_462_015_105_796_000_000), -1_462_015_105_796);
}

#[test]
fn message_type_codes_round_trip() {
    assert_eq!(ArchivedMessageType::from_code(0), ArchivedMessageType::Regular);
    assert_eq!(ArchivedMessageType::from_code(6), ArchivedMessageType::PinsAdd);
    // The platform never assigned this code; it maps to Unknown.
    assert_eq!(ArchivedMessageType::from_code(13), ArchivedMessageType::Unknown);
    assert_eq!(ArchivedMessageType::from_code(19), ArchivedMessageType::InlineReply);
    assert_eq!(
        ArchivedMessageType::from_code(24),
        ArchivedMessageType::AutoModerationAction
    );
    assert_eq!(ArchivedMessageType::from_code(9_999), ArchivedMessageType::Unknown);
}

#[test]
fn suppression_lists_are_checked_before_anything_else() {
    let archiver = Archiver {
        ignored_guilds: vec![100],
        ignored_channels: vec![200],
        session_id: 42,
    };
    assert!(archiver.is_event_ignored(200, None));
    assert!(archiver.is_event_ignored(200, Some(999)));
    assert!(archiver.is_event_ignored(201, Some(100)));
    assert!(!archiver.is_event_ignored(201, Some(999)));
    assert!(!archiver.is_event_ignored(201, None));
    // Without a guild id only the channel list applies.
    assert!(!archiver.is_event_ignored(100, None));
}

#[test]
fn handle_event_stamps_the_wall_clock() {
    let archiver = Archiver {
        ignored_guilds: Vec::new(),
        ignored_channels: Vec::new(),
        session_id: 42,
    };
    let r = archiver.handle_event(
        None,
        GatewayEvent::Delete { channel_id: 2, message_id: 1, guild_id: None },
    );
    let d = match r {
        MergeOutcome::Store(ArchivedMessage::UnknownDeleted(d)) => d,
        other => panic!("expected an UnknownDeleted record, got {other:?}"),
    };
    assert_eq!(d.id, 1);
    match d.deleted_timestamp {
        // The clock reading itself cannot be pinned down, but any real system
        // clock is well past the epoch.
        Some(ts) => assert!(ts > 0),
        None => panic!("deletion timestamp was not set"),
    }
}

#[test]
fn default_config_holds_the_placeholders() {
    let c = Config::default();
    assert_eq!(c.discor_token, "\u{1F480}");
    assert_eq!(c.mong_connstring, "skull emoji");
    assert!(c.guild_whitelist.is_empty());
}
