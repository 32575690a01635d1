use monster_sdk::options::{room_create_options_new, Visibility};
use monster_sdk::room::{Room, RoomListRoom, RoomState, RoomType};
use monster_sdk::timeline::{decimal, EventContent, TimelineItem, VirtualItem, MAX_MILLIS};
use monster_sdk::tombstone::{RoomTombstoneEventContent, Tombstone};

fn room(name: Option<&str>) -> Room {
    Room {
        room_id: "!r:x".to_string(),
        name: name.map(|n| n.to_string()),
        topic: None,
        membership: RoomState::Invited,
        kind: Some(RoomType::Space),
        tombstone_content: None,
        unread_messages: 4,
        unread_mentions: 1,
        favourite: true,
        low_priority: false,
    }
}

#[test]
fn room_accessors() {
    let r = room(Some("Lobby"));
    assert_eq!(r.id(), "!r:x");
    assert_eq!(r.display_name(), "Lobby");
    assert_eq!(room(None).display_name(), "!r:x");
    assert_eq!(r.state(), 2);
    assert!(r.is_space());
    assert_eq!(r.room_type(), "m.space");
    assert_eq!(r.topic(), "");
    assert_eq!(r.num_unread_messages(), 4);
    assert_eq!(r.num_unread_mentions(), 1);
    assert!(r.is_favourite());
    assert!(!r.is_low_priority());
    assert!(!r.is_tombstoned());
    assert_eq!(r.tombstone().body(), "");
    assert_eq!(r.tombstone().replacement_room(), "");
}

#[test]
fn room_list_entry_accessors() {
    let e = RoomListRoom {
        room_id: "!q:x".to_string(),
        name: None,
        topic: Some("talk".to_string()),
        membership: RoomState::Banned,
        kind: Some(RoomType::Custom),
        tombstone_content: Some(Tombstone {
            body: "moved".to_string(),
            replacement_room: "!new:x".to_string(),
        }),
        unread_messages: 0,
        unread_mentions: 0,
        favourite: false,
        low_priority: true,
        alias: Some("#q:x".to_string()),
    };
    assert_eq!(e.display_name(), "!q:x");
    assert_eq!(e.state(), 4);
    assert_eq!(e.room_type(), "custom");
    assert!(!e.is_space());
    assert_eq!(e.topic(), "talk");
    assert!(e.is_tombstoned());
    let t = e.tombstone();
    assert_eq!(t.body(), "moved");
    assert_eq!(t.replacement_room(), "!new:x");
    assert_eq!(e.canonical_alias(), "#q:x");
    assert!(e.is_low_priority());
    let copy = e.box_me();
    assert_eq!(copy.id(), "!q:x");
    assert_eq!(copy.canonical_alias(), "#q:x");
    assert_eq!(copy.tombstone().body(), "moved");
}

#[test]
fn room_states_and_types() {
    let states = [RoomState::Joined, RoomState::Left, RoomState::Invited, RoomState::Knocked, RoomState::Banned];
    for (i, s) in states.iter().enumerate() {
        let mut r = room(None);
        r.membership = *s;
        assert_eq!(r.state() as usize, i);
    }
    let mut r = room(None);
    r.kind = Some(RoomType::Other);
    assert_eq!(r.room_type(), "");
    r.kind = None;
    assert_eq!(r.room_type(), "");
    assert!(!r.is_space());
}

#[test]
fn empty_tombstone() {
    let t = RoomTombstoneEventContent::empty();
    assert_eq!(t.body(), "");
    assert_eq!(t.replacement_room(), "");
}

#[test]
fn timeline_item_texts() {
    let msg = TimelineItem::Event {
        event_id: Some("$e1".to_string()),
        content: EventContent::Message { body: "hello".to_string() },
        timestamp_millis: 947638923004,
    };
    assert_eq!(msg.id(), "$e1");
    assert_eq!(msg.body(), "hello");
    assert_eq!(msg.timestamp(), "2000-01-12T01:02:03.004+00:00");
    let other = TimelineItem::Event {
        event_id: None,
        content: EventContent::Other { description: "Sticker".to_string() },
        timestamp_millis: 0,
    };
    assert_eq!(other.id(), "");
    assert_eq!(other.body(), "Sticker");
    assert_eq!(other.timestamp(), "1970-01-01T00:00:00+00:00");
    let divider = TimelineItem::Virtual { item: VirtualItem::DateDivider { millis: 1700000000000 } };
    assert_eq!(divider.body(), "1700000000000");
    assert_eq!(divider.timestamp(), "");
    assert_eq!(divider.id(), "");
    let marker = TimelineItem::Virtual { item: VirtualItem::ReadMarker };
    assert_eq!(marker.body(), "Readmarker");
    let start = TimelineItem::Virtual { item: VirtualItem::TimelineStart };
    assert_eq!(start.body(), "Timelinestart");
}

#[test]
fn timestamp_out_of_range_is_empty() {
    let far = TimelineItem::Event {
        event_id: None,
        content: EventContent::Message { body: String::new() },
        timestamp_millis: u64::MAX,
    };
    assert_eq!(far.timestamp(), "");
}

fn event_at(millis: u64) -> TimelineItem {
    TimelineItem::Event {
        event_id: None,
        content: EventContent::Message { body: String::new() },
        timestamp_millis: millis,
    }
}

#[test]
fn timestamp_at_the_end_of_the_range() {
    assert_eq!(event_at(MAX_MILLIS).timestamp(), "+262142-12-31T23:59:59.999+00:00");
    assert_eq!(event_at(MAX_MILLIS + 1).timestamp(), "");
}

#[test]
fn decimal_text() {
    assert_eq!(decimal(0), "0");
    assert_eq!(decimal(7), "7");
    assert_eq!(decimal(10), "10");
    assert_eq!(decimal(1234567890), "1234567890");
    assert_eq!(decimal(u64::MAX), "18446744073709551615");
}

#[test]
fn room_create_options() {
    let mut o = room_create_options_new();
    assert_eq!(o.visibility, Visibility::Private);
    o.set_name("n".to_string());
    o.set_topic("t".to_string());
    o.set_room_alias("a".to_string());
    o.set_invite(vec!["@b:x".to_string()]);
    o.set_visibility_public(true);
    assert_eq!(o.name.as_deref(), Some("n"));
    assert_eq!(o.topic.as_deref(), Some("t"));
    assert_eq!(o.room_alias_name.as_deref(), Some("a"));
    assert_eq!(o.invite, vec!["@b:x".to_string()]);
    assert_eq!(o.visibility, Visibility::Public);
    o.set_visibility_public(false);
    assert_eq!(o.visibility, Visibility::Private);
}
