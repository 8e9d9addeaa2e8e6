use matrix_core::api::matrix_init_client;
use matrix_core::diffs::VectorDiff;
use matrix_core::errors::CoreError;
use matrix_core::rooms::{
    assemble_room_updates, get_all_rooms, get_room_update_data, recompute_room_infos, room_present,
    room_updates_for, RoomEntry, UpdateType,
};
use matrix_core::session::MatrixClientConfig;
use matrix_core::sync_service::{
    get_timeline_items_by_room_id, handle_room_list_batch, handle_timeline_batch, App,
};
use matrix_core::timelines::{
    EventItem, Message, MessageType, TimelineItemType, TimelineItems, VirtualItem,
};

fn room(id: &str) -> RoomEntry {
    RoomEntry {
        room_id: String::from(id),
        raw_name: None,
        display_name: None,
        is_dm: None,
        membership: UpdateType::Joined,
        topic: None,
        member_count: 1,
        unread_notifications: 0,
        unread_highlight: 0,
        unread_mentions: 0,
        unread_messages: 0,
        latest_event: None,
    }
}

fn named_room(id: &str, name: &str, ts: u64) -> RoomEntry {
    let mut r = room(id);
    r.raw_name = Some(String::from(name));
    r.display_name = Some(String::from(name));
    r.is_dm = Some(false);
    r.latest_event = Some(Message {
        event_id: String::from("$e"),
        sender: String::from("@u:example.org"),
        content: String::from("hi"),
        timestamp: ts,
        message_type: MessageType::Message,
    });
    r
}

fn event_item(id: &str, sender: &str, body: &str, ts: u64) -> TimelineItems {
    TimelineItems {
        kind: TimelineItemType::Event(EventItem {
            event_id: Some(String::from(id)),
            sender: String::from(sender),
            body: Some(String::from(body)),
            timestamp: ts,
        }),
        internal_id: String::from(id),
    }
}

fn configured_app() -> App {
    let mut app = App::new();
    let config = MatrixClientConfig {
        homeserver_url: String::from("https://example.org"),
        storage_path: String::from("/tmp/s1"),
    };
    assert_eq!(matrix_init_client(&mut app, config), Ok(true));
    app
}

#[test]
fn configure_then_append_one_room() {
    // Configure, see an empty room list, apply one Append batch, and see
    // exactly one room with the appended identifier.
    let mut app = configured_app();
    assert_eq!(get_all_rooms(&app.room_list).len(), 0);
    let created = handle_room_list_batch(
        &mut app,
        vec![VectorDiff::Append(vec![room("!a:example.org")])],
    )
    .expect("valid batch");
    assert_eq!(created, vec![String::from("!a:example.org")]);
    let rooms = get_all_rooms(&app.room_list);
    assert_eq!(rooms.len(), 1);
    assert_eq!(rooms[0].room_id, "!a:example.org");
}

#[test]
fn room_list_batches_need_a_session() {
    let mut app = App::new();
    assert_eq!(
        handle_room_list_batch(&mut app, vec![VectorDiff::Append(vec![room("!a:example.org")])]),
        Err(CoreError::NotInitialized)
    );
}

#[test]
fn a_corrupt_room_batch_is_a_protocol_failure() {
    let mut app = configured_app();
    assert_eq!(
        handle_room_list_batch(&mut app, vec![VectorDiff::Remove(3)]),
        Err(CoreError::ProtocolFailure)
    );
    assert_eq!(app.room_list.rooms.len(), 0);
}

#[test]
fn metadata_follows_the_room_collection() {
    let mut app = configured_app();
    handle_room_list_batch(
        &mut app,
        vec![VectorDiff::Append(vec![
            named_room("!a:example.org", "alpha", 10),
            room("!b:example.org"),
        ])],
    )
    .expect("valid batch");
    assert_eq!(app.room_list.room_infos.len(), 2);
    assert_eq!(app.room_list.room_infos[0].room_id, "!a:example.org");
    assert_eq!(
        app.room_list.room_infos[0].info.display_name.as_deref(),
        Some("alpha")
    );
    assert_eq!(app.room_list.room_infos[0].info.is_dm, Some(false));
    // The membership check for the second room has not succeeded: its flag
    // stays absent, which blocks nothing.
    assert!(app.room_list.room_infos[1].info.is_dm.is_none());
}

#[test]
fn recompute_room_infos_mirrors_entries() {
    let rooms = vec![named_room("!a:example.org", "alpha", 1)];
    let infos = recompute_room_infos(&rooms);
    assert_eq!(infos.len(), 1);
    assert_eq!(infos[0].room_id, "!a:example.org");
    assert_eq!(infos[0].info.raw_name.as_deref(), Some("alpha"));
}

#[test]
fn lookup_by_identifier() {
    let mut app = configured_app();
    handle_room_list_batch(
        &mut app,
        vec![VectorDiff::Append(vec![room("!a:example.org"), room("!b:example.org")])],
    )
    .expect("valid batch");
    let found = app
        .room_list
        .get_room_by_id(&String::from("!b:example.org"))
        .expect("present");
    assert_eq!(found.room_id, "!b:example.org");
    assert!(app.room_list.get_room_by_id(&String::from("!c:example.org")).is_none());
    assert!(room_present(&app.room_list.rooms, &String::from("!a:example.org")));
}

#[test]
fn room_update_carries_the_entry_data() {
    let entry = named_room("!a:example.org", "alpha", 42);
    let update = get_room_update_data(&entry);
    assert_eq!(update.room_id, "!a:example.org");
    assert_eq!(update.display_name.as_deref(), Some("alpha"));
    assert_eq!(update.unread_notifications, Some(0));
    let synopsis = update.message.expect("always a synopsis");
    assert_eq!(synopsis.content, "hi");
    assert_eq!(synopsis.timestamp, 42);
}

#[test]
fn room_without_latest_event_gets_an_empty_synopsis() {
    let update = get_room_update_data(&room("!a:example.org"));
    let synopsis = update.message.expect("always a synopsis");
    assert_eq!(synopsis.event_id, "");
    assert_eq!(synopsis.sender, "");
    assert_eq!(synopsis.content, "");
    assert_eq!(synopsis.timestamp, 0);
}

#[test]
fn malformed_room_identifier_is_rejected_before_lookup() {
    let app = configured_app();
    assert!(matches!(
        get_timeline_items_by_room_id(&app, &String::from("nonsense")),
        Err(CoreError::MalformedInput)
    ));
    assert!(matches!(
        get_timeline_items_by_room_id(&app, &String::from("")),
        Err(CoreError::MalformedInput)
    ));
}

#[test]
fn feed_delivery_assembles_updates_in_list_order() {
    let mut app = configured_app();
    handle_room_list_batch(
        &mut app,
        vec![VectorDiff::Append(vec![
            named_room("!a:example.org", "alpha", 1),
            room("!b:example.org"),
            room("!c:example.org"),
        ])],
    )
    .expect("valid batch");

    let joined = vec![String::from("!a:example.org")];
    let invited = vec![
        String::from("!missing:example.org"),
        String::from("!c:example.org"),
    ];
    let left = vec![String::from("!b:example.org")];
    let updates = assemble_room_updates(&app.room_list, &joined, &invited, &left);
    // One update per registered identifier, joined then invited then left;
    // the unknown identifier is skipped, never failing the delivery.
    assert_eq!(updates.len(), 3);
    assert_eq!(updates[0].room_id, "!a:example.org");
    assert!(matches!(updates[0].update_type, UpdateType::Joined));
    assert_eq!(updates[0].display_name.as_deref(), Some("alpha"));
    assert_eq!(updates[1].room_id, "!c:example.org");
    assert!(matches!(updates[1].update_type, UpdateType::Invited));
    assert_eq!(updates[2].room_id, "!b:example.org");
    assert!(matches!(updates[2].update_type, UpdateType::Left));

    let none = room_updates_for(
        &app.room_list,
        &vec![String::from("!missing:example.org")],
        UpdateType::Joined,
    );
    assert_eq!(none.len(), 0);
}

#[test]
fn unknown_room_timeline_fails_with_room_not_found() {
    let app = configured_app();
    assert!(matches!(
        get_timeline_items_by_room_id(&app, &String::from("!nowhere:example.org")),
        Err(CoreError::RoomNotFound)
    ));
}

#[test]
fn timeline_snapshot_needs_a_session() {
    let app = App::new();
    assert!(matches!(
        get_timeline_items_by_room_id(&app, &String::from("!a:example.org")),
        Err(CoreError::NotInitialized)
    ));
}

#[test]
fn push_back_then_pop_front_leaves_an_empty_timeline() {
    // One event pushed onto an empty timeline and popped from the front
    // again leaves nothing.
    let mut app = configured_app();
    handle_room_list_batch(&mut app, vec![VectorDiff::Append(vec![room("!a:example.org")])])
        .expect("valid batch");
    let id = String::from("!a:example.org");
    handle_timeline_batch(
        &mut app,
        &id,
        vec![VectorDiff::PushBack(event_item("$1", "@u:example.org", "hi", 1000))],
    )
    .expect("valid batch");
    let after_push = get_timeline_items_by_room_id(&app, &id).expect("snapshot");
    assert_eq!(after_push.len(), 1);
    assert_eq!(after_push[0].event_id, "$1");
    assert_eq!(after_push[0].sender, "@u:example.org");
    assert_eq!(after_push[0].content, "hi");
    assert_eq!(after_push[0].timestamp, 1000);

    handle_timeline_batch(&mut app, &id, vec![VectorDiff::PopFront]).expect("valid batch");
    let after_pop = get_timeline_items_by_room_id(&app, &id).expect("snapshot");
    assert_eq!(after_pop.len(), 0);
}

#[test]
fn timeline_batch_for_unknown_room_fails() {
    let mut app = configured_app();
    assert_eq!(
        handle_timeline_batch(&mut app, &String::from("!a:example.org"), vec![VectorDiff::Clear]),
        Err(CoreError::RoomNotFound)
    );
}

#[test]
fn removed_room_leaves_no_listener_behind() {
    // A room introduced by one batch and removed by a later one leaves the
    // timeline manager without a timeline or listener task for it.
    let mut app = configured_app();
    handle_room_list_batch(
        &mut app,
        vec![VectorDiff::Append(vec![room("!a:example.org"), room("!b:example.org")])],
    )
    .expect("valid batch");
    assert_eq!(app.timelines.entries.len(), 2);
    assert!(app.timelines.entries.iter().all(|e| e.timeline.task_running));

    handle_room_list_batch(&mut app, vec![VectorDiff::Remove(0)]).expect("valid batch");
    assert_eq!(app.room_list.rooms.len(), 1);
    assert_eq!(app.timelines.entries.len(), 1);
    assert!(app
        .timelines
        .entries
        .iter()
        .all(|e| e.room_id != "!a:example.org"));
    assert_eq!(
        handle_timeline_batch(&mut app, &String::from("!a:example.org"), vec![VectorDiff::Clear]),
        Err(CoreError::RoomNotFound)
    );
}

#[test]
fn retained_rooms_keep_their_timelines_whole() {
    let mut app = configured_app();
    handle_room_list_batch(
        &mut app,
        vec![VectorDiff::Append(vec![room("!a:example.org"), room("!b:example.org")])],
    )
    .expect("valid batch");
    let id = String::from("!b:example.org");
    handle_timeline_batch(
        &mut app,
        &id,
        vec![VectorDiff::PushBack(event_item("$1", "@u:example.org", "kept", 5))],
    )
    .expect("valid batch");
    // Remove the other room; this room's items survive.
    handle_room_list_batch(&mut app, vec![VectorDiff::Remove(0)]).expect("valid batch");
    let items = get_timeline_items_by_room_id(&app, &id).expect("snapshot");
    assert_eq!(items.len(), 1);
    assert_eq!(items[0].content, "kept");
}

#[test]
fn only_first_observations_create_timelines() {
    let mut app = configured_app();
    let created_first =
        handle_room_list_batch(&mut app, vec![VectorDiff::Append(vec![room("!a:example.org")])])
            .expect("valid batch");
    assert_eq!(created_first.len(), 1);
    let created_second = handle_room_list_batch(
        &mut app,
        vec![VectorDiff::Append(vec![room("!b:example.org")])],
    )
    .expect("valid batch");
    // Only the newly observed room gets a timeline; the other keeps its own.
    assert_eq!(created_second, vec![String::from("!b:example.org")]);
    assert_eq!(app.timelines.entries.len(), 2);
}

#[test]
fn virtual_items_map_to_tagged_messages() {
    let divider = TimelineItems {
        kind: TimelineItemType::Virtual(VirtualItem::DateDivider(1000)),
        internal_id: String::from("v1"),
    };
    let m = matrix_core::timelines::get_message_from_timeline_item(&divider);
    assert!(matches!(m.message_type, MessageType::DateDivider));
    assert_eq!(m.event_id, "");
    assert_eq!(m.sender, "");
    assert_eq!(m.content, "1000");
    assert_eq!(m.timestamp, 1000);

    let marker = TimelineItems {
        kind: TimelineItemType::Virtual(VirtualItem::ReadMarker),
        internal_id: String::from("v2"),
    };
    let m2 = matrix_core::timelines::get_message_from_timeline_item(&marker);
    assert!(matches!(m2.message_type, MessageType::ReadMarker));
    assert_eq!(m2.content, "");

    let start = TimelineItems {
        kind: TimelineItemType::Virtual(VirtualItem::TimelineStart),
        internal_id: String::from("v3"),
    };
    let m3 = matrix_core::timelines::get_message_from_timeline_item(&start);
    assert!(matches!(m3.message_type, MessageType::TimelineStart));
}

#[test]
fn event_without_identity_maps_to_placeholders() {
    let item = TimelineItems {
        kind: TimelineItemType::Event(EventItem {
            event_id: None,
            sender: String::from("@u:example.org"),
            body: None,
            timestamp: 7,
        }),
        internal_id: String::from("x"),
    };
    let m = matrix_core::timelines::get_message_from_timeline_item(&item);
    assert_eq!(m.event_id, "unknown");
    assert_eq!(m.content, "");
    assert_eq!(m.timestamp, 7);
}
