use matrix_core::api::{
    check_matrix_sdk_status, complete_create_room, complete_engine_action, complete_send,
    create_direct_room, create_group_room, create_sync_stream, get_matrix_config,
    get_sync_operations_status, greet, init_sync_stream, is_valid_room_id, is_valid_user_id,
    leave_room, matrix_create_room, matrix_get_messages, matrix_get_rooms, matrix_get_sync_status,
    matrix_init_client, matrix_join_room, matrix_send_message, room_timeline_of_item, send_message,
    sync_once, test_server_connectivity, timeline_paginate_backwards, timeline_paginate_forward,
    RoomTimeline, SyncEvent, SyncStream,
};
use matrix_core::diffs::VectorDiff;
use matrix_core::errors::CoreError;
use matrix_core::logger::{
    create_log_stream, init_logger, log_debug, log_error, log_info, log_message, log_warn, Logger,
    _log,
};
use matrix_core::rooms::{RoomEntry, UpdateType};
use matrix_core::session::{session_restored, MatrixClientConfig};
use matrix_core::status::{Status, StatusHandle, MESSAGE_DURATION_SECS};
use matrix_core::streams::{
    remove_timeline_stream, send_to_timeline_stream, set_timeline_stream, TimelineStreams,
};
use matrix_core::sync_service::{handle_room_list_batch, handle_timeline_batch, App};
use matrix_core::text::u64_to_dec;
use matrix_core::timelines::{
    translate_timeline_diff, EventItem, Message, MessageType, MessageUpdateType, TimelineItemType,
    TimelineItems, VirtualItem,
};
use matrix_core::user_search::{collect_user_search, search_users, USER_SEARCH_LIMIT};

fn room_with_latest(id: &str, ts: u64) -> RoomEntry {
    RoomEntry {
        room_id: String::from(id),
        raw_name: None,
        display_name: Some(String::from("room")),
        is_dm: Some(false),
        membership: UpdateType::Joined,
        topic: Some(String::from("topic")),
        member_count: 2,
        unread_notifications: 0,
        unread_highlight: 0,
        unread_mentions: 0,
        unread_messages: 0,
        latest_event: Some(Message {
            event_id: String::from("$e"),
            sender: String::from("@u:example.org"),
            content: String::from("hi"),
            timestamp: ts,
            message_type: MessageType::Message,
        }),
    }
}

fn configured_app() -> App {
    let mut app = App::new();
    let config = MatrixClientConfig {
        homeserver_url: String::from("https://example.org"),
        storage_path: String::from("/tmp/s1"),
    };
    assert_eq!(matrix_init_client(&mut app, config), Ok(true));
    app
}

fn event_item(id: &str, body: &str, ts: u64) -> TimelineItems {
    TimelineItems {
        kind: TimelineItemType::Event(EventItem {
            event_id: Some(String::from(id)),
            sender: String::from("@u:example.org"),
            body: Some(String::from(body)),
            timestamp: ts,
        }),
        internal_id: String::from(id),
    }
}

#[test]
fn greeting_embeds_the_name() {
    assert_eq!(greet(String::from("world")), "Hello, world!");
}

#[test]
fn status_texts_keep_their_openings() {
    assert!(check_matrix_sdk_status().starts_with("Matrix SDK Integration Status:"));
    assert!(get_matrix_config().starts_with("Matrix Configuration for Local Development:"));
    assert!(get_sync_operations_status().starts_with("Sync Operations Implementation Status:"));
    assert!(test_server_connectivity().starts_with("Server Connectivity Test:"));
    // The same call yields the same constant.
    assert_eq!(check_matrix_sdk_status(), check_matrix_sdk_status());
}

#[test]
fn decimal_rendering_is_exact() {
    assert_eq!(u64_to_dec(0), "0");
    assert_eq!(u64_to_dec(7), "7");
    assert_eq!(u64_to_dec(10), "10");
    assert_eq!(u64_to_dec(4200), "4200");
    assert_eq!(u64_to_dec(u64::MAX), "18446744073709551615");
}

#[test]
fn room_identifier_validation() {
    assert!(is_valid_room_id(&String::from("!a:example.org")));
    assert!(is_valid_room_id(&String::from("!ab:x")));
    assert!(!is_valid_room_id(&String::from("")));
    assert!(!is_valid_room_id(&String::from("!:x")));
    assert!(!is_valid_room_id(&String::from("a:example.org")));
    assert!(!is_valid_room_id(&String::from("!aexample")));
    assert!(!is_valid_room_id(&String::from("!ab:")));
}

#[test]
fn create_room_is_decided_locally_and_completed_by_the_engine() {
    let app = configured_app();
    assert_eq!(matrix_create_room(&app, String::from("team"), None), Ok(true));
    let unconfigured = App::new();
    assert_eq!(
        matrix_create_room(&unconfigured, String::from("team"), None),
        Err(CoreError::NotInitialized)
    );
    assert_eq!(
        complete_create_room(Some(String::from("!made:example.org"))),
        Ok(String::from("!made:example.org"))
    );
    assert_eq!(complete_create_room(None), Err(CoreError::ProtocolFailure));
}

#[test]
fn room_keyed_operations_validate_in_order() {
    let mut app = configured_app();
    handle_room_list_batch(
        &mut app,
        vec![VectorDiff::Append(vec![room_with_latest("!a:example.org", 1)])],
    )
    .expect("valid batch");

    assert_eq!(
        matrix_join_room(&App::new(), String::from("!a:example.org")),
        Err(CoreError::NotInitialized)
    );
    assert_eq!(
        matrix_join_room(&app, String::from("not-an-identifier")),
        Err(CoreError::MalformedInput)
    );
    assert_eq!(
        matrix_join_room(&app, String::from("!b:example.org")),
        Err(CoreError::RoomNotFound)
    );
    assert_eq!(matrix_join_room(&app, String::from("!a:example.org")), Ok(true));
    assert_eq!(leave_room(&app, String::from("!a:example.org")), Ok(true));
    assert_eq!(
        send_message(&app, String::from("!a:example.org"), String::from("hi")),
        Ok(true)
    );
    assert_eq!(
        matrix_send_message(&app, String::from("bad"), String::from("hi")),
        Err(CoreError::MalformedInput)
    );
}

#[test]
fn direct_and_group_room_creation_validate_user_ids() {
    let app = configured_app();
    assert!(is_valid_user_id(&String::from("@u:example.org")));
    assert!(!is_valid_user_id(&String::from("u:example.org")));
    assert!(!is_valid_user_id(&String::from("@u")));
    assert_eq!(
        create_direct_room(&App::new(), &String::from("@u:example.org")),
        Err(CoreError::NotInitialized)
    );
    assert_eq!(
        create_direct_room(&app, &String::from("nope")),
        Err(CoreError::MalformedInput)
    );
    assert_eq!(create_direct_room(&app, &String::from("@u:example.org")), Ok(true));
    assert_eq!(
        create_group_room(
            &app,
            &String::from("team"),
            &vec![String::from("@a:example.org"), String::from("bad")],
        ),
        Err(CoreError::MalformedInput)
    );
    assert_eq!(
        create_group_room(
            &app,
            &String::from("team"),
            &vec![String::from("@a:example.org"), String::from("@b:example.org")],
        ),
        Ok(true)
    );
    assert_eq!(create_group_room(&app, &String::from("solo"), &vec![]), Ok(true));
}

#[test]
fn pagination_and_one_shot_sync_decisions() {
    let mut app = configured_app();
    handle_room_list_batch(
        &mut app,
        vec![VectorDiff::Append(vec![room_with_latest("!a:example.org", 1)])],
    )
    .expect("valid batch");
    assert_eq!(
        timeline_paginate_forward(&app, String::from("!b:example.org")),
        Err(CoreError::RoomNotFound)
    );
    assert_eq!(timeline_paginate_forward(&app, String::from("!a:example.org")), Ok(true));
    assert_eq!(timeline_paginate_backwards(&app, String::from("!a:example.org")), Ok(true));
    assert_eq!(sync_once(&app), Err(CoreError::NotAuthenticated));
    session_restored(&mut app, true);
    assert_eq!(sync_once(&app), Ok(true));
    assert_eq!(sync_once(&App::new()), Err(CoreError::NotInitialized));
}

#[test]
fn sync_stream_can_be_installed_twice() {
    let mut stream = SyncStream::new();
    create_sync_stream(&mut stream);
    assert!(stream.installed);
    init_sync_stream(&mut stream);
    assert!(stream.installed);
}

#[test]
fn engine_completions_map_outcomes() {
    assert_eq!(complete_engine_action(true), Ok(true));
    assert_eq!(complete_engine_action(false), Err(CoreError::ProtocolFailure));
    assert_eq!(
        complete_send(Some(String::from("$done"))),
        Ok(String::from("$done"))
    );
    assert_eq!(complete_send(None), Err(CoreError::ProtocolFailure));
}

#[test]
fn room_list_is_sorted_by_most_recent_message() {
    let mut app = configured_app();
    handle_room_list_batch(
        &mut app,
        vec![VectorDiff::Append(vec![
            room_with_latest("!old:example.org", 10),
            room_with_latest("!new:example.org", 30),
            room_with_latest("!mid:example.org", 20),
        ])],
    )
    .expect("valid batch");
    let rooms = matrix_get_rooms(&mut app).expect("configured");
    let ids: Vec<&str> = rooms.iter().map(|r| r.room_id.as_str()).collect();
    assert_eq!(ids, vec!["!new:example.org", "!mid:example.org", "!old:example.org"]);
    assert_eq!(rooms[0].latest_event_timestamp, Some(30));
    assert_eq!(rooms[0].name.as_deref(), Some("room"));
    assert_eq!(rooms[0].topic.as_deref(), Some("topic"));
    assert_eq!(rooms[0].member_count, 2);
    assert_eq!(app.sync_status.rooms_count, 3);
    assert!(matches!(
        matrix_get_rooms(&mut App::new()),
        Err(CoreError::NotInitialized)
    ));
}

#[test]
fn sync_status_snapshot() {
    let mut app = configured_app();
    let status = matrix_get_sync_status(&app).expect("configured");
    assert!(!status.is_syncing);
    assert_eq!(status.rooms_count, 0);
    assert!(matches!(
        matrix_get_sync_status(&App::new()),
        Err(CoreError::NotInitialized)
    ));
    app.sync_status.messages_count = 5;
    assert_eq!(matrix_get_sync_status(&app).expect("configured").messages_count, 5);
}

#[test]
fn message_snapshot_honours_the_limit() {
    let mut app = configured_app();
    handle_room_list_batch(
        &mut app,
        vec![VectorDiff::Append(vec![room_with_latest("!a:example.org", 1)])],
    )
    .expect("valid batch");
    let id = String::from("!a:example.org");
    handle_timeline_batch(
        &mut app,
        &id,
        vec![VectorDiff::Append(vec![
            event_item("$1", "one", 1),
            event_item("$2", "two", 2),
            event_item("$3", "three", 3),
        ])],
    )
    .expect("valid batch");
    let capped = matrix_get_messages(&app, id.clone(), 2).expect("snapshot");
    assert_eq!(capped.len(), 2);
    assert_eq!(capped[0].content, "one");
    assert_eq!(capped[1].content, "two");
    let all = matrix_get_messages(&app, id, 10).expect("snapshot");
    assert_eq!(all.len(), 3);
    assert!(matches!(
        matrix_get_messages(&app, String::from("!b:example.org"), 10),
        Err(CoreError::RoomNotFound)
    ));
    // A malformed identifier is rejected before the registry is consulted.
    assert!(matches!(
        matrix_get_messages(&app, String::from("garbage"), 10),
        Err(CoreError::MalformedInput)
    ));
}

#[test]
fn timeline_items_map_to_per_room_channel_events() {
    let with_identity = room_timeline_of_item(&event_item("$1", "hi", 9)).expect("event item");
    assert_eq!(with_identity.event_id, "$1");
    assert_eq!(with_identity.sender, "@u:example.org");
    assert_eq!(with_identity.content, "hi");
    assert_eq!(with_identity.timestamp, 9);

    let bare = TimelineItems {
        kind: TimelineItemType::Event(EventItem {
            event_id: None,
            sender: String::from("@u:example.org"),
            body: None,
            timestamp: 3,
        }),
        internal_id: String::from("x"),
    };
    let with_placeholders = room_timeline_of_item(&bare).expect("event item");
    assert_eq!(with_placeholders.event_id, "unknown_event_id");
    assert_eq!(with_placeholders.content, "No content");

    let marker = TimelineItems {
        kind: TimelineItemType::Virtual(VirtualItem::ReadMarker),
        internal_id: String::from("v"),
    };
    assert!(room_timeline_of_item(&marker).is_none());
}

#[test]
fn timeline_diffs_translate_one_to_one() {
    let append = VectorDiff::Append(vec![event_item("$1", "hi", 1)]);
    let u = translate_timeline_diff(&append);
    assert!(matches!(u.message_update_type, MessageUpdateType::Append));
    let ms = u.messages.expect("items carried");
    assert_eq!(ms.len(), 1);
    assert_eq!(ms[0].content, "hi");
    assert!(u.index.is_none() && u.length.is_none());

    let u2 = translate_timeline_diff(&VectorDiff::<TimelineItems>::Truncate(4));
    assert!(matches!(u2.message_update_type, MessageUpdateType::Truncate));
    assert_eq!(u2.length, Some(4));
    assert!(u2.messages.is_none() && u2.index.is_none());

    let u3 = translate_timeline_diff(&VectorDiff::Insert(2, event_item("$2", "mid", 2)));
    assert!(matches!(u3.message_update_type, MessageUpdateType::Insert));
    assert_eq!(u3.index, Some(2));
    assert_eq!(u3.messages.expect("item carried").len(), 1);

    let u4 = translate_timeline_diff(&VectorDiff::<TimelineItems>::PopBack);
    assert!(matches!(u4.message_update_type, MessageUpdateType::PopBack));
    assert!(u4.messages.is_none() && u4.index.is_none() && u4.length.is_none());

    let u5 = translate_timeline_diff(&VectorDiff::<TimelineItems>::Clear);
    assert!(matches!(u5.message_update_type, MessageUpdateType::Clear));

    let u6 = translate_timeline_diff(&VectorDiff::Reset(vec![
        event_item("$1", "a", 1),
        event_item("$2", "b", 2),
    ]));
    assert!(matches!(u6.message_update_type, MessageUpdateType::Reset));
    assert_eq!(u6.messages.expect("items carried").len(), 2);
}

#[test]
fn logger_queues_only_with_a_sink() {
    let mut logger = Logger::new(1_000);
    log_info(&mut logger, String::from("dropped"));
    assert_eq!(logger.pending.len(), 0);
    init_logger(&mut logger);
    log_debug(&mut logger, String::from("a"));
    log_info(&mut logger, String::from("b"));
    log_warn(&mut logger, String::from("c"));
    log_error(&mut logger, String::from("d"));
    logger.set_now(2_000);
    _log(
        &mut logger,
        String::from("info"),
        String::from("e"),
        String::from("core"),
    );
    let drained = logger.take_pending();
    assert_eq!(drained.len(), 5);
    assert_eq!(drained[0].level, "debug");
    assert_eq!(drained[0].message, "a");
    assert_eq!(drained[0].tag, "rust");
    assert_eq!(drained[0].timestamp, 1_000);
    assert_eq!(drained[3].level, "error");
    assert_eq!(drained[4].tag, "core");
    assert_eq!(drained[4].timestamp, 2_000);
    assert_eq!(logger.pending.len(), 0);
}

#[test]
fn log_message_falls_back_to_info() {
    let mut logger = Logger::new(0);
    create_log_stream(&mut logger);
    log_message(&mut logger, String::from("warn"), String::from("w"));
    log_message(&mut logger, String::from("noise"), String::from("n"));
    assert_eq!(logger.pending[0].level, "warn");
    assert_eq!(logger.pending[1].level, "info");
}

#[test]
fn status_message_decays_unless_replaced() {
    assert_eq!(MESSAGE_DURATION_SECS, 4);
    let mut status = Status::new();
    status.set_message(String::from("first"));
    let first_generation = status.generation;
    status.set_message(String::from("second"));
    // The first message's timer fires: it was cancelled by the second
    // message, so the slot keeps the second message.
    status.decay(first_generation);
    assert_eq!(status.last_status_message.as_deref(), Some("second"));
    // The second message's own timer fires: the slot clears.
    let second_generation = status.generation;
    status.decay(second_generation);
    assert!(status.last_status_message.is_none());
}

#[test]
fn status_handle_queues_messages_in_order() {
    let status = Status::new();
    let mut handle: StatusHandle = status.handle();
    handle.set_message(String::from("one"));
    handle.set_message(String::from("two"));
    let drained = handle.take_pending();
    assert_eq!(drained, vec![String::from("one"), String::from("two")]);
    assert_eq!(handle.pending.len(), 0);
}

#[test]
fn sync_stream_queues_after_install() {
    let mut stream = SyncStream::new();
    stream.emit(SyncEvent {
        event_type: String::from("dropped"),
        room_id: None,
        event_id: None,
        sender: None,
        content: None,
        timestamp: None,
        sync_time: 0,
    });
    assert_eq!(stream.pending.len(), 0);
    init_sync_stream(&mut stream);
    stream.emit(SyncEvent {
        event_type: String::from("sync"),
        room_id: Some(String::from("!a:example.org")),
        event_id: None,
        sender: None,
        content: None,
        timestamp: Some(9),
        sync_time: 10,
    });
    let drained = stream.take_pending();
    assert_eq!(drained.len(), 1);
    assert_eq!(drained[0].event_type, "sync");
    assert_eq!(drained[0].sync_time, 10);
}

#[test]
fn timeline_streams_install_send_remove() {
    let mut streams = TimelineStreams::new();
    let id = String::from("!a:example.org");
    assert_eq!(
        send_to_timeline_stream(
            &mut streams,
            &id,
            RoomTimeline {
                event_id: String::from("$1"),
                sender: String::from("@u:example.org"),
                content: String::from("hi"),
                timestamp: 1,
            },
        ),
        Err(CoreError::RoomNotFound)
    );
    set_timeline_stream(&mut streams, id.clone());
    assert_eq!(
        send_to_timeline_stream(
            &mut streams,
            &id,
            RoomTimeline {
                event_id: String::from("$1"),
                sender: String::from("@u:example.org"),
                content: String::from("hi"),
                timestamp: 1,
            },
        ),
        Ok(())
    );
    assert_eq!(streams.entries.len(), 1);
    assert_eq!(streams.entries[0].pending.len(), 1);
    assert_eq!(streams.entries[0].pending[0].content, "hi");
    // Installing again replaces the channel with a fresh, empty one.
    set_timeline_stream(&mut streams, id.clone());
    assert_eq!(streams.entries.len(), 1);
    assert_eq!(streams.entries[0].pending.len(), 0);
    remove_timeline_stream(&mut streams, &id);
    assert_eq!(streams.entries.len(), 0);
}

#[test]
fn user_search_validates_locally() {
    let app = configured_app();
    assert_eq!(
        search_users(&App::new(), &String::from("alice")),
        Err(CoreError::NotInitialized)
    );
    assert_eq!(search_users(&app, &String::from("")), Err(CoreError::MalformedInput));
    assert_eq!(search_users(&app, &String::from("alice")), Ok(USER_SEARCH_LIMIT));
}

#[test]
fn user_search_results_are_shaped_one_to_one() {
    let shaped = collect_user_search(
        vec![
            (
                String::from("@a:example.org"),
                Some(String::from("Alice")),
                None,
            ),
            (String::from("@b:example.org"), None, Some(String::from("mxc://x"))),
        ],
        true,
    );
    assert!(shaped.limited);
    assert_eq!(shaped.users.len(), 2);
    assert_eq!(shaped.users[0].user_id, "@a:example.org");
    assert_eq!(shaped.users[0].display_name.as_deref(), Some("Alice"));
    assert!(shaped.users[0].avatar_url.is_none());
    assert_eq!(shaped.users[1].avatar_url.as_deref(), Some("mxc://x"));
}
