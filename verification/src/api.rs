//! The synchronous consumer-facing call surface.
//!
//! Every call takes the application context explicitly. Calls that only read
//! or change local state are complete here. Calls that need the protocol
//! engine are split: the function here makes every local decision — the
//! session check, the input validation, the registry lookup, each returned
//! immediately with its error category — and the host performs the engine
//! call and feeds its outcome back through the corresponding completion
//! function.

use crate::errors::CoreError;
use crate::rooms::contains_room;
use crate::rooms::room_present;
use crate::session::login;
use crate::session::logout;
use crate::session::ClientConfig;
use crate::session::MatrixClientConfig;
use crate::sync_service::App;
use crate::sync_service::SyncStatus;
use crate::timelines::are_messages_of;
use crate::timelines::has_timeline;
use crate::timelines::Message;
use vstd::multiset::Multiset;
use vstd::prelude::*;

verus! {

/// A room summary handed to the consumer.
#[derive(Debug)]
pub struct MatrixRoomInfo {
    pub room_id: String,
    pub name: Option<String>,
    pub topic: Option<String>,
    pub member_count: u64,
    pub latest_event: Option<MatrixMessage>,
    pub latest_event_timestamp: Option<u64>,
}

/// A message handed to the consumer.
#[derive(Debug)]
pub struct MatrixMessage {
    pub event_id: String,
    pub sender: String,
    pub content: String,
    pub timestamp: u64,
}

/// One event on the consumer's sync-event channel.
#[derive(Debug)]
pub struct SyncEvent {
    pub event_type: String,
    pub room_id: Option<String>,
    pub event_id: Option<String>,
    pub sender: Option<String>,
    pub content: Option<String>,
    pub timestamp: Option<u64>,
    pub sync_time: u64,
}

/// One item of a room's timeline as sent over the consumer's per-room
/// timeline channel.
#[derive(Debug)]
pub struct RoomTimeline {
    pub event_id: String,
    pub sender: String,
    pub content: String,
    pub timestamp: u64,
}

/// Whether a per-room channel event carries exactly the data of an event
/// item: identifier and body with their placeholder texts when absent,
/// sender and timestamp as they stand.
pub open spec fn is_room_timeline_of(e: crate::timelines::EventItem, rt: RoomTimeline) -> bool {
    &&& rt.event_id@ == (match e.event_id {
        Some(id) => id@,
        None => "unknown_event_id"@,
    })
    &&& rt.sender@ == e.sender@
    &&& rt.content@ == (match e.body {
        Some(b) => b@,
        None => "No content"@,
    })
    &&& rt.timestamp == e.timestamp
}

/// Materialize one timeline item for a room's per-room channel: an event
/// item becomes one channel event; a virtual item carries no event identity
/// and is not forwarded.
pub fn room_timeline_of_item(item: &crate::timelines::TimelineItems) -> (r: Option<RoomTimeline>)
    ensures
        match item.kind {
            crate::timelines::TimelineItemType::Event(e) => r matches Some(rt)
                && is_room_timeline_of(e, rt),
            crate::timelines::TimelineItemType::Virtual(_) => r is None,
        },
{
    match &item.kind {
        crate::timelines::TimelineItemType::Event(e) => {
            let event_id = match &e.event_id {
                Some(id) => id.clone(),
                None => String::from_str("unknown_event_id"),
            };
            let content = match &e.body {
                Some(b) => b.clone(),
                None => String::from_str("No content"),
            };
            Some(
                RoomTimeline {
                    event_id,
                    sender: e.sender.clone(),
                    content,
                    timestamp: e.timestamp,
                },
            )
        },
        crate::timelines::TimelineItemType::Virtual(_) => None,
    }
}

/// The consumer's sync-event channel: installed once, then fed events in
/// production order. While no channel is installed, events are discarded.
#[derive(Debug)]
pub struct SyncStream {
    pub installed: bool,
    pub pending: Vec<SyncEvent>,
}

impl SyncStream {
    /// A channel that is not installed yet.
    pub fn new() -> (r: SyncStream)
        ensures
            !r.installed,
            r.pending@ =~= Seq::<SyncEvent>::empty(),
    {
        SyncStream { installed: false, pending: Vec::new() }
    }

    /// Queue one event for the consumer, in production order; discarded
    /// while the channel is not installed.
    pub fn emit(&mut self, event: SyncEvent)
        ensures
            final(self).installed == old(self).installed,
            old(self).installed ==> final(self).pending@ == old(self).pending@.push(event),
            !old(self).installed ==> final(self).pending@ == old(self).pending@,
    {
        if self.installed {
            self.pending.push(event);
        }
    }

    /// Hand the queued events over, in order, leaving the queue empty.
    pub fn take_pending(&mut self) -> (r: Vec<SyncEvent>)
        ensures
            r@ == old(self).pending@,
            final(self).pending@ == Seq::<SyncEvent>::empty(),
            final(self).installed == old(self).installed,
    {
        let mut drained: Vec<SyncEvent> = Vec::new();
        core::mem::swap(&mut drained, &mut self.pending);
        drained
    }
}

/// Install the consumer's sync-event channel.
pub fn init_sync_stream(stream: &mut SyncStream)
    ensures
        final(stream).installed,
        final(stream).pending@ == old(stream).pending@,
{
    create_sync_stream(stream);
}

/// Install the consumer's sync-event channel. Installing it again is
/// accepted and changes nothing.
pub fn create_sync_stream(stream: &mut SyncStream)
    ensures
        final(stream).installed,
        final(stream).pending@ == old(stream).pending@,
{
    stream.installed = true;
}

/// A short greeting for the given name.
pub fn greet(name: String) -> (r: String)
    ensures
        r@ == "Hello, "@ + name@ + "!"@,
{
    let mut r = String::from_str("Hello, ");
    r.append(name.as_str());
    r.append("!");
    proof {
        assert(r@ =~= "Hello, "@ + name@ + "!"@);
    }
    r
}

/// The integration status report.
pub fn check_matrix_sdk_status() -> (r: String)
    ensures
        r@ == "Matrix SDK Integration Status:
    
✅ Rust bridge is working (greet function)
✅ Matrix client wrapper implemented in Rust
✅ Local Matrix server configuration ready
✅ Enhanced Flutter app with sync UI
✅ Global client implementation - no more Mutex issues!

The Matrix SDK integration is now complete with a global client approach that resolves the Flutter Rust Bridge async compatibility issues.

Key Improvements:
- Global client storage using OnceLock
- No more Mutex<Client> passing across bridge
- Thread-safe global state management
- All Matrix functions now work properly

Local Matrix Server Setup:
- Synapse homeserver: http://localhost:8008
- Sliding sync proxy: http://localhost:8009
- Element Web UI: http://localhost:8080

Start with: ./setup_matrix_server.sh start"@,
{
    String::from_str(
        "Matrix SDK Integration Status:
    
✅ Rust bridge is working (greet function)
✅ Matrix client wrapper implemented in Rust
✅ Local Matrix server configuration ready
✅ Enhanced Flutter app with sync UI
✅ Global client implementation - no more Mutex issues!

The Matrix SDK integration is now complete with a global client approach that resolves the Flutter Rust Bridge async compatibility issues.

Key Improvements:
- Global client storage using OnceLock
- No more Mutex<Client> passing across bridge
- Thread-safe global state management
- All Matrix functions now work properly

Local Matrix Server Setup:
- Synapse homeserver: http://localhost:8008
- Sliding sync proxy: http://localhost:8009
- Element Web UI: http://localhost:8080

Start with: ./setup_matrix_server.sh start",
    )
}

/// The configuration a local development homeserver is reached with.
pub fn get_matrix_config() -> (r: String)
    ensures
        r@ == r#"Matrix Configuration for Local Development:

Homeserver URL: http://localhost:8008
Sliding Sync URL: http://localhost:8009
Element Web: http://localhost:8080

Test Credentials:
- Username: testuser
- Password: testpass
- Homeserver: http://localhost:8008

Server Management:
- Start: ./setup_matrix_server.sh start
- Status: ./setup_matrix_server.sh status
- Stop: ./setup_matrix_server.sh stop
- Logs: ./setup_matrix_server.sh logs"#@,
{
    String::from_str(
        r#"Matrix Configuration for Local Development:

Homeserver URL: http://localhost:8008
Sliding Sync URL: http://localhost:8009
Element Web: http://localhost:8080

Test Credentials:
- Username: testuser
- Password: testpass
- Homeserver: http://localhost:8008

Server Management:
- Start: ./setup_matrix_server.sh start
- Status: ./setup_matrix_server.sh status
- Stop: ./setup_matrix_server.sh stop
- Logs: ./setup_matrix_server.sh logs"#,
    )
}

/// The status report on the synchronization operations.
pub fn get_sync_operations_status() -> (r: String)
    ensures
        r@ == "Sync Operations Implementation Status:

✅ Initial Sync: performInitialSync() - Gets existing data and sets up database
✅ Sync Polling: startSyncPolling() / stopSyncPolling() - Continuous updates
✅ Sync Status: getSyncStatus() - Real-time sync status monitoring
✅ Room Operations: createRoom(), joinRoom() - Enhanced room management
✅ Message Operations: sendMessage(), getMessages() - Basic messaging
✅ Global Client: All functions now use global client storage
⚠️  Sliding Sync: setupSlidingSync() - Placeholder (needs API updates)

The sync operations are now fully implemented with the global client approach.

Key Features Ready:
- Matrix client authentication (global)
- Room management (global)
- Message sending and receiving (global)
- Real-time sync with polling (global)
- Database setup and management
- Local server integration

Next Steps:
1. Test with local Matrix server
2. Implement sliding sync when API is stable
3. Add more advanced features"@,
{
    String::from_str(
        "Sync Operations Implementation Status:

✅ Initial Sync: performInitialSync() - Gets existing data and sets up database
✅ Sync Polling: startSyncPolling() / stopSyncPolling() - Continuous updates
✅ Sync Status: getSyncStatus() - Real-time sync status monitoring
✅ Room Operations: createRoom(), joinRoom() - Enhanced room management
✅ Message Operations: sendMessage(), getMessages() - Basic messaging
✅ Global Client: All functions now use global client storage
⚠️  Sliding Sync: setupSlidingSync() - Placeholder (needs API updates)

The sync operations are now fully implemented with the global client approach.

Key Features Ready:
- Matrix client authentication (global)
- Room management (global)
- Message sending and receiving (global)
- Real-time sync with polling (global)
- Database setup and management
- Local server integration

Next Steps:
1. Test with local Matrix server
2. Implement sliding sync when API is stable
3. Add more advanced features",
    )
}

/// The report of the local server connectivity test.
pub fn test_server_connectivity() -> (r: String)
    ensures
        r@ == "Server Connectivity Test:
    
🎉 Local Matrix Server is RUNNING!
📋 Server URLs:
  • Synapse homeserver: http://localhost:8008
  • Sliding sync proxy: http://localhost:8009
  • Element Web UI: http://localhost:8080

✅ All services are operational
✅ Element Web is configured correctly
✅ Flutter app is working with basic functions
✅ Global client implementation is ready

Ready for Matrix SDK integration!"@,
{
    String::from_str(
        "Server Connectivity Test:
    
🎉 Local Matrix Server is RUNNING!
📋 Server URLs:
  • Synapse homeserver: http://localhost:8008
  • Sliding sync proxy: http://localhost:8009
  • Element Web UI: http://localhost:8080

✅ All services are operational
✅ Element Web is configured correctly
✅ Flutter app is working with basic functions
✅ Global client implementation is ready

Ready for Matrix SDK integration!",
    )
}

/// A structurally valid room identifier: the `!` sigil, a non-empty local
/// part, and a colon separating it from a non-empty server name.
pub open spec fn valid_room_id(s: Seq<char>) -> bool {
    &&& s.len() >= 4
    &&& s[0] == '!'
    &&& exists|i: int| 2 <= i < s.len() - 1 && s[i] == ':'
}

/// Validate a room identifier locally, before any remote call.
pub fn is_valid_room_id(s: &String) -> (b: bool)
    ensures
        b == valid_room_id(s@),
{
    let st = s.as_str();
    let n = st.unicode_len();
    if n < 4 {
        return false;
    }
    if st.get_char(0) != '!' {
        return false;
    }
    let mut i: usize = 2;
    while i < n - 1
        invariant
            st@ == s@,
            n == s@.len(),
            4 <= n,
            s@[0] == '!',
            2 <= i <= n - 1,
            forall|j: int| 2 <= j < i ==> s@[j] != ':',
        decreases n - i,
    {
        if st.get_char(i) == ':' {
            return true;
        }
        i = i + 1;
    }
    false
}

/// A structurally valid user identifier: the `@` sigil, a non-empty local
/// part, and a colon separating it from a non-empty server name.
pub open spec fn valid_user_id(s: Seq<char>) -> bool {
    &&& s.len() >= 4
    &&& s[0] == '@'
    &&& exists|i: int| 2 <= i < s.len() - 1 && s[i] == ':'
}

/// Validate a user identifier locally, before any remote call.
pub fn is_valid_user_id(s: &String) -> (b: bool)
    ensures
        b == valid_user_id(s@),
{
    let st = s.as_str();
    let n = st.unicode_len();
    if n < 4 {
        return false;
    }
    if st.get_char(0) != '@' {
        return false;
    }
    let mut i: usize = 2;
    while i < n - 1
        invariant
            st@ == s@,
            n == s@.len(),
            4 <= n,
            s@[0] == '@',
            2 <= i <= n - 1,
            forall|j: int| 2 <= j < i ==> s@[j] != ':',
        decreases n - i,
    {
        if st.get_char(i) == ':' {
            return true;
        }
        i = i + 1;
    }
    false
}

/// Configure the session from the consumer's configuration: idempotent, and
/// never rebuilds an existing session. A new session starts without a
/// credential; the host builds the engine client and reports the credential
/// restore afterwards.
pub fn matrix_init_client(app: &mut App, config: MatrixClientConfig) -> (r: Result<bool, CoreError>)
    requires
        old(app).build_count < u64::MAX,
    ensures
        r == Ok::<bool, CoreError>(true),
        old(app).config is Some ==> *final(app) == *old(app),
        old(app).config is None ==> {
            &&& final(app).config matches Some(c) && c.session_path == config.storage_path
                && c.homeserver_url == config.homeserver_url && c.root_certificates is None
                && c.proxy is None
            &&& final(app).authenticated == false
            &&& final(app).build_count == old(app).build_count + 1
            &&& final(app).room_list == old(app).room_list
            &&& final(app).timelines == old(app).timelines
            &&& final(app).room_view == old(app).room_view
            &&& final(app).status == old(app).status
            &&& final(app).sync_status == old(app).sync_status
        },
{
    let MatrixClientConfig { homeserver_url, storage_path } = config;
    crate::session::configure_client(
        app,
        ClientConfig {
            session_path: storage_path,
            homeserver_url,
            root_certificates: None,
            proxy: None,
        },
    )
}

/// Decide whether a sign-in may proceed; the host performs the engine call.
pub fn matrix_login(app: &App, username: String, password: String) -> (r: Result<bool, CoreError>)
    ensures
        r == (if app.config is Some {
            Ok::<bool, CoreError>(true)
        } else {
            Err::<bool, CoreError>(CoreError::NotInitialized)
        }),
{
    login(app, &username, &password)
}

/// Decide whether a sign-out may proceed; the host invalidates the remote
/// session. Without a session this fails with `NotInitialized`, not a crash.
pub fn matrix_logout(app: &App) -> (r: Result<bool, CoreError>)
    ensures
        r == (if app.config is Some {
            Ok::<bool, CoreError>(true)
        } else {
            Err::<bool, CoreError>(CoreError::NotInitialized)
        }),
{
    logout(app)
}

/// Whether the session holds a valid credential; `false` while no session
/// is configured.
pub fn matrix_is_logged_in(app: &App) -> (r: Result<bool, CoreError>)
    ensures
        r == Ok::<bool, CoreError>(app.config is Some && app.authenticated),
{
    if app.config.is_some() {
        Ok(app.authenticated)
    } else {
        Ok(false)
    }
}

/// Decide whether an initial synchronization may proceed: it needs a
/// configured session holding a valid credential.
pub fn matrix_perform_initial_sync(app: &App) -> (r: Result<bool, CoreError>)
    ensures
        r == (if app.config is None {
            Err::<bool, CoreError>(CoreError::NotInitialized)
        } else if !app.authenticated {
            Err::<bool, CoreError>(CoreError::NotAuthenticated)
        } else {
            Ok::<bool, CoreError>(true)
        }),
{
    if app.config.is_none() {
        Err(CoreError::NotInitialized)
    } else if !app.authenticated {
        Err(CoreError::NotAuthenticated)
    } else {
        Ok(true)
    }
}

/// A snapshot of the aggregate synchronization counters.
pub fn matrix_get_sync_status(app: &App) -> (r: Result<SyncStatus, CoreError>)
    ensures
        r == (if app.config is Some {
            Ok::<SyncStatus, CoreError>(app.sync_status)
        } else {
            Err::<SyncStatus, CoreError>(CoreError::NotInitialized)
        }),
{
    if app.config.is_some() {
        Ok(app.sync_status)
    } else {
        Err(CoreError::NotInitialized)
    }
}

/// Decide whether a room may be created: it needs a configured session.
/// The host hands the name and topic to the engine and maps the room
/// identifier it produces with [`complete_create_room`].
pub fn matrix_create_room(app: &App, _name: String, _topic: Option<String>) -> (r: Result<
    bool,
    CoreError,
>)
    ensures
        r == (if app.config is Some {
            Ok::<bool, CoreError>(true)
        } else {
            Err::<bool, CoreError>(CoreError::NotInitialized)
        }),
{
    if app.config.is_none() {
        return Err(CoreError::NotInitialized);
    }
    Ok(true)
}

/// Map the engine's answer to a room creation: the identifier of the room
/// it created, or a protocol failure when it rejected the request.
pub fn complete_create_room(room_id: Option<String>) -> (r: Result<String, CoreError>)
    ensures
        room_id matches Some(id) ==> r == Ok::<String, CoreError>(id),
        room_id is None ==> r == Err::<String, CoreError>(CoreError::ProtocolFailure),
{
    match room_id {
        Some(id) => Ok(id),
        None => Err(CoreError::ProtocolFailure),
    }
}

/// Decide whether a join may proceed: the session must exist, the
/// identifier must be structurally valid (checked before any remote call)
/// and the room must be registered. The host performs the engine call.
pub fn matrix_join_room(app: &App, room_id: String) -> (r: Result<bool, CoreError>)
    ensures
        r == join_room_decision(*app, room_id@),
{
    if app.config.is_none() {
        Err(CoreError::NotInitialized)
    } else if !is_valid_room_id(&room_id) {
        Err(CoreError::MalformedInput)
    } else if !room_present(&app.room_list.rooms, &room_id) {
        Err(CoreError::RoomNotFound)
    } else {
        Ok(true)
    }
}

/// The decision rule shared by the operations keyed by a room identifier:
/// no session, a malformed identifier and an unregistered room are rejected
/// locally, in that order, without touching the engine.
pub open spec fn join_room_decision(app: App, room_id: Seq<char>) -> Result<bool, CoreError> {
    if app.config is None {
        Err(CoreError::NotInitialized)
    } else if !valid_room_id(room_id) {
        Err(CoreError::MalformedInput)
    } else if !contains_room(app.room_list.rooms@, room_id) {
        Err(CoreError::RoomNotFound)
    } else {
        Ok(true)
    }
}

/// Decide whether a leave may proceed; the same rule as joining.
pub fn leave_room(app: &App, room_id: String) -> (r: Result<bool, CoreError>)
    ensures
        r == join_room_decision(*app, room_id@),
{
    matrix_join_room(app, room_id)
}

/// Decide whether a message send may proceed; the same rule as joining.
/// The host sends the content through the engine and maps the produced
/// event identifier with [`complete_send`].
pub fn send_message(app: &App, room_id: String, _content: String) -> (r: Result<bool, CoreError>)
    ensures
        r == join_room_decision(*app, room_id@),
{
    matrix_join_room(app, room_id)
}

/// Decide whether a message send may proceed; the same rule as joining.
pub fn matrix_send_message(app: &App, room_id: String, content: String) -> (r: Result<
    bool,
    CoreError,
>)
    ensures
        r == join_room_decision(*app, room_id@),
{
    send_message(app, room_id, content)
}

/// Whether a consumer room summary carries exactly the data of a room
/// entry: identifier, display name (empty when unknown), topic, member
/// count, and the most recent message synopsis with its timestamp (an empty
/// synopsis and timestamp zero when the room has none).
pub open spec fn is_room_info_of(room: crate::rooms::RoomEntry, m: MatrixRoomInfo) -> bool {
    &&& m.room_id == room.room_id
    &&& m.name matches Some(n) && n@ == (match room.display_name {
        Some(d) => d@,
        None => Seq::<char>::empty(),
    })
    &&& m.topic == room.topic
    &&& m.member_count == room.member_count
    &&& m.latest_event matches Some(e) && (match room.latest_event {
        Some(msg) => e.event_id == msg.event_id && e.sender == msg.sender && e.content
            == msg.content && e.timestamp == msg.timestamp,
        None => e.event_id@ == Seq::<char>::empty() && e.sender@ == Seq::<char>::empty()
            && e.content@ == Seq::<char>::empty() && e.timestamp == 0,
    })
    &&& m.latest_event_timestamp == Some(
        match room.latest_event {
            Some(msg) => msg.timestamp,
            None => 0u64,
        },
    )
}

/// Assemble the consumer summary of one room.
fn build_room_info(room: &crate::rooms::RoomEntry) -> (m: MatrixRoomInfo)
    ensures
        is_room_info_of(*room, m),
{
    let name = match &room.display_name {
        Some(d) => d.clone(),
        None => String::new(),
    };
    let (latest_event, latest_ts) = match &room.latest_event {
        Some(msg) => (
            MatrixMessage {
                event_id: msg.event_id.clone(),
                sender: msg.sender.clone(),
                content: msg.content.clone(),
                timestamp: msg.timestamp,
            },
            msg.timestamp,
        ),
        None => (
            MatrixMessage {
                event_id: String::new(),
                sender: String::new(),
                content: String::new(),
                timestamp: 0,
            },
            0u64,
        ),
    };
    MatrixRoomInfo {
        room_id: room.room_id.clone(),
        name: Some(name),
        topic: crate::text::clone_opt_string(&room.topic),
        member_count: room.member_count,
        latest_event: Some(latest_event),
        latest_event_timestamp: Some(latest_ts),
    }
}

/// The key the room list is ordered by: the timestamp of the most recent
/// message, taken as zero when there is none.
pub open spec fn ts_key(m: MatrixRoomInfo) -> u64 {
    match m.latest_event_timestamp {
        Some(t) => t,
        None => 0u64,
    }
}

/// Most recent message first.
pub open spec fn sorted_by_latest_desc(s: Seq<MatrixRoomInfo>) -> bool {
    forall|i: int, j: int|
        0 <= i < j < s.len() ==> ts_key(#[trigger] s[i]) >= ts_key(#[trigger] s[j])
}

fn info_ts_key(m: &MatrixRoomInfo) -> (k: u64)
    ensures
        k == ts_key(*m),
{
    match m.latest_event_timestamp {
        Some(t) => t,
        None => 0,
    }
}

/// Order room summaries by their most recent message, most recent first,
/// keeping exactly the same summaries.
fn sort_rooms_by_latest(v: Vec<MatrixRoomInfo>) -> (r: Vec<MatrixRoomInfo>)
    ensures
        sorted_by_latest_desc(r@),
        r@.to_multiset() == v@.to_multiset(),
{
    let ghost orig = v@;
    let mut rest = v;
    let mut out: Vec<MatrixRoomInfo> = Vec::new();
    proof {
        out@.to_multiset_ensures();
        rest@.to_multiset_ensures();
        assert(out@.to_multiset().add(rest@.to_multiset()) =~= orig.to_multiset());
    }
    while rest.len() > 0
        invariant
            out@.to_multiset().add(rest@.to_multiset()) == orig.to_multiset(),
            sorted_by_latest_desc(out@),
            forall|i: int, j: int|
                0 <= i < out@.len() && 0 <= j < rest@.len() ==> ts_key(#[trigger] out@[i]) >= ts_key(
                    #[trigger] rest@[j],
                ),
        decreases rest@.len(),
    {
        let mut best: usize = 0;
        let mut k: usize = 1;
        while k < rest.len()
            invariant
                0 < rest@.len(),
                best < k,
                k <= rest@.len(),
                forall|j: int| 0 <= j < k ==> ts_key(#[trigger] rest@[j]) <= ts_key(rest@[best as int]),
            decreases rest@.len() - k,
        {
            if info_ts_key(&rest[k]) > info_ts_key(&rest[best]) {
                best = k;
            }
            k = k + 1;
        }
        let ghost rest0 = rest@;
        let ghost out0 = out@;
        let item = rest.remove(best);
        out.push(item);
        proof {
            rest0.to_multiset_ensures();
            out0.to_multiset_ensures();
            assert(rest@.to_multiset() == rest0.to_multiset().remove(rest0[best as int]));
            assert(out@.to_multiset() == out0.to_multiset().insert(rest0[best as int]));
            assert(out@.to_multiset().add(rest@.to_multiset()) =~= out0.to_multiset().add(
                rest0.to_multiset(),
            ));
            assert(forall|i: int| 0 <= i < out0.len() ==> out@[i] == #[trigger] out0[i]);
            assert(out@.last() == rest0[best as int]);
            assert forall|i: int, j: int|
                0 <= i < out@.len() && 0 <= j < rest@.len() implies ts_key(#[trigger] out@[i])
                >= ts_key(#[trigger] rest@[j]) by {
                let jp: int = if j < best { j } else { j + 1 };
                assert(rest@[j] == rest0[jp]);
                assert(ts_key(rest0[jp]) <= ts_key(rest0[best as int]));
                if i < out@.len() - 1 {
                    assert(out@[i] == out0[i]);
                    assert(ts_key(out0[i]) >= ts_key(rest0[jp]));
                } else {
                    assert(out@[i] == rest0[best as int]);
                }
            }
            assert forall|i: int, j: int| 0 <= i < j < out@.len() implies ts_key(
                #[trigger] out@[i],
            ) >= ts_key(#[trigger] out@[j]) by {
                if j == out@.len() - 1 {
                    if i < out@.len() - 1 {
                        assert(out@[i] == out0[i]);
                        assert(ts_key(out0[i]) >= ts_key(rest0[best as int]));
                    }
                } else {
                    assert(out@[i] == out0[i] && out@[j] == out0[j]);
                }
            }
        }
    }
    proof {
        rest@.to_multiset_ensures();
        assert forall|x: MatrixRoomInfo| #[trigger] rest@.to_multiset().count(x) == Multiset::<
            MatrixRoomInfo,
        >::empty().count(x) by {
            if rest@.to_multiset().count(x) > 0 {
                assert(rest@.contains(x));
            }
        }
        assert(rest@.to_multiset() =~= Multiset::<MatrixRoomInfo>::empty());
        assert(out@.to_multiset().add(rest@.to_multiset()) =~= out@.to_multiset());
    }
    out
}

/// The room list as the consumer sees it: one summary per registered room,
/// most recent message first, reflecting every diff applied up to the call.
/// The aggregate room counter is refreshed as a side effect.
pub fn matrix_get_rooms(app: &mut App) -> (r: Result<Vec<MatrixRoomInfo>, CoreError>)
    ensures
        old(app).config is None ==> r == Err::<Vec<MatrixRoomInfo>, CoreError>(
            CoreError::NotInitialized,
        ) && *final(app) == *old(app),
        old(app).config is Some ==> {
            &&& *final(app) == (App {
                sync_status: SyncStatus {
                    rooms_count: old(app).room_list.rooms@.len() as u64,
                    ..old(app).sync_status
                },
                ..*old(app)
            })
            &&& (r matches Ok(v) && sorted_by_latest_desc(v@) && exists|m: Seq<MatrixRoomInfo>|
                {
                    &&& #[trigger] m.len() == old(app).room_list.rooms@.len()
                    &&& (forall|i: int|
                        0 <= i < m.len() ==> is_room_info_of(
                            old(app).room_list.rooms@[i],
                            #[trigger] m[i],
                        ))
                    &&& v@.to_multiset() == m.to_multiset()
                })
        },
{
    if app.config.is_none() {
        return Err(CoreError::NotInitialized);
    }
    let mut infos: Vec<MatrixRoomInfo> = Vec::new();
    let mut i: usize = 0;
    while i < app.room_list.rooms.len()
        invariant
            i <= app.room_list.rooms@.len(),
            infos@.len() == i,
            forall|j: int|
                0 <= j < i ==> is_room_info_of(app.room_list.rooms@[j], #[trigger] infos@[j]),
        decreases app.room_list.rooms@.len() - i,
    {
        infos.push(build_room_info(&app.room_list.rooms[i]));
        i = i + 1;
    }
    let ghost mapped = infos@;
    let sorted = sort_rooms_by_latest(infos);
    let count = app.room_list.rooms.len() as u64;
    app.sync_status.rooms_count = count;
    proof {
        assert(mapped.len() == app.room_list.rooms@.len() && (forall|j: int|
            0 <= j < mapped.len() ==> is_room_info_of(
                app.room_list.rooms@[j],
                #[trigger] mapped[j],
            )) && sorted@.to_multiset() == mapped.to_multiset());
    }
    Ok(sorted)
}

/// Whether a consumer message carries exactly the identity, text and
/// timestamp of a timeline message.
pub open spec fn matrix_message_of(m: Message, x: MatrixMessage) -> bool {
    &&& x.event_id == m.event_id
    &&& x.sender == m.sender
    &&& x.content == m.content
    &&& x.timestamp == m.timestamp
}

/// Convert a timeline snapshot for the consumer, keeping at most `limit`
/// messages from its start.
pub fn messages_to_matrix(ms: Vec<Message>, limit: u32) -> (r: Vec<MatrixMessage>)
    ensures
        r@.len() == (if (limit as int) <= ms@.len() {
            limit as int
        } else {
            ms@.len() as int
        }),
        forall|i: int| 0 <= i < r@.len() ==> matrix_message_of(ms@[i], #[trigger] r@[i]),
{
    let mut r: Vec<MatrixMessage> = Vec::new();
    let mut i: usize = 0;
    while i < ms.len() && i < limit as usize
        invariant
            i <= ms@.len(),
            i <= limit as usize,
            r@.len() == i,
            forall|j: int| 0 <= j < i ==> matrix_message_of(ms@[j], #[trigger] r@[j]),
        decreases ms@.len() - i,
    {
        let m = &ms[i];
        r.push(
            MatrixMessage {
                event_id: m.event_id.clone(),
                sender: m.sender.clone(),
                content: m.content.clone(),
                timestamp: m.timestamp,
            },
        );
        i = i + 1;
    }
    r
}

/// A snapshot of at most `limit` messages from the start of a room's
/// timeline. An identifier that fails local validation is rejected with
/// `MalformedInput`, and one not in the room registry with `RoomNotFound`,
/// both before any remote call; a registered room with no timeline yet
/// yields no messages, not an error.
pub fn matrix_get_messages(app: &App, room_id: String, limit: u32) -> (r: Result<
    Vec<MatrixMessage>,
    CoreError,
>)
    ensures
        app.config is None ==> r == Err::<Vec<MatrixMessage>, CoreError>(CoreError::NotInitialized),
        app.config is Some && !valid_room_id(room_id@) ==> r == Err::<
            Vec<MatrixMessage>,
            CoreError,
        >(CoreError::MalformedInput),
        app.config is Some && valid_room_id(room_id@) && !contains_room(
            app.room_list.rooms@,
            room_id@,
        ) ==> r == Err::<Vec<MatrixMessage>, CoreError>(CoreError::RoomNotFound),
        app.config is Some && valid_room_id(room_id@) && contains_room(
            app.room_list.rooms@,
            room_id@,
        ) && !has_timeline(app.timelines.entries@, room_id@) ==> (r matches Ok(v) && v@.len()
            == 0),
        app.config is Some && valid_room_id(room_id@) && contains_room(
            app.room_list.rooms@,
            room_id@,
        ) && has_timeline(app.timelines.entries@, room_id@) ==> (r matches Ok(v) && exists|
            ix: int,
            ms: Seq<Message>,
        |
            {
                &&& 0 <= ix < app.timelines.entries@.len()
                &&& #[trigger] are_messages_of(app.timelines.entries@[ix].timeline.items@, ms)
                &&& app.timelines.entries@[ix].room_id@ == room_id@
                &&& forall|j: int| 0 <= j < ix ==> app.timelines.entries@[j].room_id@ != room_id@
                &&& v@.len() == (if (limit as int) <= ms.len() {
                    limit as int
                } else {
                    ms.len() as int
                })
                &&& forall|i: int| 0 <= i < v@.len() ==> matrix_message_of(ms[i], #[trigger] v@[i])
            }),
{
    match crate::sync_service::get_timeline_items_by_room_id(app, &room_id) {
        Err(e) => Err(e),
        Ok(ms) => Ok(messages_to_matrix(ms, limit)),
    }
}

/// Decide whether the background synchronization service may start: it
/// needs a configured session. Starting marks the process as syncing; the
/// host runs the engine's service and the feed listeners.
pub fn start_sync_service(app: &mut App) -> (r: Result<bool, CoreError>)
    ensures
        old(app).config is None ==> r == Err::<bool, CoreError>(CoreError::NotInitialized) && *final(app) == *old(app),
        old(app).config is Some ==> r == Ok::<bool, CoreError>(true) && *final(app) == (App {
            sync_status: SyncStatus { is_syncing: true, ..old(app).sync_status },
            ..*old(app)
        }),
{
    if app.config.is_none() {
        return Err(CoreError::NotInitialized);
    }
    app.sync_status.is_syncing = true;
    Ok(true)
}

/// Decide whether the long-lived sliding synchronization may start: it
/// needs a configured session holding a valid credential. Starting marks
/// the process as syncing; the host drives the engine's sync stream.
pub fn start_sliding_sync(app: &mut App) -> (r: Result<bool, CoreError>)
    ensures
        old(app).config is None ==> r == Err::<bool, CoreError>(CoreError::NotInitialized) && *final(app) == *old(app),
        old(app).config is Some && !old(app).authenticated ==> r == Err::<bool, CoreError>(
            CoreError::NotAuthenticated,
        ) && *final(app) == *old(app),
        old(app).config is Some && old(app).authenticated ==> r == Ok::<bool, CoreError>(true)
            && *final(app) == (App {
            sync_status: SyncStatus { is_syncing: true, ..old(app).sync_status },
            ..*old(app)
        }),
{
    if app.config.is_none() {
        return Err(CoreError::NotInitialized);
    }
    if !app.authenticated {
        return Err(CoreError::NotAuthenticated);
    }
    app.sync_status.is_syncing = true;
    Ok(true)
}

/// Decide whether a direct room may be created with the given user: the
/// session must exist and the user identifier must be structurally valid,
/// both checked before any remote call. The host performs the engine call.
pub fn create_direct_room(app: &App, user_id: &String) -> (r: Result<bool, CoreError>)
    ensures
        r == (if app.config is None {
            Err::<bool, CoreError>(CoreError::NotInitialized)
        } else if !valid_user_id(user_id@) {
            Err::<bool, CoreError>(CoreError::MalformedInput)
        } else {
            Ok::<bool, CoreError>(true)
        }),
{
    if app.config.is_none() {
        Err(CoreError::NotInitialized)
    } else if !is_valid_user_id(user_id) {
        Err(CoreError::MalformedInput)
    } else {
        Ok(true)
    }
}

/// Decide whether a group room may be created: the session must exist and
/// every invited user identifier must be structurally valid; the first
/// malformed one rejects the request before any remote call.
pub fn create_group_room(app: &App, _name: &String, user_ids: &Vec<String>) -> (r: Result<
    bool,
    CoreError,
>)
    ensures
        r == (if app.config is None {
            Err::<bool, CoreError>(CoreError::NotInitialized)
        } else if exists|i: int| 0 <= i < user_ids@.len() && !valid_user_id(#[trigger] user_ids@[i]@) {
            Err::<bool, CoreError>(CoreError::MalformedInput)
        } else {
            Ok::<bool, CoreError>(true)
        }),
{
    if app.config.is_none() {
        return Err(CoreError::NotInitialized);
    }
    let mut i: usize = 0;
    while i < user_ids.len()
        invariant
            app.config is Some,
            i <= user_ids@.len(),
            forall|j: int| 0 <= j < i ==> valid_user_id(#[trigger] user_ids@[j]@),
        decreases user_ids@.len() - i,
    {
        if !is_valid_user_id(&user_ids[i]) {
            proof {
                assert(!valid_user_id(user_ids@[i as int]@));
            }
            return Err(CoreError::MalformedInput);
        }
        i = i + 1;
    }
    Ok(true)
}

/// Decide whether a forward pagination of a room's timeline may run; the
/// same rule as joining.
pub fn timeline_paginate_forward(app: &App, room_id: String) -> (r: Result<bool, CoreError>)
    ensures
        r == join_room_decision(*app, room_id@),
{
    matrix_join_room(app, room_id)
}

/// Decide whether a backward pagination of a room's timeline may run; the
/// same rule as joining.
pub fn timeline_paginate_backwards(app: &App, room_id: String) -> (r: Result<bool, CoreError>)
    ensures
        r == join_room_decision(*app, room_id@),
{
    matrix_join_room(app, room_id)
}

/// Decide whether a one-shot synchronization may run: it needs a configured
/// session holding a valid credential. The host performs the engine's sync.
pub fn sync_once(app: &App) -> (r: Result<bool, CoreError>)
    ensures
        r == (if app.config is None {
            Err::<bool, CoreError>(CoreError::NotInitialized)
        } else if !app.authenticated {
            Err::<bool, CoreError>(CoreError::NotAuthenticated)
        } else {
            Ok::<bool, CoreError>(true)
        }),
{
    matrix_perform_initial_sync(app)
}

/// Map the engine's answer to a send: the produced event identifier, or a
/// protocol failure when the engine rejected the send.
pub fn complete_send(event_id: Option<String>) -> (r: Result<String, CoreError>)
    ensures
        event_id matches Some(id) ==> r == Ok::<String, CoreError>(id),
        event_id is None ==> r == Err::<String, CoreError>(CoreError::ProtocolFailure),
{
    match event_id {
        Some(id) => Ok(id),
        None => Err(CoreError::ProtocolFailure),
    }
}

/// Map the engine's answer to an operation that yields no value, such as a
/// join: success, or a protocol failure.
pub fn complete_engine_action(succeeded: bool) -> (r: Result<bool, CoreError>)
    ensures
        succeeded ==> r == Ok::<bool, CoreError>(true),
        !succeeded ==> r == Err::<bool, CoreError>(CoreError::ProtocolFailure),
{
    if succeeded {
        Ok(true)
    } else {
        Err(CoreError::ProtocolFailure)
    }
}

} // verus!
