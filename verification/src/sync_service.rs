//! The application context and the listener logic that keeps it current.
//!
//! One `App` is constructed at startup and passed to every component; there
//! are no process-wide globals, so independent contexts can exist side by
//! side. The room-list listener applies each diff batch of the protocol
//! engine's feed in arrival order, recomputes the per-room metadata, and
//! manages the per-room timeline lifecycle: a timeline and its listener task
//! are created the first time a room is observed and torn down when the room
//! disappears from the registry.

use crate::api::is_valid_room_id;
use crate::api::valid_room_id;
use crate::diffs::apply_batch;
use crate::diffs::batch_result;
use crate::diffs::batch_valid;
use crate::diffs::diff_valid;
use crate::diffs::VectorDiff;
use crate::errors::CoreError;
use crate::rooms::contains_room;
use crate::rooms::infos_match;
use crate::rooms::recompute_room_infos;
use crate::rooms::room_present;
use crate::rooms::rooms_unique;
use crate::rooms::RoomEntry;
use crate::rooms::RoomList;
use crate::session::ClientConfig;
use crate::status::Status;
use crate::timelines::are_messages_of;
use crate::timelines::has_timeline;
use crate::timelines::materialize_items;
use crate::timelines::Message;
use crate::timelines::timelines_unique;
use crate::timelines::RoomView;
use crate::timelines::Timeline;
use crate::timelines::TimelineEntry;
use crate::timelines::TimelineItems;
use crate::timelines::Timelines;
use vstd::prelude::*;

verus! {

/// Aggregate counters of the synchronization state, surfaced to the
/// consumer.
#[derive(Debug, Clone, Copy)]
pub struct SyncStatus {
    pub is_syncing: bool,
    pub rooms_count: u64,
    pub messages_count: u64,
    pub last_sync_time: Option<u64>,
}

impl SyncStatus {
    /// The counters of a process with no session: everything zero or absent.
    pub open spec fn zeroed_spec() -> SyncStatus {
        SyncStatus { is_syncing: false, rooms_count: 0, messages_count: 0, last_sync_time: None }
    }

    /// Fresh, zeroed counters.
    pub fn zeroed() -> (r: SyncStatus)
        ensures
            r == SyncStatus::zeroed_spec(),
    {
        SyncStatus { is_syncing: false, rooms_count: 0, messages_count: 0, last_sync_time: None }
    }
}

/// One room's materialized timeline, as handed to the consumer.
#[derive(Debug)]
pub struct TimelineUpdate {
    pub room_id: String,
    pub items: Vec<TimelineItems>,
}

/// Whether the timeline registry is well formed against the room
/// collection: at most one timeline per room identifier, each belonging to
/// a room that is present, with its listener task running.
pub open spec fn timelines_wf(entries: Seq<TimelineEntry>, rooms: Seq<RoomEntry>) -> bool {
    &&& timelines_unique(entries)
    &&& forall|j: int|
        0 <= j < entries.len() ==> contains_room(rooms, (#[trigger] entries[j]).room_id@)
    &&& forall|j: int| 0 <= j < entries.len() ==> (#[trigger] entries[j]).timeline.task_running
}

/// The application context: the session registry, the room registry, the
/// timelines, the room view, the status slot and the aggregate counters.
/// Constructed once at startup; every component borrows it.
#[derive(Debug)]
pub struct App {
    /// The active session's configuration; absent while unconfigured.
    pub config: Option<ClientConfig>,
    /// Whether the session holds a valid credential.
    pub authenticated: bool,
    /// How many times a session has been built; a repeated configuration
    /// call does not move it.
    pub build_count: u64,
    /// The room list widget's registry.
    pub room_list: RoomList,
    /// Timelines data structures for each room.
    pub timelines: Timelines,
    /// A view displaying the contents of the selected room.
    pub room_view: RoomView,
    /// The status widget.
    pub status: Status,
    /// Aggregate synchronization counters.
    pub sync_status: SyncStatus,
}

impl App {
    /// The context's invariant: the timeline registry is well formed against
    /// the room collection, and without a session nothing is registered.
    pub open spec fn wf(self) -> bool {
        &&& timelines_wf(self.timelines.entries@, self.room_list.rooms@)
        &&& self.config is None ==> {
            &&& !self.authenticated
            &&& self.room_list.rooms@.len() == 0
            &&& self.room_list.room_infos@.len() == 0
            &&& self.timelines.entries@.len() == 0
        }
    }

    /// A fresh, unconfigured context.
    pub fn new() -> (r: App)
        ensures
            r.wf(),
            r.config is None,
            r.authenticated == false,
            r.build_count == 0,
            r.room_list.rooms@.len() == 0,
            r.room_list.room_infos@.len() == 0,
            r.timelines.entries@.len() == 0,
            r.status.last_status_message is None,
            r.sync_status == SyncStatus::zeroed_spec(),
    {
        let status = Status::new();
        let handle = status.handle();
        App {
            config: None,
            authenticated: false,
            build_count: 0,
            room_list: RoomList::new(Vec::new(), Vec::new(), handle),
            timelines: Timelines::new(),
            room_view: RoomView::new(),
            status,
            sync_status: SyncStatus::zeroed(),
        }
    }
}

/// A room that is absent from the registry has no live listener task: in
/// particular, a room introduced by one diff batch and removed by a later
/// one leaves no task behind.
pub proof fn lemma_no_listener_for_absent_room(app: App, id: Seq<char>)
    requires
        app.wf(),
        !contains_room(app.room_list.rooms@, id),
    ensures
        !has_timeline(app.timelines.entries@, id),
{
    if has_timeline(app.timelines.entries@, id) {
        let j = choose|j: int|
            0 <= j < app.timelines.entries@.len() && app.timelines.entries@[j].room_id@ == id;
        assert(contains_room(app.room_list.rooms@, app.timelines.entries@[j].room_id@));
    }
}

/// How the timeline registry after a room-list batch relates to the one
/// before it and to the rooms now present: the registry is well formed,
/// the timeline of every retained room is kept whole (items and all),
/// every present room has a timeline, and every timeline either was kept or
/// is freshly created, empty, for a room that had none.
pub open spec fn timelines_synced(
    old_e: Seq<TimelineEntry>,
    new_e: Seq<TimelineEntry>,
    rooms: Seq<RoomEntry>,
) -> bool {
    &&& timelines_wf(new_e, rooms)
    &&& forall|g: int|
        0 <= g < old_e.len() && contains_room(rooms, (#[trigger] old_e[g]).room_id@)
            ==> exists|j: int| 0 <= j < new_e.len() && new_e[j] == old_e[g]
    &&& forall|i: int| 0 <= i < rooms.len() ==> has_timeline(new_e, (#[trigger] rooms[i]).room_id@)
    &&& forall|j: int|
        0 <= j < new_e.len() ==> (exists|g: int| 0 <= g < old_e.len() && old_e[g] == new_e[j]) || (
        (#[trigger] new_e[j]).timeline.items@.len() == 0 && !has_timeline(
            old_e,
            new_e[j].room_id@,
        ))
}

/// Which room identifiers got a newly created timeline: exactly the rooms
/// now present that had none before.
pub open spec fn created_ids_ok(
    ids: Seq<String>,
    old_e: Seq<TimelineEntry>,
    rooms: Seq<RoomEntry>,
) -> bool {
    &&& forall|j: int|
        0 <= j < ids.len() ==> contains_room(rooms, (#[trigger] ids[j])@) && !has_timeline(
            old_e,
            ids[j]@,
        )
    &&& forall|i: int|
        0 <= i < rooms.len() && !has_timeline(old_e, (#[trigger] rooms[i]).room_id@)
            ==> exists|j: int| 0 <= j < ids.len() && ids[j]@ == rooms[i].room_id@
}

/// Apply one batch of the room-list feed, in arrival order: the structural
/// edits first, then the metadata recomputation for every room present, then
/// the timeline lifecycle — every room observed for the first time gets a
/// fresh timeline with a running listener (the returned identifiers, so the
/// caller can subscribe them to their feeds), and the timeline and listener
/// of every room that disappeared are torn down. An out-of-range edit is
/// fatal for the rest of its batch and is reported as a protocol failure;
/// the edits before it stay applied and the registry is left consistent.
#[verifier::rlimit(100)]
pub fn handle_room_list_batch(app: &mut App, batch: Vec<VectorDiff<RoomEntry>>) -> (r: Result<
    Vec<String>,
    CoreError,
>)
    requires
        old(app).wf(),
    ensures
        final(app).wf(),
        old(app).config is None ==> r == Err::<Vec<String>, CoreError>(CoreError::NotInitialized)
            && *final(app) == *old(app),
        old(app).config is Some ==> {
            &&& final(app).config == old(app).config
            &&& final(app).authenticated == old(app).authenticated
            &&& final(app).build_count == old(app).build_count
            &&& final(app).status == old(app).status
            &&& final(app).sync_status == old(app).sync_status
            &&& final(app).room_view == old(app).room_view
            &&& (r is Ok <==> batch_valid(old(app).room_list.rooms@, batch@))
            &&& (r is Ok ==> final(app).room_list.rooms@ == batch_result(
                old(app).room_list.rooms@,
                batch@,
            ))
            &&& (r is Ok && rooms_unique(batch_result(old(app).room_list.rooms@, batch@))
                ==> rooms_unique(final(app).room_list.rooms@))
            &&& (r is Err ==> r == Err::<Vec<String>, CoreError>(CoreError::ProtocolFailure)
                && exists|k: int|
                0 <= k < batch@.len() && #[trigger] batch_valid(
                    old(app).room_list.rooms@,
                    batch@.take(k),
                ) && !diff_valid(
                    batch_result(old(app).room_list.rooms@, batch@.take(k)),
                    batch@[k],
                ) && final(app).room_list.rooms@ == batch_result(
                    old(app).room_list.rooms@,
                    batch@.take(k),
                ))
            &&& infos_match(final(app).room_list.rooms@, final(app).room_list.room_infos@)
            &&& timelines_synced(
                old(app).timelines.entries@,
                final(app).timelines.entries@,
                final(app).room_list.rooms@,
            )
            &&& (r matches Ok(ids) ==> created_ids_ok(
                ids@,
                old(app).timelines.entries@,
                final(app).room_list.rooms@,
            ))
        },
{
    if app.config.is_none() {
        return Err(CoreError::NotInitialized);
    }
    let ghost old_entries = app.timelines.entries@;

    // Structural edits, strictly in arrival order.
    let applied = apply_batch(&mut app.room_list.rooms, batch);

    // Metadata recomputation for every room currently present; decoupled
    // from the structural pass so a missing metadatum never blocks it.
    app.room_list.room_infos = recompute_room_infos(&app.room_list.rooms);


    // Tear down the timeline and listener of every room that disappeared,
    // then create one for every room observed for the first time.
    let ghost rooms_now = app.room_list.rooms@;
    retain_present_timelines(&mut app.timelines, &app.room_list.rooms);
    let ghost kept_entries = app.timelines.entries@;
    proof {
        let pred = entry_room_present(rooms_now);
        lemma_filter_keeps_unique(old_entries, pred);
        lemma_filter_from_source(old_entries, pred);
        assert forall|j: int| 0 <= j < kept_entries.len() implies contains_room(
            rooms_now,
            (#[trigger] kept_entries[j]).room_id@,
        ) by {
            old_entries.lemma_filter_pred(pred, j);
        }
        assert forall|h: int|
            0 <= h < old_entries.len() && contains_room(
                rooms_now,
                (#[trigger] old_entries[h]).room_id@,
            ) implies exists|j: int|
            0 <= j < kept_entries.len() && #[trigger] kept_entries[j] == old_entries[h] by {
            old_entries.lemma_filter_contains(pred, h);
            assert(kept_entries.contains(old_entries[h]));
        }
    }
    let created = create_missing_timelines(&mut app.timelines, &app.room_list.rooms);

    proof {
        let new_e = app.timelines.entries@;
        // Retained timelines are kept whole.
        assert forall|h: int|
            0 <= h < old_entries.len() && contains_room(
                rooms_now,
                (#[trigger] old_entries[h]).room_id@,
            ) implies exists|j: int| 0 <= j < new_e.len() && new_e[j] == old_entries[h] by {
            let j = choose|j: int|
                0 <= j < kept_entries.len() && #[trigger] kept_entries[j] == old_entries[h];
            assert(new_e[j] == old_entries[h]);
        }
        // Every timeline belongs to a room that is present.
        assert forall|j: int| 0 <= j < new_e.len() implies contains_room(
            rooms_now,
            (#[trigger] new_e[j]).room_id@,
        ) by {
            if j < kept_entries.len() {
                assert(new_e[j] == kept_entries[j]);
            }
        }
        // Every timeline was either kept from before or freshly created for
        // a room that had none, and its listener runs.
        assert forall|j: int| 0 <= j < new_e.len() implies ((exists|g: int|
            0 <= g < old_entries.len() && #[trigger] old_entries[g] == new_e[j]) || ((
        #[trigger] new_e[j]).timeline.items@.len() == 0 && !has_timeline(
            old_entries,
            new_e[j].room_id@,
        ))) && new_e[j].timeline.task_running by {
            if j < kept_entries.len() {
                let h = choose|h: int|
                    0 <= h < old_entries.len() && #[trigger] old_entries[h] == kept_entries[j];
                assert(old_entries[h] == new_e[j]);
                assert(old_entries[h].timeline.task_running);
            } else {
                // A fresh entry's room had no timeline before: had one been
                // kept through the teardown pass, it would still be
                // registered and the entry would not have been created.
                assert(!has_timeline(kept_entries, new_e[j].room_id@));
                if has_timeline(old_entries, new_e[j].room_id@) {
                    let h = choose|h: int|
                        0 <= h < old_entries.len() && old_entries[h].room_id@ == new_e[j].room_id@;
                    assert(contains_room(rooms_now, old_entries[h].room_id@));
                    let jj = choose|jj: int|
                        0 <= jj < kept_entries.len() && #[trigger] kept_entries[jj] == old_entries[h];
                    assert(kept_entries[jj].room_id@ == new_e[j].room_id@);
                    assert(has_timeline(kept_entries, new_e[j].room_id@));
                }
            }
        }
        // The created identifiers are exactly the rooms that had no timeline.
        assert forall|c: int| 0 <= c < created@.len() implies contains_room(
            rooms_now,
            (#[trigger] created@[c])@,
        ) && !has_timeline(old_entries, created@[c]@) by {
            assert(!has_timeline(kept_entries, created@[c]@));
            if has_timeline(old_entries, created@[c]@) {
                let h = choose|h: int|
                    0 <= h < old_entries.len() && old_entries[h].room_id@ == created@[c]@;
                assert(contains_room(rooms_now, old_entries[h].room_id@));
                let jj = choose|jj: int|
                    0 <= jj < kept_entries.len() && #[trigger] kept_entries[jj] == old_entries[h];
                assert(has_timeline(kept_entries, created@[c]@));
            }
        }
        assert forall|i: int|
            0 <= i < rooms_now.len() && !has_timeline(
                old_entries,
                (#[trigger] rooms_now[i]).room_id@,
            ) implies exists|c: int| 0 <= c < created@.len() && created@[c]@
            == rooms_now[i].room_id@ by {
            if has_timeline(kept_entries, rooms_now[i].room_id@) {
                let jj = choose|jj: int|
                    0 <= jj < kept_entries.len() && kept_entries[jj].room_id@ == rooms_now[i].room_id@;
                let h = choose|h: int|
                    0 <= h < old_entries.len() && #[trigger] old_entries[h] == kept_entries[jj];
                assert(old_entries[h].room_id@ == rooms_now[i].room_id@);
                assert(has_timeline(old_entries, rooms_now[i].room_id@));
            }
        }
    }


    match applied {
        Ok(()) => Ok(created),
        Err(_) => Err(CoreError::ProtocolFailure),
    }
}

/// The predicate on timeline entries that keeps those whose room is
/// present in the given collection.
pub open spec fn entry_room_present(rooms: Seq<RoomEntry>) -> spec_fn(TimelineEntry) -> bool {
    |e: TimelineEntry| contains_room(rooms, e.room_id@)
}

/// Filtering keeps only entries of the source sequence: each one stands
/// somewhere in it.
proof fn lemma_filter_from_source(s: Seq<TimelineEntry>, pred: spec_fn(TimelineEntry) -> bool)
    ensures
        forall|j: int|
            0 <= j < s.filter(pred).len() ==> exists|h: int|
                0 <= h < s.len() && #[trigger] s[h] == #[trigger] s.filter(pred)[j],
    decreases s.len(),
{
    reveal(Seq::filter);
    if s.len() > 0 {
        let sub = s.drop_last();
        lemma_filter_from_source(sub, pred);
        let f = s.filter(pred);
        let f0 = sub.filter(pred);
        assert forall|j: int| 0 <= j < f.len() implies exists|h: int|
            0 <= h < s.len() && #[trigger] s[h] == #[trigger] f[j] by {
            if pred(s.last()) && j == f.len() - 1 {
                assert(s[s.len() - 1] == f[j]);
            } else {
                assert(f[j] == f0[j]);
                let h = choose|h: int| 0 <= h < sub.len() && #[trigger] sub[h] == #[trigger] f0[j];
                assert(s[h] == f[j]);
            }
        }
    }
}

/// Filtering a sequence of timelines with pairwise distinct room
/// identifiers leaves them pairwise distinct.
proof fn lemma_filter_keeps_unique(s: Seq<TimelineEntry>, pred: spec_fn(TimelineEntry) -> bool)
    requires
        timelines_unique(s),
    ensures
        timelines_unique(s.filter(pred)),
    decreases s.len(),
{
    reveal(Seq::filter);
    if s.len() > 0 {
        let sub = s.drop_last();
        assert(timelines_unique(sub)) by {
            assert(forall|i: int| 0 <= i < sub.len() ==> #[trigger] sub[i] == s[i]);
        }
        lemma_filter_keeps_unique(sub, pred);
        lemma_filter_from_source(sub, pred);
        let f = s.filter(pred);
        let f0 = sub.filter(pred);
        if pred(s.last()) {
            assert forall|j1: int, j2: int| 0 <= j1 < j2 < f.len() implies (
            #[trigger] f[j1]).room_id@ != (#[trigger] f[j2]).room_id@ by {
                if j2 == f.len() - 1 {
                    assert(f[j1] == f0[j1]);
                    let h = choose|h: int|
                        0 <= h < sub.len() && #[trigger] sub[h] == #[trigger] f0[j1];
                    assert(s[h] == f[j1]);
                    assert(s[h].room_id@ != s[s.len() - 1].room_id@);
                    assert(f[j2] == s.last());
                } else {
                    assert(f[j1] == f0[j1] && f[j2] == f0[j2]);
                }
            }
        }
    }
}

/// Drop the timeline of every room that is no longer present, cancelling
/// its listener task first. The timelines of present rooms are kept whole
/// and in order: what is left is exactly the old registry filtered to the
/// present rooms.
fn retain_present_timelines(t: &mut Timelines, rooms: &Vec<RoomEntry>)
    ensures
        final(t).entries@ == old(t).entries@.filter(entry_room_present(rooms@)),
{
    let ghost old_entries = t.entries@;
    let ghost pred = entry_room_present(rooms@);
    let mut old_list: Vec<TimelineEntry> = Vec::new();
    core::mem::swap(&mut old_list, &mut t.entries);
    let total = old_list.len();
    let mut kept: Vec<TimelineEntry> = Vec::new();
    let mut g: usize = 0;
    proof {
        reveal(Seq::filter);
        assert(old_entries.take(0) =~= Seq::<TimelineEntry>::empty());
        assert(old_entries.take(0).filter(pred) =~= kept@);
    }
    while old_list.len() > 0
        invariant
            pred == entry_room_present(rooms@),
            old_entries.len() == total,
            g + old_list@.len() == old_entries.len(),
            old_list@ =~= old_entries.subrange(g as int, old_entries.len() as int),
            kept@ == old_entries.take(g as int).filter(pred),
        decreases old_list@.len(),
    {
        let mut e = old_list.remove(0);
        proof {
            assert(e == old_entries[g as int]);
            assert(old_list@ =~= old_entries.subrange(g as int + 1, old_entries.len() as int));
            reveal(Seq::filter);
            let taken = old_entries.take(g as int + 1);
            assert(taken.drop_last() =~= old_entries.take(g as int));
            assert(taken.last() == old_entries[g as int]);
        }
        if room_present(rooms, &e.room_id) {
            kept.push(e);
        } else {
            // Cancel the listener explicitly before the timeline is dropped.
            e.timeline.task_running = false;
        }
        g = g + 1;
    }
    proof {
        assert(old_entries.take(g as int) =~= old_entries);
    }
    t.entries = kept;
}

/// Create a fresh, empty timeline with a running listener for every room
/// that has none, and hand back the identifiers of the rooms that got one.
#[verifier::rlimit(100)]
fn create_missing_timelines(t: &mut Timelines, rooms: &Vec<RoomEntry>) -> (created: Vec<String>)
    requires
        timelines_unique(old(t).entries@),
    ensures
        timelines_unique(final(t).entries@),
        old(t).entries@.len() <= final(t).entries@.len(),
        forall|j: int|
            0 <= j < old(t).entries@.len() ==> final(t).entries@[j] == #[trigger] old(t).entries@[j],
        forall|j: int|
            old(t).entries@.len() <= j < final(t).entries@.len() ==> {
                &&& (#[trigger] final(t).entries@[j]).timeline.items@.len() == 0
                &&& final(t).entries@[j].timeline.task_running
                &&& contains_room(rooms@, final(t).entries@[j].room_id@)
                &&& !has_timeline(old(t).entries@, final(t).entries@[j].room_id@)
            },
        forall|i: int|
            0 <= i < rooms@.len() ==> has_timeline(
                final(t).entries@,
                (#[trigger] rooms@[i]).room_id@,
            ),
        forall|c: int|
            0 <= c < created@.len() ==> contains_room(rooms@, (#[trigger] created@[c])@)
                && !has_timeline(old(t).entries@, created@[c]@),
        forall|i: int|
            0 <= i < rooms@.len() && !has_timeline(old(t).entries@, (#[trigger] rooms@[i]).room_id@)
                ==> exists|c: int| 0 <= c < created@.len() && created@[c]@ == rooms@[i].room_id@,
{
    let ghost base = t.entries@;
    let mut created: Vec<String> = Vec::new();
    let mut i: usize = 0;
    while i < rooms.len()
        invariant
            i <= rooms@.len(),
            timelines_unique(base),
            timelines_unique(t.entries@),
            base.len() <= t.entries@.len(),
            forall|j: int| 0 <= j < base.len() ==> t.entries@[j] == #[trigger] base[j],
            forall|j: int|
                base.len() <= j < t.entries@.len() ==> {
                    &&& (#[trigger] t.entries@[j]).timeline.items@.len() == 0
                    &&& t.entries@[j].timeline.task_running
                    &&& contains_room(rooms@, t.entries@[j].room_id@)
                    &&& !has_timeline(base, t.entries@[j].room_id@)
                    &&& exists|c: int|
                        0 <= c < created@.len() && (#[trigger] created@[c])@ == t.entries@[j].room_id@
                },
            forall|ii: int|
                0 <= ii < i ==> has_timeline(t.entries@, (#[trigger] rooms@[ii]).room_id@),
            forall|c: int|
                0 <= c < created@.len() ==> contains_room(rooms@, (#[trigger] created@[c])@)
                    && !has_timeline(base, created@[c]@),
            forall|ii: int|
                0 <= ii < i && !has_timeline(base, (#[trigger] rooms@[ii]).room_id@)
                    ==> exists|c: int| 0 <= c < created@.len() && created@[c]@ == rooms@[ii].room_id@,
        decreases rooms@.len() - i,
    {
        let ghost entries0 = t.entries@;
        let ghost created0 = created@;
        let room_id = &rooms[i].room_id;
        proof {
            assert(rooms@[i as int].room_id@ == room_id@);
            assert(contains_room(rooms@, room_id@));
        }
        let existing = t.position_of(room_id);
        match existing {
            Some(idx) => {
                proof {
                    assert(entries0[idx as int].room_id@ == room_id@);
                    assert(has_timeline(entries0, room_id@));
                    if idx >= base.len() {
                        // The identifier of a freshly created timeline was
                        // recorded when it was pushed.
                        assert(t.entries@[idx as int].timeline.items@.len() == 0);
                        assert(exists|c: int|
                            0 <= c < created@.len() && (#[trigger] created@[c])@ == t.entries@[idx as int].room_id@);
                        assert(exists|c: int|
                            0 <= c < created@.len() && (#[trigger] created@[c])@ == room_id@);
                    } else {
                        assert(base[idx as int].room_id@ == room_id@);
                        assert(has_timeline(base, room_id@));
                    }
                }
            },
            None => {
                app_push_fresh_timeline(t, room_id);
                created.push(room_id.clone());
                proof {
                    assert(forall|j: int|
                        0 <= j < entries0.len() ==> t.entries@[j] == #[trigger] entries0[j]);
                    assert(t.entries@.last().room_id@ == room_id@);
                    assert(created@.last()@ == room_id@);
                    assert(forall|c: int|
                        0 <= c < created0.len() ==> created@[c] == #[trigger] created0[c]);
                    assert(!has_timeline(entries0, room_id@));
                    if has_timeline(base, room_id@) {
                        let h = choose|h: int|
                            0 <= h < base.len() && base[h].room_id@ == room_id@;
                        assert(entries0[h] == base[h]);
                        assert(has_timeline(entries0, room_id@));
                    }
                    assert forall|j1: int, j2: int|
                        0 <= j1 < j2 < t.entries@.len() implies (
                    #[trigger] t.entries@[j1]).room_id@ != (#[trigger] t.entries@[j2]).room_id@ by {
                        if j2 == t.entries@.len() - 1 {
                            assert(t.entries@[j1] == entries0[j1]);
                            assert(entries0[j1].room_id@ != room_id@);
                            assert(t.entries@[j2].room_id@ == room_id@);
                        } else {
                            assert(t.entries@[j1] == entries0[j1]);
                            assert(t.entries@[j2] == entries0[j2]);
                        }
                    }
                    assert forall|j: int| base.len() <= j < t.entries@.len() implies {
                        &&& (#[trigger] t.entries@[j]).timeline.items@.len() == 0
                        &&& t.entries@[j].timeline.task_running
                        &&& contains_room(rooms@, t.entries@[j].room_id@)
                        &&& !has_timeline(base, t.entries@[j].room_id@)
                        &&& exists|c: int|
                            0 <= c < created@.len() && (#[trigger] created@[c])@ == t.entries@[j].room_id@
                    } by {
                        if j < t.entries@.len() - 1 {
                            assert(t.entries@[j] == entries0[j]);
                            assert(entries0[j].timeline.items@.len() == 0);
                            assert(entries0[j].timeline.task_running);
                            assert(contains_room(rooms@, entries0[j].room_id@));
                            assert(!has_timeline(base, entries0[j].room_id@));
                            let c = choose|c: int|
                                0 <= c < created0.len() && (#[trigger] created0[c])@ == entries0[j].room_id@;
                            assert(created@[c] == created0[c]);
                        } else {
                            assert(t.entries@[j] == t.entries@.last());
                            assert(t.entries@[j].room_id@ == room_id@);
                            assert(created@[created@.len() - 1]@ == t.entries@[j].room_id@);
                        }
                    }
                }
            },
        }
        proof {
            assert forall|ii: int| 0 <= ii < i + 1 implies has_timeline(
                t.entries@,
                (#[trigger] rooms@[ii]).room_id@,
            ) by {
                if ii < i {
                    let j = choose|j: int|
                        0 <= j < entries0.len() && entries0[j].room_id@ == rooms@[ii].room_id@;
                    assert(t.entries@[j] == entries0[j]);
                } else {
                    assert(has_timeline(t.entries@, room_id@));
                }
            }
            assert forall|ii: int|
                0 <= ii < i + 1 && !has_timeline(
                    base,
                    (#[trigger] rooms@[ii]).room_id@,
                ) implies exists|c: int| 0 <= c < created@.len() && created@[c]@ == rooms@[ii].room_id@ by {
                if ii < i {
                    let c = choose|c: int|
                        0 <= c < created0.len() && created0[c]@ == rooms@[ii].room_id@;
                    assert(created@[c] == created0[c]);
                }
            }
        }
        i = i + 1;
    }
    created
}

/// How the timeline registry looks after a batch was applied to one room's
/// items: the entry at the room's (first) position has its item list
/// updated and everything else — the other entries, the entry's identifier
/// and its listener — stands as before.
pub open spec fn timeline_batch_applied(
    old_e: Seq<TimelineEntry>,
    new_e: Seq<TimelineEntry>,
    id: Seq<char>,
    batch: Seq<VectorDiff<TimelineItems>>,
    ok: bool,
) -> bool {
    exists|ix: int|
        {
            &&& 0 <= ix < old_e.len()
            &&& (#[trigger] old_e[ix]).room_id@ == id
            &&& forall|j: int| 0 <= j < ix ==> old_e[j].room_id@ != id
            &&& new_e.len() == old_e.len()
            &&& forall|j: int| 0 <= j < old_e.len() && j != ix ==> new_e[j] == old_e[j]
            &&& new_e[ix].room_id == old_e[ix].room_id
            &&& new_e[ix].timeline.task_running == old_e[ix].timeline.task_running
            &&& (ok <==> batch_valid(old_e[ix].timeline.items@, batch))
            &&& (ok ==> new_e[ix].timeline.items@ == batch_result(
                old_e[ix].timeline.items@,
                batch,
            ))
            &&& (!ok ==> exists|k: int|
                0 <= k < batch.len() && #[trigger] batch_valid(
                    old_e[ix].timeline.items@,
                    batch.take(k),
                ) && !diff_valid(
                    batch_result(old_e[ix].timeline.items@, batch.take(k)),
                    batch[k],
                ) && new_e[ix].timeline.items@ == batch_result(
                    old_e[ix].timeline.items@,
                    batch.take(k),
                ))
        }
}

/// Apply one batch of a room's timeline feed to that room's item list, in
/// arrival order. Fails with `RoomNotFound` when no timeline is registered
/// for the identifier; an out-of-range edit is fatal for the rest of its
/// batch and is reported as a protocol failure, the edits before it staying
/// applied.
pub fn handle_timeline_batch(
    app: &mut App,
    room_id: &String,
    batch: Vec<VectorDiff<TimelineItems>>,
) -> (r: Result<(), CoreError>)
    requires
        old(app).wf(),
    ensures
        final(app).wf(),
        old(app).config is None ==> r == Err::<(), CoreError>(CoreError::NotInitialized) && *final(app) == *old(app),
        old(app).config is Some && !has_timeline(old(app).timelines.entries@, room_id@) ==> r
            == Err::<(), CoreError>(CoreError::RoomNotFound) && *final(app) == *old(app),
        old(app).config is Some && has_timeline(old(app).timelines.entries@, room_id@) ==> {
            &&& final(app).config == old(app).config
            &&& final(app).authenticated == old(app).authenticated
            &&& final(app).build_count == old(app).build_count
            &&& final(app).room_list == old(app).room_list
            &&& final(app).status == old(app).status
            &&& final(app).sync_status == old(app).sync_status
            &&& final(app).room_view == old(app).room_view
            &&& (r is Ok || r == Err::<(), CoreError>(CoreError::ProtocolFailure))
            &&& timeline_batch_applied(
                old(app).timelines.entries@,
                final(app).timelines.entries@,
                room_id@,
                batch@,
                r is Ok,
            )
        },
{
    if app.config.is_none() {
        return Err(CoreError::NotInitialized);
    }
    let ghost old_entries = app.timelines.entries@;
    let pos = app.timelines.position_of(room_id);
    match pos {
        None => Err(CoreError::RoomNotFound),
        Some(ix) => {
            let mut e = app.timelines.entries.remove(ix);
            let ghost mid = app.timelines.entries@;
            let applied = apply_batch(&mut e.timeline.items, batch);
            app.timelines.entries.insert(ix, e);
            proof {
                let new_e = app.timelines.entries@;
                assert(mid == old_entries.remove(ix as int));
                assert(new_e =~= old_entries.update(ix as int, new_e[ix as int]));
                assert(forall|j: int|
                    0 <= j < old_entries.len() && j != ix ==> new_e[j] == #[trigger] old_entries[j]);
                assert(new_e[ix as int].room_id == old_entries[ix as int].room_id);
                assert(timelines_unique(new_e)) by {
                    assert(forall|j: int|
                        0 <= j < new_e.len() ==> (#[trigger] new_e[j]).room_id@ == old_entries[j].room_id@);
                }
                assert(has_timeline(old_entries, room_id@)) by {
                    assert(old_entries[ix as int].room_id@ == room_id@);
                }
            }
            match applied {
                Ok(()) => Ok(()),
                Err(_) => Err(CoreError::ProtocolFailure),
            }
        },
    }
}

/// A point-in-time snapshot of a room's timeline, materialized as consumer
/// messages. An identifier that fails local validation is rejected with
/// `MalformedInput`, and one not in the room registry with `RoomNotFound`,
/// both before any remote call; a registered room whose timeline has not
/// been created yet yields an empty snapshot, not an error.
pub fn get_timeline_items_by_room_id(app: &App, room_id: &String) -> (r: Result<
    Vec<Message>,
    CoreError,
>)
    ensures
        app.config is None ==> r == Err::<Vec<Message>, CoreError>(CoreError::NotInitialized),
        app.config is Some && !valid_room_id(room_id@) ==> r == Err::<Vec<Message>, CoreError>(
            CoreError::MalformedInput,
        ),
        app.config is Some && valid_room_id(room_id@) && !contains_room(
            app.room_list.rooms@,
            room_id@,
        ) ==> r == Err::<Vec<Message>, CoreError>(CoreError::RoomNotFound),
        app.config is Some && valid_room_id(room_id@) && contains_room(
            app.room_list.rooms@,
            room_id@,
        ) ==> (r matches Ok(ms) && (if has_timeline(app.timelines.entries@, room_id@) {
            exists|ix: int|
                {
                    &&& 0 <= ix < app.timelines.entries@.len()
                    &&& (#[trigger] app.timelines.entries@[ix]).room_id@ == room_id@
                    &&& forall|j: int|
                        0 <= j < ix ==> app.timelines.entries@[j].room_id@ != room_id@
                    &&& are_messages_of(app.timelines.entries@[ix].timeline.items@, ms@)
                }
        } else {
            ms@.len() == 0
        })),
{
    if app.config.is_none() {
        return Err(CoreError::NotInitialized);
    }
    if !is_valid_room_id(room_id) {
        return Err(CoreError::MalformedInput);
    }
    if !room_present(&app.room_list.rooms, room_id) {
        return Err(CoreError::RoomNotFound);
    }
    let pos = app.timelines.position_of(room_id);
    match pos {
        None => Ok(Vec::new()),
        Some(ix) => {
            let ms = materialize_items(&app.timelines.entries[ix].timeline.items);
            proof {
                assert(app.timelines.entries@[ix as int].room_id@ == room_id@);
                assert(has_timeline(app.timelines.entries@, room_id@));
            }
            Ok(ms)
        },
    }
}

/// Register a fresh, empty timeline for the room, its listener marked
/// running.
fn app_push_fresh_timeline(t: &mut Timelines, room_id: &String)
    ensures
        final(t).entries@.len() == old(t).entries@.len() + 1,
        forall|j: int|
            0 <= j < old(t).entries@.len() ==> final(t).entries@[j] == #[trigger] old(t).entries@[j],
        final(t).entries@.last().room_id@ == room_id@,
        final(t).entries@.last().timeline.items@.len() == 0,
        final(t).entries@.last().timeline.task_running,
{
    t.entries.push(
        TimelineEntry {
            room_id: room_id.clone(),
            timeline: Timeline { items: Vec::new(), task_running: true },
        },
    );
}

} // verus!
