//! The room registry: the authoritative ordered collection of known rooms
//! and the side table of derived per-room metadata.
//!
//! Rooms enter, change and leave only through the diff batches of the
//! protocol engine's room-list feed, applied strictly in delivery order.
//! That a room identifier appears at most once in the collection is the
//! feed's guarantee; the registry applies its edits as delivered and does
//! not re-check it, but the contracts keep the invariant visible: a batch
//! whose model result is id-unique leaves the collection id-unique, and the
//! snapshots promise distinct identifiers whenever the collection has them.
//! Consumer queries read snapshots and never mutate the collection.

use crate::status::StatusHandle;
use crate::text::clone_opt_string;
use crate::timelines::Message;
use crate::timelines::MessageType;
use vstd::prelude::*;

verus! {

/// A room's membership state, as the room-list feed reports it.
#[derive(Debug, Clone, Copy, PartialEq, Eq, Structural)]
pub enum UpdateType {
    Joined,
    Left,
    Invited,
    Knocked,
    Banned,
}

/// One room of the registry's ordered collection, with everything the
/// coordinator reads of it: identifiers and names, the lazily computed
/// direct-message flag (absent while unknown), membership, unread counters
/// and the most recent message synopsis.
#[derive(Debug)]
pub struct RoomEntry {
    pub room_id: String,
    pub raw_name: Option<String>,
    pub display_name: Option<String>,
    pub is_dm: Option<bool>,
    pub membership: UpdateType,
    pub topic: Option<String>,
    pub member_count: u64,
    pub unread_notifications: u64,
    pub unread_highlight: u64,
    pub unread_mentions: u64,
    pub unread_messages: u64,
    pub latest_event: Option<Message>,
}

impl Clone for RoomEntry {
    fn clone(&self) -> (r: Self)
        ensures
            r == *self,
    {
        RoomEntry {
            room_id: self.room_id.clone(),
            raw_name: clone_opt_string(&self.raw_name),
            display_name: clone_opt_string(&self.display_name),
            is_dm: self.is_dm,
            membership: self.membership,
            topic: clone_opt_string(&self.topic),
            member_count: self.member_count,
            unread_notifications: self.unread_notifications,
            unread_highlight: self.unread_highlight,
            unread_mentions: self.unread_mentions,
            unread_messages: self.unread_messages,
            latest_event: match &self.latest_event {
                Some(m) => Some(m.clone()),
                None => None,
            },
        }
    }
}

/// Derived metadata of one room, recomputed after every room-list batch. A
/// field is absent when its computation was not possible; that is non-fatal
/// and never blocks structural updates.
#[derive(Debug)]
pub struct ExtraRoomInfo {
    /// Content of the raw room-name event, if available.
    pub raw_name: Option<String>,
    /// Calculated display name for the room.
    pub display_name: Option<String>,
    /// Whether the room is a direct message; absent while the membership
    /// check has not succeeded yet.
    pub is_dm: Option<bool>,
}

impl Clone for ExtraRoomInfo {
    fn clone(&self) -> (r: Self)
        ensures
            r == *self,
    {
        ExtraRoomInfo {
            raw_name: clone_opt_string(&self.raw_name),
            display_name: clone_opt_string(&self.display_name),
            is_dm: self.is_dm,
        }
    }
}

/// The metadata side table's entry for one room.
#[derive(Debug)]
pub struct RoomInfoEntry {
    pub room_id: String,
    pub info: ExtraRoomInfo,
}

/// A consumer-facing room update message.
#[derive(Debug)]
pub struct RoomUpdate {
    pub room_id: String,
    pub raw_name: Option<String>,
    pub display_name: Option<String>,
    pub is_dm: Option<bool>,
    pub update_type: UpdateType,
    pub unread_notifications: Option<u64>,
    pub unread_highlight: Option<u64>,
    pub unread_mentions: Option<u64>,
    pub unread_messages: Option<u64>,
    pub message: Option<Message>,
}

/// The registry: the ordered room collection and the metadata side table,
/// plus the handle used to surface transient status text.
#[derive(Debug)]
pub struct RoomList {
    pub status_handle: StatusHandle,
    pub rooms: Vec<RoomEntry>,
    /// Extra information about rooms.
    pub room_infos: Vec<RoomInfoEntry>,
    /// The room currently subscribed to, if any.
    pub current_room_subscription: Option<String>,
}

/// Whether the collection contains a room with the given identifier.
pub open spec fn contains_room(rooms: Seq<RoomEntry>, id: Seq<char>) -> bool {
    exists|i: int| 0 <= i < rooms.len() && rooms[i].room_id@ == id
}

/// A room identifier appears at most once in the collection. The feed is
/// what establishes this: the registry applies batches as delivered, so a
/// batch whose model result is id-unique leaves the collection id-unique.
pub open spec fn rooms_unique(rooms: Seq<RoomEntry>) -> bool {
    forall|i: int, j: int|
        0 <= i < j < rooms.len() ==> #[trigger] rooms[i].room_id@ != #[trigger] rooms[j].room_id@
}

/// The first room with the given identifier, in collection order.
pub open spec fn find_room(rooms: Seq<RoomEntry>, id: Seq<char>) -> Option<RoomEntry>
    decreases rooms.len(),
{
    if rooms.len() == 0 {
        None
    } else if rooms[0].room_id@ == id {
        Some(rooms[0])
    } else {
        find_room(rooms.drop_first(), id)
    }
}

/// A room is found exactly when one with that identifier is present, and
/// what is found is a present entry carrying that identifier.
pub proof fn lemma_find_room(rooms: Seq<RoomEntry>, id: Seq<char>)
    ensures
        find_room(rooms, id) is Some <==> contains_room(rooms, id),
        find_room(rooms, id) matches Some(e) ==> e.room_id@ == id && exists|i: int|
            0 <= i < rooms.len() && rooms[i] == e,
    decreases rooms.len(),
{
    if rooms.len() == 0 {
    } else if rooms[0].room_id@ == id {
        assert(rooms[0].room_id@ == id);
    } else {
        let rest = rooms.drop_first();
        lemma_find_room(rest, id);
        assert(forall|i: int| 0 <= i < rest.len() ==> #[trigger] rest[i] == rooms[i + 1]);
        if contains_room(rooms, id) {
            let i = choose|i: int| 0 <= i < rooms.len() && rooms[i].room_id@ == id;
            assert(rest[i - 1].room_id@ == id);
            assert(contains_room(rest, id));
        }
        if contains_room(rest, id) {
            let j = choose|j: int| 0 <= j < rest.len() && rest[j].room_id@ == id;
            assert(rooms[j + 1].room_id@ == id);
            assert(contains_room(rooms, id));
        }
        match find_room(rest, id) {
            Some(e) => {
                let j = choose|j: int| 0 <= j < rest.len() && rest[j] == e;
                assert(rooms[j + 1] == e);
            },
            None => {},
        }
    }
}

impl RoomList {
    /// A registry over the given collections.
    pub fn new(
        rooms: Vec<RoomEntry>,
        room_infos: Vec<RoomInfoEntry>,
        status_handle: StatusHandle,
    ) -> (r: Self)
        ensures
            r.rooms == rooms,
            r.room_infos == room_infos,
            r.status_handle == status_handle,
            r.current_room_subscription is None,
    {
        RoomList { status_handle, rooms, room_infos, current_room_subscription: None }
    }

    /// Look a room up by its identifier: the first entry carrying it, if any.
    pub fn get_room_by_id(&self, room_id: &String) -> (r: Option<RoomEntry>)
        ensures
            r == find_room(self.rooms@, room_id@),
    {
        proof {
            lemma_find_room(self.rooms@, room_id@);
            assert(self.rooms@.subrange(0, self.rooms@.len() as int) =~= self.rooms@);
        }
        let mut i: usize = 0;
        while i < self.rooms.len()
            invariant
                i <= self.rooms@.len(),
                forall|j: int| 0 <= j < i ==> self.rooms@[j].room_id@ != room_id@,
                find_room(self.rooms@, room_id@) == find_room(
                    self.rooms@.subrange(i as int, self.rooms@.len() as int),
                    room_id@,
                ),
            decreases self.rooms@.len() - i,
        {
            if self.rooms[i].room_id == *room_id {
                let e = self.rooms[i].clone();
                proof {
                    let rest = self.rooms@.subrange(i as int, self.rooms@.len() as int);
                    assert(rest[0] == self.rooms@[i as int]);
                }
                return Some(e);
            }
            proof {
                let rest = self.rooms@.subrange(i as int, self.rooms@.len() as int);
                assert(rest.drop_first() =~= self.rooms@.subrange(
                    i as int + 1,
                    self.rooms@.len() as int,
                ));
            }
            i = i + 1;
        }
        proof {
            assert(self.rooms@.subrange(i as int, self.rooms@.len() as int).len() == 0);
        }
        None
    }
}

/// Whether the collection holds a room with the given identifier.
pub fn room_present(rooms: &Vec<RoomEntry>, id: &String) -> (b: bool)
    ensures
        b == contains_room(rooms@, id@),
{
    let mut i: usize = 0;
    while i < rooms.len()
        invariant
            i <= rooms@.len(),
            forall|j: int| 0 <= j < i ==> rooms@[j].room_id@ != id@,
        decreases rooms@.len() - i,
    {
        if rooms[i].room_id == *id {
            return true;
        }
        i = i + 1;
    }
    false
}

/// Whether a room update message carries exactly the data of a room entry:
/// identifier, names and direct-message flag as they stand, the given
/// update type, each unread counter, and the most recent message synopsis
/// (an empty synopsis when the room has none).
pub open spec fn is_room_update_of_as(room: RoomEntry, t: UpdateType, u: RoomUpdate) -> bool {
    &&& u.room_id == room.room_id
    &&& u.raw_name == room.raw_name
    &&& u.display_name == room.display_name
    &&& u.is_dm == room.is_dm
    &&& u.update_type == t
    &&& u.unread_notifications == Some(room.unread_notifications)
    &&& u.unread_highlight == Some(room.unread_highlight)
    &&& u.unread_mentions == Some(room.unread_mentions)
    &&& u.unread_messages == Some(room.unread_messages)
    &&& match room.latest_event {
        Some(m) => u.message == Some(m),
        None => u.message matches Some(m0) && is_empty_synopsis(m0),
    }
}

/// The same, with the room's own membership state as the update type.
pub open spec fn is_room_update_of(room: RoomEntry, u: RoomUpdate) -> bool {
    is_room_update_of_as(room, room.membership, u)
}

/// The synopsis used when a room has no latest event yet.
pub open spec fn is_empty_synopsis(m: Message) -> bool {
    &&& m.event_id@ == Seq::<char>::empty()
    &&& m.sender@ == Seq::<char>::empty()
    &&& m.content@ == Seq::<char>::empty()
    &&& m.timestamp == 0
    &&& m.message_type == MessageType::Message
}

/// Assemble the consumer-facing update message for one room.
pub fn get_room_update_data(room: &RoomEntry) -> (u: RoomUpdate)
    ensures
        is_room_update_of(*room, u),
{
    get_room_update_data_as(room, room.membership)
}

/// Assemble the update message for one room, carrying the given update
/// type: the room-update feed reports each identifier under the membership
/// list it arrived on.
pub fn get_room_update_data_as(room: &RoomEntry, t: UpdateType) -> (u: RoomUpdate)
    ensures
        is_room_update_of_as(*room, t, u),
{
    let message = match &room.latest_event {
        Some(m) => m.clone(),
        None => Message {
            event_id: String::new(),
            sender: String::new(),
            content: String::new(),
            timestamp: 0,
            message_type: MessageType::Message,
        },
    };
    RoomUpdate {
        room_id: room.room_id.clone(),
        raw_name: clone_opt_string(&room.raw_name),
        display_name: clone_opt_string(&room.display_name),
        is_dm: room.is_dm,
        update_type: t,
        unread_notifications: Some(room.unread_notifications),
        unread_highlight: Some(room.unread_highlight),
        unread_mentions: Some(room.unread_mentions),
        unread_messages: Some(room.unread_messages),
        message: Some(message),
    }
}

/// A consumer update message for every room of the registry, in collection
/// order: a point-in-time snapshot, safe to call repeatedly.
pub fn get_all_rooms(room_list: &RoomList) -> (r: Vec<RoomUpdate>)
    ensures
        r@.len() == room_list.rooms@.len(),
        forall|i: int|
            0 <= i < r@.len() ==> is_room_update_of(room_list.rooms@[i], #[trigger] r@[i]),
        rooms_unique(room_list.rooms@) ==> forall|i: int, j: int|
            0 <= i < j < r@.len() ==> #[trigger] r@[i].room_id@ != #[trigger] r@[j].room_id@,
{
    let mut r: Vec<RoomUpdate> = Vec::new();
    let mut i: usize = 0;
    while i < room_list.rooms.len()
        invariant
            i <= room_list.rooms@.len(),
            r@.len() == i,
            forall|j: int|
                0 <= j < i ==> is_room_update_of(room_list.rooms@[j], #[trigger] r@[j]),
        decreases room_list.rooms@.len() - i,
    {
        r.push(get_room_update_data(&room_list.rooms[i]));
        i = i + 1;
    }
    r
}

/// Whether `out` is exactly the update messages for the identifiers of
/// `ids`, in order, each carrying the given update type, with identifiers
/// that are not registered skipped: the shape of one membership list of a
/// room-update feed delivery.
pub open spec fn is_updates_for(
    rooms: Seq<RoomEntry>,
    ids: Seq<String>,
    t: UpdateType,
    out: Seq<RoomUpdate>,
) -> bool
    decreases ids.len(),
{
    if ids.len() == 0 {
        out.len() == 0
    } else {
        match find_room(rooms, ids[0]@) {
            Some(e) => out.len() > 0 && is_room_update_of_as(e, t, out[0]) && is_updates_for(
                rooms,
                ids.drop_first(),
                t,
                out.drop_first(),
            ),
            None => is_updates_for(rooms, ids.drop_first(), t, out),
        }
    }
}

/// Extending the identifier list by one at its end extends the update list
/// by that identifier's message, or by nothing when it is not registered.
proof fn lemma_updates_for_snoc(
    rooms: Seq<RoomEntry>,
    ids: Seq<String>,
    x: String,
    t: UpdateType,
    out: Seq<RoomUpdate>,
    u: RoomUpdate,
)
    requires
        is_updates_for(rooms, ids, t, out),
    ensures
        (find_room(rooms, x@) matches Some(e) && is_room_update_of_as(e, t, u)) ==> is_updates_for(
            rooms,
            ids.push(x),
            t,
            out.push(u),
        ),
        find_room(rooms, x@) is None ==> is_updates_for(rooms, ids.push(x), t, out),
    decreases ids.len(),
{
    if ids.len() == 0 {
        assert(ids.push(x)[0] == x);
        assert(ids.push(x).drop_first() =~= Seq::<String>::empty());
        match find_room(rooms, x@) {
            Some(e) => {
                if is_room_update_of_as(e, t, u) {
                    assert(out.len() == 0);
                    assert(out.push(u)[0] == u);
                    assert(out.push(u).drop_first() =~= Seq::<RoomUpdate>::empty());
                    assert(is_updates_for(
                        rooms,
                        ids.push(x).drop_first(),
                        t,
                        out.push(u).drop_first(),
                    ));
                    assert(is_updates_for(rooms, ids.push(x), t, out.push(u)));
                }
            },
            None => {
                assert(is_updates_for(rooms, ids.push(x).drop_first(), t, out));
                assert(is_updates_for(rooms, ids.push(x), t, out));
            },
        }
    } else {
        let ids2 = ids.drop_first();
        assert(ids.push(x)[0] == ids[0]);
        assert(ids.push(x).drop_first() =~= ids2.push(x));
        match find_room(rooms, ids[0]@) {
            Some(e0) => {
                assert(out.len() > 0 && is_room_update_of_as(e0, t, out[0]) && is_updates_for(
                    rooms,
                    ids2,
                    t,
                    out.drop_first(),
                ));
                lemma_updates_for_snoc(rooms, ids2, x, t, out.drop_first(), u);
                match find_room(rooms, x@) {
                    Some(e) => {
                        if is_room_update_of_as(e, t, u) {
                            assert(out.push(u)[0] == out[0]);
                            assert(out.push(u).drop_first() =~= out.drop_first().push(u));
                            assert(is_updates_for(rooms, ids2.push(x), t, out.drop_first().push(u)));
                            assert(is_updates_for(rooms, ids.push(x), t, out.push(u)));
                        }
                    },
                    None => {
                        assert(is_updates_for(rooms, ids2.push(x), t, out.drop_first()));
                        assert(is_updates_for(rooms, ids.push(x), t, out));
                    },
                }
            },
            None => {
                assert(is_updates_for(rooms, ids2, t, out));
                lemma_updates_for_snoc(rooms, ids2, x, t, out, u);
                match find_room(rooms, x@) {
                    Some(e) => {
                        if is_room_update_of_as(e, t, u) {
                            assert(is_updates_for(rooms, ids2.push(x), t, out.push(u)));
                            assert(is_updates_for(rooms, ids.push(x), t, out.push(u)));
                        }
                    },
                    None => {
                        assert(is_updates_for(rooms, ids2.push(x), t, out));
                        assert(is_updates_for(rooms, ids.push(x), t, out));
                    },
                }
            },
        }
    }
}

/// The update messages for one membership list of a feed delivery: one
/// message per registered identifier, in list order, carrying the given
/// update type; unknown identifiers are skipped rather than failing the
/// delivery.
pub fn room_updates_for(room_list: &RoomList, ids: &Vec<String>, t: UpdateType) -> (r: Vec<
    RoomUpdate,
>)
    ensures
        is_updates_for(room_list.rooms@, ids@, t, r@),
{
    let mut r: Vec<RoomUpdate> = Vec::new();
    let mut i: usize = 0;
    proof {
        assert(ids@.take(0) =~= Seq::<String>::empty());
    }
    while i < ids.len()
        invariant
            i <= ids@.len(),
            is_updates_for(room_list.rooms@, ids@.take(i as int), t, r@),
        decreases ids@.len() - i,
    {
        let ghost ids_seen = ids@.take(i as int);
        let ghost out0 = r@;
        let id = &ids[i];
        match room_list.get_room_by_id(id) {
            Some(room) => {
                let u = get_room_update_data_as(&room, t);
                proof {
                    lemma_updates_for_snoc(room_list.rooms@, ids_seen, *id, t, out0, u);
                }
                r.push(u);
            },
            None => {
                proof {
                    let ghost u0 = arbitrary::<RoomUpdate>();
                    lemma_updates_for_snoc(room_list.rooms@, ids_seen, *id, t, out0, u0);
                }
            },
        }
        proof {
            assert(ids_seen.push(ids@[i as int]) =~= ids@.take(i as int + 1));
        }
        i = i + 1;
    }
    proof {
        assert(ids@.take(ids@.len() as int) =~= ids@);
    }
    r
}

/// Assemble one delivery of the room-update feed: the joined, invited and
/// left identifier lists, in that order, each identifier mapped to its
/// registered room's update message under that membership, with unknown
/// identifiers skipped.
pub fn assemble_room_updates(
    room_list: &RoomList,
    joined: &Vec<String>,
    invited: &Vec<String>,
    left: &Vec<String>,
) -> (r: Vec<RoomUpdate>)
    ensures
        exists|a: Seq<RoomUpdate>, b: Seq<RoomUpdate>, c: Seq<RoomUpdate>|
            #![trigger is_updates_for(room_list.rooms@, joined@, UpdateType::Joined, a), is_updates_for(room_list.rooms@, invited@, UpdateType::Invited, b), is_updates_for(room_list.rooms@, left@, UpdateType::Left, c)]
            {
                &&& is_updates_for(room_list.rooms@, joined@, UpdateType::Joined, a)
                &&& is_updates_for(room_list.rooms@, invited@, UpdateType::Invited, b)
                &&& is_updates_for(room_list.rooms@, left@, UpdateType::Left, c)
                &&& r@ == a + b + c
            },
{
    let mut r = room_updates_for(room_list, joined, UpdateType::Joined);
    let ghost a = r@;
    let mut from_invited = room_updates_for(room_list, invited, UpdateType::Invited);
    let ghost b = from_invited@;
    let mut from_left = room_updates_for(room_list, left, UpdateType::Left);
    let ghost c = from_left@;
    r.append(&mut from_invited);
    r.append(&mut from_left);
    proof {
        assert(r@ =~= a + b + c);
    }
    r
}

/// Whether the metadata side table mirrors the room collection: one entry
/// per room, in order, each carrying the metadata derived from its room.
pub open spec fn infos_match(rooms: Seq<RoomEntry>, infos: Seq<RoomInfoEntry>) -> bool {
    &&& infos.len() == rooms.len()
    &&& forall|i: int|
        0 <= i < rooms.len() ==> {
            &&& (#[trigger] infos[i]).room_id == rooms[i].room_id
            &&& infos[i].info.raw_name == rooms[i].raw_name
            &&& infos[i].info.display_name == rooms[i].display_name
            &&& infos[i].info.is_dm == rooms[i].is_dm
        }
}

/// Recompute the metadata side table from the current room collection.
/// A room whose direct-message check has not succeeded keeps the flag
/// absent; that never blocks the structural update.
pub fn recompute_room_infos(rooms: &Vec<RoomEntry>) -> (infos: Vec<RoomInfoEntry>)
    ensures
        infos_match(rooms@, infos@),
{
    let mut infos: Vec<RoomInfoEntry> = Vec::new();
    let mut i: usize = 0;
    while i < rooms.len()
        invariant
            i <= rooms@.len(),
            infos@.len() == i,
            forall|j: int|
                0 <= j < i ==> {
                    &&& (#[trigger] infos@[j]).room_id == rooms@[j].room_id
                    &&& infos@[j].info.raw_name == rooms@[j].raw_name
                    &&& infos@[j].info.display_name == rooms@[j].display_name
                    &&& infos@[j].info.is_dm == rooms@[j].is_dm
                },
        decreases rooms@.len() - i,
    {
        let room = &rooms[i];
        infos.push(
            RoomInfoEntry {
                room_id: room.room_id.clone(),
                info: ExtraRoomInfo {
                    raw_name: clone_opt_string(&room.raw_name),
                    display_name: clone_opt_string(&room.display_name),
                    is_dm: room.is_dm,
                },
            },
        );
        i = i + 1;
    }
    infos
}

} // verus!
