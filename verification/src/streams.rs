//! The per-room timeline channels to the consumer.
//!
//! The consumer installs one channel per room it watches; each timeline
//! event for that room is queued on its channel, in production order, until
//! the host forwards it. At most one channel exists per room identifier:
//! installing a second replaces the first.

use crate::api::RoomTimeline;
use crate::errors::CoreError;
use vstd::prelude::*;

verus! {

/// One room's channel: the room it belongs to and the events queued on it.
#[derive(Debug)]
pub struct TimelineStreamEntry {
    pub room_id: String,
    pub pending: Vec<RoomTimeline>,
}

/// The channels of every watched room, at most one per room identifier.
#[derive(Debug)]
pub struct TimelineStreams {
    pub entries: Vec<TimelineStreamEntry>,
}

/// Whether a channel is installed for the given room identifier.
pub open spec fn has_stream(entries: Seq<TimelineStreamEntry>, id: Seq<char>) -> bool {
    exists|i: int| 0 <= i < entries.len() && entries[i].room_id@ == id
}

/// At most one channel per room identifier.
pub open spec fn streams_unique(entries: Seq<TimelineStreamEntry>) -> bool {
    forall|i: int, j: int|
        0 <= i < j < entries.len() ==> #[trigger] entries[i].room_id@ != #[trigger] entries[j].room_id@
}

/// Every entry of `b` stands somewhere in `a`.
pub open spec fn entries_from(a: Seq<TimelineStreamEntry>, b: Seq<TimelineStreamEntry>) -> bool {
    forall|j: int|
        #![trigger b[j]]
        0 <= j < b.len() ==> exists|h: int| #![trigger a[h]] 0 <= h < a.len() && a[h] == b[j]
}

/// Every entry of `a` not carrying the given identifier stands somewhere
/// in `b`.
pub open spec fn entries_kept_except(
    a: Seq<TimelineStreamEntry>,
    b: Seq<TimelineStreamEntry>,
    id: Seq<char>,
) -> bool {
    forall|h: int|
        #![trigger a[h]]
        0 <= h < a.len() && a[h].room_id@ != id ==> exists|j: int|
            #![trigger b[j]]
            0 <= j < b.len() && b[j] == a[h]
}

impl TimelineStreams {
    /// A registry with no channels.
    pub fn new() -> (r: TimelineStreams)
        ensures
            r.entries@ =~= Seq::<TimelineStreamEntry>::empty(),
            streams_unique(r.entries@),
    {
        TimelineStreams { entries: Vec::new() }
    }

    /// The position of the room's channel, if one is installed.
    pub fn position_of(&self, room_id: &String) -> (r: Option<usize>)
        ensures
            r matches Some(i) ==> i < self.entries@.len() && self.entries@[i as int].room_id@
                == room_id@ && (forall|j: int|
                0 <= j < i ==> self.entries@[j].room_id@ != room_id@),
            r is None ==> !has_stream(self.entries@, room_id@),
    {
        let mut i: usize = 0;
        while i < self.entries.len()
            invariant
                i <= self.entries@.len(),
                forall|j: int| 0 <= j < i ==> self.entries@[j].room_id@ != room_id@,
            decreases self.entries@.len() - i,
        {
            if self.entries[i].room_id == *room_id {
                return Some(i);
            }
            i = i + 1;
        }
        None
    }
}

/// What installing a channel leaves behind: the channel of the identifier
/// is empty, and every other channel stands as it did before.
pub open spec fn stream_installed(
    old_e: Seq<TimelineStreamEntry>,
    new_e: Seq<TimelineStreamEntry>,
    id: Seq<char>,
) -> bool {
    forall|j: int|
        #![trigger new_e[j]]
        0 <= j < new_e.len() ==> (if new_e[j].room_id@ == id {
            new_e[j].pending@.len() == 0
        } else {
            exists|h: int|
                #![trigger old_e[h]]
                0 <= h < old_e.len() && old_e[h] == new_e[j] && old_e[h].room_id@ != id
        })
}

/// Install (or replace) the channel for a room: afterwards exactly one
/// channel for that identifier exists and it is empty. The channels of
/// other rooms are untouched.
#[verifier::rlimit(100)]
pub fn set_timeline_stream(streams: &mut TimelineStreams, room_id: String)
    requires
        streams_unique(old(streams).entries@),
    ensures
        streams_unique(final(streams).entries@),
        has_stream(final(streams).entries@, room_id@),
        stream_installed(old(streams).entries@, final(streams).entries@, room_id@),
{
    let ghost before = streams.entries@;
    let pos = streams.position_of(&room_id);
    match pos {
        Some(i) => {
            let mut e = streams.entries.remove(i);
            e.pending = Vec::new();
            let ghost enew = e;
            streams.entries.insert(i, e);
            proof {
                let after = streams.entries@;
                assert(after =~= before.update(i as int, enew));
                assert(after[i as int] == enew);
                assert(enew.room_id@ == room_id@);
                assert(enew.pending@.len() == 0);
                assert(after[i as int].room_id@ == room_id@);
                assert(after[i as int].pending@.len() == 0);
                assert forall|j: int|
                    #![trigger after[j]]
                    0 <= j < after.len() implies (if after[j].room_id@ == room_id@ {
                    after[j].pending@.len() == 0
                } else {
                    exists|h: int|
                        #![trigger before[h]]
                        0 <= h < before.len() && before[h] == after[j] && before[h].room_id@
                            != room_id@
                }) by {
                    if after[j].room_id@ == room_id@ {
                        if j != i {
                            assert(after[j] == before[j]);
                            assert(before[j].room_id@ != before[i as int].room_id@);
                        }
                    } else {
                        assert(before[j] == after[j]);
                    }
                }
                assert(stream_installed(before, after, room_id@));
                assert forall|j1: int, j2: int| 0 <= j1 < j2 < after.len() implies (
                #[trigger] after[j1].room_id@) != (#[trigger] after[j2].room_id@) by {
                    assert(after[j1].room_id@ == before[j1].room_id@);
                    assert(after[j2].room_id@ == before[j2].room_id@);
                }
            }
        },
        None => {
            streams.entries.push(TimelineStreamEntry { room_id, pending: Vec::new() });
            proof {
                let after = streams.entries@;
                let i = after.len() - 1;
                assert(forall|j: int| 0 <= j < before.len() ==> after[j] == #[trigger] before[j]);
                assert(after[i].pending@.len() == 0);
                assert(after[i].room_id@ == room_id@);
                assert forall|j: int|
                    #![trigger after[j]]
                    0 <= j < after.len() implies (if after[j].room_id@ == room_id@ {
                    after[j].pending@.len() == 0
                } else {
                    exists|h: int|
                        #![trigger before[h]]
                        0 <= h < before.len() && before[h] == after[j] && before[h].room_id@
                            != room_id@
                }) by {
                    if j != i {
                        assert(before[j] == after[j]);
                        assert(before[j].room_id@ != after[i].room_id@);
                    }
                }
                assert(stream_installed(before, after, room_id@));
                assert forall|j1: int, j2: int| 0 <= j1 < j2 < after.len() implies (
                #[trigger] after[j1].room_id@) != (#[trigger] after[j2].room_id@) by {
                    if j2 == i {
                        assert(after[j1] == before[j1]);
                        assert(before[j1].room_id@ != after[i].room_id@);
                    } else {
                        assert(after[j1] == before[j1] && after[j2] == before[j2]);
                    }
                }
            }
        },
    }
}

/// Queue a timeline event on a room's channel, in production order. Fails
/// with `RoomNotFound` when no channel is installed for the room.
pub fn send_to_timeline_stream(
    streams: &mut TimelineStreams,
    room_id: &String,
    timeline_event: RoomTimeline,
) -> (r: Result<(), CoreError>)
    ensures
        r is Ok <==> has_stream(old(streams).entries@, room_id@),
        !has_stream(old(streams).entries@, room_id@) ==> r == Err::<(), CoreError>(
            CoreError::RoomNotFound,
        ) && *final(streams) == *old(streams),
        has_stream(old(streams).entries@, room_id@) ==> exists|i: int|
            {
                &&& 0 <= i < old(streams).entries@.len()
                &&& (#[trigger] old(streams).entries@[i]).room_id@ == room_id@
                &&& forall|j: int| 0 <= j < i ==> old(streams).entries@[j].room_id@ != room_id@
                &&& final(streams).entries@ == old(streams).entries@.update(
                    i,
                    TimelineStreamEntry {
                        room_id: old(streams).entries@[i].room_id,
                        pending: final(streams).entries@[i].pending,
                    },
                )
                &&& final(streams).entries@[i].pending@ == old(streams).entries@[i].pending@.push(
                    timeline_event,
                )
            },
{
    let pos = streams.position_of(room_id);
    match pos {
        None => Err(CoreError::RoomNotFound),
        Some(i) => {
            let ghost before = streams.entries@;
            let mut e = streams.entries.remove(i);
            e.pending.push(timeline_event);
            streams.entries.insert(i, e);
            proof {
                assert(streams.entries@ =~= before.update(i as int, streams.entries@[i as int]));
                assert(streams.entries@[i as int].room_id == before[i as int].room_id);
                assert(streams.entries@ =~= before.update(
                    i as int,
                    TimelineStreamEntry {
                        room_id: before[i as int].room_id,
                        pending: streams.entries@[i as int].pending,
                    },
                ));
            }
            Ok(())
        },
    }
}

/// Removing one entry of a registry with pairwise distinct identifiers
/// keeps the others, keeps them distinct, and leaves no entry carrying the
/// removed identifier.
#[verifier::rlimit(100)]
proof fn lemma_remove_stream_entry(before: Seq<TimelineStreamEntry>, i: int)
    requires
        streams_unique(before),
        0 <= i < before.len(),
    ensures
        streams_unique(before.remove(i)),
        !has_stream(before.remove(i), before[i].room_id@),
        entries_from(before, before.remove(i)),
        entries_kept_except(before, before.remove(i), before[i].room_id@),
{
    let after = before.remove(i);
    assert(forall|j: int|
        0 <= j < after.len() ==> #[trigger] after[j] == (if j < i {
            before[j]
        } else {
            before[j + 1]
        }));
    assert forall|j: int| 0 <= j < after.len() implies (#[trigger] after[j]).room_id@
        != before[i].room_id@ by {
        if j < i {
            assert(before[j].room_id@ != before[i].room_id@);
        } else {
            assert(after[j] == before[j + 1]);
            assert(before[j + 1].room_id@ != before[i].room_id@);
        }
    }
    if has_stream(after, before[i].room_id@) {
        let j = choose|j: int| 0 <= j < after.len() && after[j].room_id@ == before[i].room_id@;
        assert(after[j].room_id@ != before[i].room_id@);
    }
    assert forall|j: int| #![trigger after[j]] 0 <= j < after.len() implies exists|h: int|
        #![trigger before[h]]
        0 <= h < before.len() && before[h] == after[j] by {
        if j < i {
            assert(before[j] == after[j]);
        } else {
            assert(before[j + 1] == after[j]);
        }
    }
    assert forall|h: int|
        #![trigger before[h]]
        0 <= h < before.len() && before[h].room_id@ != before[i].room_id@ implies exists|j: int|
        #![trigger after[j]]
        0 <= j < after.len() && after[j] == before[h] by {
        if h < i {
            assert(after[h] == before[h]);
        } else {
            assert(h != i);
            assert(after[h - 1] == before[h]);
        }
    }
}

/// Remove a room's channel, if one is installed; afterwards none is, and
/// the channels of every other room are kept. Without an installed channel
/// nothing changes.
pub fn remove_timeline_stream(streams: &mut TimelineStreams, room_id: &String)
    requires
        streams_unique(old(streams).entries@),
    ensures
        streams_unique(final(streams).entries@),
        !has_stream(final(streams).entries@, room_id@),
        !has_stream(old(streams).entries@, room_id@) ==> *final(streams) == *old(streams),
        has_stream(old(streams).entries@, room_id@) ==> entries_from(
            old(streams).entries@,
            final(streams).entries@,
        ) && entries_kept_except(old(streams).entries@, final(streams).entries@, room_id@),
{
    let pos = streams.position_of(room_id);
    match pos {
        None => {},
        Some(i) => {
            let ghost before = streams.entries@;
            streams.entries.remove(i);
            proof {
                lemma_remove_stream_entry(before, i as int);
                assert(before[i as int].room_id@ == room_id@);
            }
        },
    }
}

} // verus!

