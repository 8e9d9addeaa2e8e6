//! Per-room timelines: the item model, the mapping of items to consumer
//! messages, and the translation of timeline edits into subscription
//! messages.
//!
//! A timeline holds the ordered items of one room and a handle to the
//! background listener that keeps them current. Timelines are created lazily
//! when a room is first observed and torn down when the room disappears from
//! the room registry.

use crate::diffs::VectorDiff;
use crate::text::dec_of;
use crate::text::u64_to_dec;
use vstd::prelude::*;

verus! {

/// What kind of consumer message a timeline item became.
#[derive(Debug, Clone, Copy, PartialEq, Eq, Structural)]
pub enum MessageType {
    Message,
    DateDivider,
    ReadMarker,
    TimelineStart,
}

/// Which edit a timeline subscription message describes.
#[derive(Debug, Clone, Copy, PartialEq, Eq, Structural)]
pub enum MessageUpdateType {
    Reset,
    Truncate,
    Remove,
    Replace,
    Insert,
    PopBack,
    PopFront,
    PushBack,
    PushFront,
    Clear,
    Append,
}

/// A fully materialized consumer-facing message.
#[derive(Debug)]
pub struct Message {
    pub event_id: String,
    pub sender: String,
    pub content: String,
    pub timestamp: u64,
    pub message_type: MessageType,
}

impl Clone for Message {
    fn clone(&self) -> (r: Self)
        ensures
            r == *self,
    {
        Message {
            event_id: self.event_id.clone(),
            sender: self.sender.clone(),
            content: self.content.clone(),
            timestamp: self.timestamp,
            message_type: self.message_type,
        }
    }
}

/// The data of an event item as this coordinator reads it: identifiers,
/// the plain-text body if the event is a plain message, and the event's
/// millisecond timestamp.
#[derive(Debug)]
pub struct EventItem {
    pub event_id: Option<String>,
    pub sender: String,
    pub body: Option<String>,
    pub timestamp: u64,
}

/// An item that does not correspond to an event.
#[derive(Debug)]
pub enum VirtualItem {
    /// A divider between days, carrying its own millisecond timestamp.
    DateDivider(u64),
    /// The user's own read marker.
    ReadMarker,
    /// The start of the timeline.
    TimelineStart,
}

/// An event or aggregation of events, or a virtual item.
#[derive(Debug)]
pub enum TimelineItemType {
    Event(EventItem),
    Virtual(VirtualItem),
}

/// A single entry in a timeline.
#[derive(Debug)]
pub struct TimelineItems {
    pub kind: TimelineItemType,
    pub internal_id: String,
}

/// A subscription message: one timeline edit, with materialized messages
/// for the edits that carry items and index or length metadata for the
/// positional ones.
#[derive(Debug)]
pub struct MessageUpdate {
    pub message_update_type: MessageUpdateType,
    pub messages: Option<Vec<Message>>,
    pub index: Option<usize>,
    pub length: Option<usize>,
}

/// The mapping rule from a timeline item to a consumer message: an event
/// yields sender, event identifier, best-effort textual body and timestamp;
/// a virtual item yields its type tag with identity fields left empty, and a
/// date divider carries its own timestamp, rendered in decimal, as content.
pub open spec fn is_message_of(kind: TimelineItemType, m: Message) -> bool {
    match kind {
        TimelineItemType::Event(e) => {
            &&& m.message_type == MessageType::Message
            &&& m.event_id@ == (match e.event_id {
                Some(id) => id@,
                None => "unknown"@,
            })
            &&& m.sender@ == e.sender@
            &&& m.content@ == (match e.body {
                Some(b) => b@,
                None => Seq::<char>::empty(),
            })
            &&& m.timestamp == e.timestamp
        },
        TimelineItemType::Virtual(v) => {
            &&& m.event_id@ == Seq::<char>::empty()
            &&& m.sender@ == Seq::<char>::empty()
            &&& match v {
                VirtualItem::DateDivider(ts) => {
                    &&& m.message_type == MessageType::DateDivider
                    &&& m.content@ == dec_of(ts as nat)
                    &&& m.timestamp == ts
                },
                VirtualItem::ReadMarker => {
                    &&& m.message_type == MessageType::ReadMarker
                    &&& m.content@ == Seq::<char>::empty()
                    &&& m.timestamp == 0
                },
                VirtualItem::TimelineStart => {
                    &&& m.message_type == MessageType::TimelineStart
                    &&& m.content@ == Seq::<char>::empty()
                    &&& m.timestamp == 0
                },
            }
        },
    }
}

/// Materialize one timeline item as a consumer message, following the
/// mapping rule.
pub fn get_message_from_timeline_item(item: &TimelineItems) -> (r: Message)
    ensures
        is_message_of(item.kind, r),
{
    match &item.kind {
        TimelineItemType::Event(e) => {
            let event_id = match &e.event_id {
                Some(id) => id.clone(),
                None => String::from_str("unknown"),
            };
            let content = match &e.body {
                Some(b) => b.clone(),
                None => String::new(),
            };
            Message {
                event_id,
                sender: e.sender.clone(),
                content,
                timestamp: e.timestamp,
                message_type: MessageType::Message,
            }
        },
        TimelineItemType::Virtual(v) => {
            match v {
                VirtualItem::DateDivider(ts) => Message {
                    event_id: String::new(),
                    sender: String::new(),
                    content: u64_to_dec(*ts),
                    timestamp: *ts,
                    message_type: MessageType::DateDivider,
                },
                VirtualItem::ReadMarker => Message {
                    event_id: String::new(),
                    sender: String::new(),
                    content: String::new(),
                    timestamp: 0,
                    message_type: MessageType::ReadMarker,
                },
                VirtualItem::TimelineStart => Message {
                    event_id: String::new(),
                    sender: String::new(),
                    content: String::new(),
                    timestamp: 0,
                    message_type: MessageType::TimelineStart,
                },
            }
        },
    }
}

/// Whether a sequence of messages materializes a sequence of items, one for
/// one and in order.
pub open spec fn are_messages_of(items: Seq<TimelineItems>, ms: Seq<Message>) -> bool {
    &&& ms.len() == items.len()
    &&& forall|i: int| 0 <= i < items.len() ==> is_message_of(items[i].kind, #[trigger] ms[i])
}

/// Materialize a whole item list, in order.
pub fn materialize_items(items: &Vec<TimelineItems>) -> (r: Vec<Message>)
    ensures
        are_messages_of(items@, r@),
{
    let mut r: Vec<Message> = Vec::new();
    let mut i: usize = 0;
    while i < items.len()
        invariant
            i <= items@.len(),
            r@.len() == i,
            forall|j: int| 0 <= j < i ==> is_message_of(items@[j].kind, #[trigger] r@[j]),
        decreases items@.len() - i,
    {
        r.push(get_message_from_timeline_item(&items[i]));
        i = i + 1;
    }
    r
}

/// The translation rule from a timeline edit to the subscription message
/// that is forwarded to the consumer: item-carrying edits hand over the
/// materialized messages, positional edits hand over their index or length,
/// and nothing else is filled in.
pub open spec fn is_translation(d: VectorDiff<TimelineItems>, u: MessageUpdate) -> bool {
    match d {
        VectorDiff::Append(values) => {
            &&& u.message_update_type == MessageUpdateType::Append
            &&& u.messages matches Some(ms) && are_messages_of(values@, ms@)
            &&& u.index is None
            &&& u.length is None
        },
        VectorDiff::Clear => {
            &&& u.message_update_type == MessageUpdateType::Clear
            &&& u.messages is None
            &&& u.index is None
            &&& u.length is None
        },
        VectorDiff::PushFront(value) => {
            &&& u.message_update_type == MessageUpdateType::PushFront
            &&& u.messages matches Some(ms) && ms@.len() == 1 && is_message_of(value.kind, ms@[0])
            &&& u.index is None
            &&& u.length is None
        },
        VectorDiff::PushBack(value) => {
            &&& u.message_update_type == MessageUpdateType::PushBack
            &&& u.messages matches Some(ms) && ms@.len() == 1 && is_message_of(value.kind, ms@[0])
            &&& u.index is None
            &&& u.length is None
        },
        VectorDiff::PopFront => {
            &&& u.message_update_type == MessageUpdateType::PopFront
            &&& u.messages is None
            &&& u.index is None
            &&& u.length is None
        },
        VectorDiff::PopBack => {
            &&& u.message_update_type == MessageUpdateType::PopBack
            &&& u.messages is None
            &&& u.index is None
            &&& u.length is None
        },
        VectorDiff::Insert(index, value) => {
            &&& u.message_update_type == MessageUpdateType::Insert
            &&& u.messages matches Some(ms) && ms@.len() == 1 && is_message_of(value.kind, ms@[0])
            &&& u.index == Some(index)
            &&& u.length is None
        },
        VectorDiff::Replace(index, value) => {
            &&& u.message_update_type == MessageUpdateType::Replace
            &&& u.messages matches Some(ms) && ms@.len() == 1 && is_message_of(value.kind, ms@[0])
            &&& u.index == Some(index)
            &&& u.length is None
        },
        VectorDiff::Remove(index) => {
            &&& u.message_update_type == MessageUpdateType::Remove
            &&& u.messages is None
            &&& u.index == Some(index)
            &&& u.length is None
        },
        VectorDiff::Truncate(length) => {
            &&& u.message_update_type == MessageUpdateType::Truncate
            &&& u.messages is None
            &&& u.index is None
            &&& u.length == Some(length)
        },
        VectorDiff::Reset(values) => {
            &&& u.message_update_type == MessageUpdateType::Reset
            &&& u.messages matches Some(ms) && are_messages_of(values@, ms@)
            &&& u.index is None
            &&& u.length is None
        },
    }
}

/// Translate one timeline edit into the subscription message forwarded to
/// the consumer, in arrival order and without batching or coalescing.
pub fn translate_timeline_diff(d: &VectorDiff<TimelineItems>) -> (u: MessageUpdate)
    ensures
        is_translation(*d, u),
{
    match d {
        VectorDiff::Append(values) => MessageUpdate {
            message_update_type: MessageUpdateType::Append,
            messages: Some(materialize_items(values)),
            index: None,
            length: None,
        },
        VectorDiff::Clear => MessageUpdate {
            message_update_type: MessageUpdateType::Clear,
            messages: None,
            index: None,
            length: None,
        },
        VectorDiff::PushFront(value) => MessageUpdate {
            message_update_type: MessageUpdateType::PushFront,
            messages: Some(one_message(value)),
            index: None,
            length: None,
        },
        VectorDiff::PushBack(value) => MessageUpdate {
            message_update_type: MessageUpdateType::PushBack,
            messages: Some(one_message(value)),
            index: None,
            length: None,
        },
        VectorDiff::PopFront => MessageUpdate {
            message_update_type: MessageUpdateType::PopFront,
            messages: None,
            index: None,
            length: None,
        },
        VectorDiff::PopBack => MessageUpdate {
            message_update_type: MessageUpdateType::PopBack,
            messages: None,
            index: None,
            length: None,
        },
        VectorDiff::Insert(index, value) => MessageUpdate {
            message_update_type: MessageUpdateType::Insert,
            messages: Some(one_message(value)),
            index: Some(*index),
            length: None,
        },
        VectorDiff::Replace(index, value) => MessageUpdate {
            message_update_type: MessageUpdateType::Replace,
            messages: Some(one_message(value)),
            index: Some(*index),
            length: None,
        },
        VectorDiff::Remove(index) => MessageUpdate {
            message_update_type: MessageUpdateType::Remove,
            messages: None,
            index: Some(*index),
            length: None,
        },
        VectorDiff::Truncate(length) => MessageUpdate {
            message_update_type: MessageUpdateType::Truncate,
            messages: None,
            index: None,
            length: Some(*length),
        },
        VectorDiff::Reset(values) => MessageUpdate {
            message_update_type: MessageUpdateType::Reset,
            messages: Some(materialize_items(values)),
            index: None,
            length: None,
        },
    }
}

fn one_message(item: &TimelineItems) -> (r: Vec<Message>)
    ensures
        r@.len() == 1,
        is_message_of(item.kind, r@[0]),
{
    let mut r: Vec<Message> = Vec::new();
    r.push(get_message_from_timeline_item(item));
    r
}

/// One room's timeline: its ordered item list and the state of the
/// background listener task that keeps it current. The task handle is
/// explicit so that cancellation is an operation of the registry, not an
/// implicit drop.
#[derive(Debug)]
pub struct Timeline {
    pub items: Vec<TimelineItems>,
    pub task_running: bool,
}

/// A timeline keyed by the room it belongs to.
#[derive(Debug)]
pub struct TimelineEntry {
    pub room_id: String,
    pub timeline: Timeline,
}

/// The timelines of every observed room, at most one per room identifier.
#[derive(Debug)]
pub struct Timelines {
    pub entries: Vec<TimelineEntry>,
}

/// Whether some timeline is registered for the given room identifier.
pub open spec fn has_timeline(entries: Seq<TimelineEntry>, id: Seq<char>) -> bool {
    exists|i: int| 0 <= i < entries.len() && entries[i].room_id@ == id
}

/// At most one timeline per room identifier.
pub open spec fn timelines_unique(entries: Seq<TimelineEntry>) -> bool {
    forall|i: int, j: int|
        0 <= i < j < entries.len() ==> #[trigger] entries[i].room_id@ != #[trigger] entries[j].room_id@
}

/// Which timeline a room view shows.
#[derive(Debug)]
#[allow(inconsistent_fields)]
pub enum TimelineKind {
    /// The live timeline of a room, or none while no room is selected.
    Room { room: Option<String> },
    /// A thread-focused timeline rooted at one event of a room.
    Thread { room: String, thread_root: String },
}

/// The view of the currently selected room's timeline.
#[derive(Debug)]
pub struct RoomView {
    /// An in-flight pagination request, if any.
    pub current_pagination: Option<u64>,
    pub kind: TimelineKind,
}

impl RoomView {
    /// A view with no room selected and no pagination in flight.
    pub fn new() -> (r: RoomView)
        ensures
            r.current_pagination is None,
            r.kind matches TimelineKind::Room { room } && room is None,
    {
        RoomView { current_pagination: None, kind: TimelineKind::Room { room: None } }
    }
}

impl Timelines {
    /// A registry with no timelines.
    pub fn new() -> (r: Timelines)
        ensures
            r.entries@ =~= Seq::<TimelineEntry>::empty(),
    {
        Timelines { entries: Vec::new() }
    }

    /// The position of the room's timeline, if one is registered.
    pub fn position_of(&self, room_id: &String) -> (r: Option<usize>)
        ensures
            r matches Some(i) ==> i < self.entries@.len() && self.entries@[i as int].room_id@
                == room_id@ && (forall|j: int|
                0 <= j < i ==> self.entries@[j].room_id@ != room_id@),
            r is None ==> !has_timeline(self.entries@, room_id@),
    {
        let mut i: usize = 0;
        while i < self.entries.len()
            invariant
                i <= self.entries@.len(),
                forall|j: int| 0 <= j < i ==> self.entries@[j].room_id@ != room_id@,
            decreases self.entries@.len() - i,
        {
            if self.entries[i].room_id == *room_id {
                return Some(i);
            }
            i = i + 1;
        }
        None
    }
}

} // verus!
