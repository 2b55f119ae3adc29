use vstd::prelude::*;
use vstd::string::*;
use crate::registry::views;
use crate::text::{decimal, decimal_string};

verus! {

/// Identifier of an event in a timeline: the transaction identifier of a
/// local echo, or the event identifier once the server has it.
pub enum ItemRef {
    Transaction(String),
    Event(String),
}

impl ItemRef {
    /// A full copy.
    pub fn copy(&self) -> (r: ItemRef)
        ensures
            r == *self,
    {
        match self {
            ItemRef::Transaction(s) => ItemRef::Transaction(s.clone()),
            ItemRef::Event(s) => ItemRef::Event(s.clone()),
        }
    }
}

/// What an event carries, as far as this client tells it apart.
pub enum EventContent {
    /// A plain text message with its body.
    Text(String),
    /// A message of another type (image, file, notice, ...).
    OtherMessage,
    /// A message whose content was redacted.
    Redacted,
    /// A message that could not be decrypted.
    Undecryptable,
    /// Anything else (state changes, stickers, polls, calls, ...).
    Other,
}

/// A marker that the timeline inserts between events.
pub enum VirtualItem {
    /// A change of day, with the time in milliseconds since the Unix epoch.
    DateDivider(u64),
    /// Where the user stopped reading.
    ReadMarker,
    /// The start of the room's history.
    TimelineStart,
}

/// One entry of a room's timeline.
pub enum TimelineItem {
    Event { id: ItemRef, sender: String, content: EventContent },
    Virtual(VirtualItem),
}

/// Whether the item is a message-type event, which can be reacted to.
pub open spec fn is_message(item: TimelineItem) -> bool {
    match item {
        TimelineItem::Event { content, .. } => match content {
            EventContent::Text(_) => true,
            EventContent::OtherMessage => true,
            _ => false,
        },
        TimelineItem::Virtual(_) => false,
    }
}

/// The line that the timeline view shows for an item, if it shows one.
pub open spec fn item_line(item: TimelineItem) -> Option<Seq<char>> {
    match item {
        TimelineItem::Event { sender, content, .. } => match content {
            EventContent::Text(body) => Some(sender@ + ": "@ + body@),
            EventContent::Redacted => Some(sender@ + ": -- redacted --"@),
            EventContent::Undecryptable => Some(sender@ + ": (UTD)"@),
            _ => None,
        },
        TimelineItem::Virtual(v) => match v {
            VirtualItem::DateDivider(ts) => Some("Date: "@ + decimal(ts as nat)),
            VirtualItem::ReadMarker => Some("Read marker"@),
            VirtualItem::TimelineStart => Some("\u{1f973} Timeline start! \u{1f973}"@),
        },
    }
}

/// The lines that the timeline view shows for `items`, in order.
pub open spec fn timeline_text(items: Seq<TimelineItem>) -> Seq<Seq<char>>
    decreases items.len(),
{
    if items.len() == 0 {
        Seq::empty()
    } else {
        let head = timeline_text(items.drop_last());
        match item_line(items.last()) {
            Some(l) => head.push(l),
            None => head,
        }
    }
}

/// Writes the line shown for one item, if any.
pub fn render_item(item: &TimelineItem) -> (r: Option<String>)
    ensures
        r matches Some(s) ==> item_line(*item) == Some(s@),
        r is None ==> item_line(*item) is None,
{
    proof {
        reveal_strlit(": ");
        reveal_strlit(": -- redacted --");
        reveal_strlit(": (UTD)");
        reveal_strlit("Date: ");
        reveal_strlit("Read marker");
        reveal_strlit("\u{1f973} Timeline start! \u{1f973}");
    }
    match item {
        TimelineItem::Event { sender, content, .. } => match content {
            EventContent::Text(body) => {
                let mut line = sender.clone();
                line.append(": ");
                line.append(body.as_str());
                Some(line)
            },
            EventContent::Redacted => {
                let mut line = sender.clone();
                line.append(": -- redacted --");
                Some(line)
            },
            EventContent::Undecryptable => {
                let mut line = sender.clone();
                line.append(": (UTD)");
                Some(line)
            },
            _ => None,
        },
        TimelineItem::Virtual(v) => match v {
            VirtualItem::DateDivider(ts) => {
                let mut line = String::from_str("Date: ");
                let n = decimal_string(*ts);
                line.append(n.as_str());
                Some(line)
            },
            VirtualItem::ReadMarker => Some(String::from_str("Read marker")),
            VirtualItem::TimelineStart => Some(
                String::from_str("\u{1f973} Timeline start! \u{1f973}"),
            ),
        },
    }
}

/// Writes the lines that the timeline view shows for `items`.
pub fn timeline_lines(items: &[TimelineItem]) -> (r: Vec<String>)
    ensures
        views(r@) == timeline_text(items@),
{
    let mut r: Vec<String> = Vec::new();
    let mut i: usize = 0;
    while i < items.len()
        invariant
            i <= items@.len(),
            views(r@) == timeline_text(items@.take(i as int)),
        decreases items@.len() - i,
    {
        let line = render_item(&items[i]);
        assert(items@.take(i + 1).drop_last() =~= items@.take(i as int));
        match line {
            Some(l) => {
                r.push(l);
                assert(views(r@) =~= timeline_text(items@.take(i as int)).push(l@));
            },
            None => {},
        }
        i = i + 1;
    }
    assert(items@.take(items@.len() as int) =~= items@);
    r
}

/// The position of the most recent message-type event in `items`, if any.
pub fn latest_message(items: &[TimelineItem]) -> (r: Option<usize>)
    ensures
        r matches Some(i) ==> i < items@.len() && is_message(items@[i as int]) && forall|j: int|
            i < j < items@.len() ==> !is_message(#[trigger] items@[j]),
        r is None ==> forall|j: int| 0 <= j < items@.len() ==> !is_message(#[trigger] items@[j]),
{
    let mut k: usize = items.len();
    while k > 0
        invariant
            k <= items@.len(),
            forall|j: int| k <= j < items@.len() ==> !is_message(#[trigger] items@[j]),
        decreases k,
    {
        let found = match &items[k - 1] {
            TimelineItem::Event { content, .. } => match content {
                EventContent::Text(_) => true,
                EventContent::OtherMessage => true,
                _ => false,
            },
            TimelineItem::Virtual(_) => false,
        };
        if found {
            return Some(k - 1);
        }
        k = k - 1;
    }
    None
}

} // verus!
