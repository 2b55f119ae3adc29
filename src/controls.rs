use vstd::prelude::*;
use vstd::string::*;

verus! {

/// What the details panel shows for the selected room.
#[derive(Clone, Copy, Debug, PartialEq, Eq, Structural)]
pub enum DetailsMode {
    ReadReceipts,
    TimelineItems,
    Events,
    LinkedChunk,
}

impl Default for DetailsMode {
    /// The timeline is shown first.
    fn default() -> (r: DetailsMode)
        ensures
            r == DetailsMode::TimelineItems,
    {
        DetailsMode::TimelineItems
    }
}

/// A key press, as far as the client tells keys apart.
#[derive(Clone, Copy, Debug, PartialEq, Eq, Structural)]
pub enum Key {
    Char(char),
    Up,
    Down,
    Esc,
    Other,
}

/// What a key press asks for.
#[derive(Clone, Copy, Debug, PartialEq, Eq, Structural)]
pub enum Command {
    Quit,
    SelectNext,
    SelectPrevious,
    StartSync,
    StopSync,
    ToggleSendQueue,
    SendMessage,
    ReactToLatest,
    ShowDetails(DetailsMode),
    BackPaginate,
    MarkAsRead,
    Nothing,
}

/// The client's keymap.
pub open spec fn command_of(key: Key, mode: DetailsMode) -> Command {
    match key {
        Key::Esc => Command::Quit,
        Key::Down => Command::SelectNext,
        Key::Up => Command::SelectPrevious,
        Key::Other => Command::Nothing,
        Key::Char(c) => if c == 'q' {
            Command::Quit
        } else if c == 'j' {
            Command::SelectNext
        } else if c == 'k' {
            Command::SelectPrevious
        } else if c == 's' {
            Command::StartSync
        } else if c == 'S' {
            Command::StopSync
        } else if c == 'Q' {
            Command::ToggleSendQueue
        } else if c == 'M' {
            Command::SendMessage
        } else if c == 'L' {
            Command::ReactToLatest
        } else if c == 'r' {
            Command::ShowDetails(DetailsMode::ReadReceipts)
        } else if c == 't' {
            Command::ShowDetails(DetailsMode::TimelineItems)
        } else if c == 'e' {
            Command::ShowDetails(DetailsMode::Events)
        } else if c == 'l' {
            Command::ShowDetails(DetailsMode::LinkedChunk)
        } else if c == 'b' && (mode == DetailsMode::TimelineItems || mode
            == DetailsMode::LinkedChunk) {
            Command::BackPaginate
        } else if c == 'm' && mode == DetailsMode::ReadReceipts {
            Command::MarkAsRead
        } else {
            Command::Nothing
        },
    }
}

/// The command that `key` asks for in `mode`.
pub fn command_for_key(key: Key, mode: DetailsMode) -> (r: Command)
    ensures
        r == command_of(key, mode),
{
    match key {
        Key::Esc => Command::Quit,
        Key::Down => Command::SelectNext,
        Key::Up => Command::SelectPrevious,
        Key::Other => Command::Nothing,
        Key::Char(c) => if c == 'q' {
            Command::Quit
        } else if c == 'j' {
            Command::SelectNext
        } else if c == 'k' {
            Command::SelectPrevious
        } else if c == 's' {
            Command::StartSync
        } else if c == 'S' {
            Command::StopSync
        } else if c == 'Q' {
            Command::ToggleSendQueue
        } else if c == 'M' {
            Command::SendMessage
        } else if c == 'L' {
            Command::ReactToLatest
        } else if c == 'r' {
            Command::ShowDetails(DetailsMode::ReadReceipts)
        } else if c == 't' {
            Command::ShowDetails(DetailsMode::TimelineItems)
        } else if c == 'e' {
            Command::ShowDetails(DetailsMode::Events)
        } else if c == 'l' {
            Command::ShowDetails(DetailsMode::LinkedChunk)
        } else if c == 'b' && (mode == DetailsMode::TimelineItems || mode
            == DetailsMode::LinkedChunk) {
            Command::BackPaginate
        } else if c == 'm' && mode == DetailsMode::ReadReceipts {
            Command::MarkAsRead
        } else {
            Command::Nothing
        },
    }
}

/// The help line shown in `mode` when no status message is set.
pub open spec fn help_text(mode: DetailsMode) -> Seq<char> {
    match mode {
        DetailsMode::ReadReceipts => "\nUse j/k to move, s/S to start/stop the sync service, m to mark as read, t to show the timeline, e to show events."@,
        DetailsMode::TimelineItems => "\nUse j/k to move, s/S to start/stop the sync service, r to show read receipts, e to show events, Q to enable/disable the send queue, M to send a message, L to like the last message."@,
        DetailsMode::Events => "\nUse j/k to move, s/S to start/stop the sync service, r to show read receipts, t to show the timeline"@,
        DetailsMode::LinkedChunk => "\nUse j/k to move, s/S to start/stop the sync service, r to show read receipts, t to show the timeline, e to show events"@,
    }
}

/// The footer: the status message if one is set, else the help line of
/// `mode`.
pub fn footer_text(status: Option<&String>, mode: DetailsMode) -> (r: String)
    ensures
        status matches Some(s) ==> r@ == s@,
        status is None ==> r@ == help_text(mode),
{
    proof {
        reveal_strlit("\nUse j/k to move, s/S to start/stop the sync service, m to mark as read, t to show the timeline, e to show events.");
        reveal_strlit("\nUse j/k to move, s/S to start/stop the sync service, r to show read receipts, e to show events, Q to enable/disable the send queue, M to send a message, L to like the last message.");
        reveal_strlit("\nUse j/k to move, s/S to start/stop the sync service, r to show read receipts, t to show the timeline");
        reveal_strlit("\nUse j/k to move, s/S to start/stop the sync service, r to show read receipts, t to show the timeline, e to show events");
    }
    match status {
        Some(s) => s.clone(),
        None => match mode {
            DetailsMode::ReadReceipts => String::from_str("\nUse j/k to move, s/S to start/stop the sync service, m to mark as read, t to show the timeline, e to show events."),
            DetailsMode::TimelineItems => String::from_str("\nUse j/k to move, s/S to start/stop the sync service, r to show read receipts, e to show events, Q to enable/disable the send queue, M to send a message, L to like the last message."),
            DetailsMode::Events => String::from_str("\nUse j/k to move, s/S to start/stop the sync service, r to show read receipts, t to show the timeline"),
            DetailsMode::LinkedChunk => String::from_str("\nUse j/k to move, s/S to start/stop the sync service, r to show read receipts, t to show the timeline, e to show events"),
        },
    }
}

/// The status reported after a read receipt was requested.
pub fn read_receipt_status(sent: bool) -> (r: String)
    ensures
        sent ==> r@ == "did send a read receipt!"@,
        !sent ==> r@ == "did not send a read receipt!"@,
{
    proof {
        reveal_strlit("did send a read receipt!");
        reveal_strlit("did not send a read receipt!");
    }
    if sent {
        String::from_str("did send a read receipt!")
    } else {
        String::from_str("did not send a read receipt!")
    }
}

/// The status reported for a failed operation: what was tried, then the
/// error.
pub fn error_status(context: &str, error: &str) -> (r: String)
    ensures
        r@ == context@ + ": "@ + error@,
{
    proof {
        reveal_strlit(": ");
    }
    let mut s = String::from_str(context);
    s.append(": ");
    s.append(error);
    s
}

} // verus!
