use vstd::prelude::*;
use vstd::string::*;
use crate::timeline::{ItemRef, TimelineItem, is_message, latest_message};

verus! {

/// The status line as a value: the message shown, the expiry ticket that may
/// still clear it, and the ticket that the next message gets.
pub struct StatusState {
    pub message: Option<Seq<char>>,
    pub pending: Option<u64>,
    pub next: u64,
}

/// The status line after a new message is set.
pub open spec fn status_set(s: StatusState, text: Seq<char>) -> StatusState {
    StatusState { message: Some(text), pending: Some(s.next), next: ticket_after(s.next) }
}

/// The status line after the expiry task holding `ticket` has run.
pub open spec fn status_expire(s: StatusState, ticket: u64) -> StatusState {
    if s.pending == Some(ticket) {
        StatusState { message: None, pending: None, next: s.next }
    } else {
        s
    }
}

/// The next ticket: one on, and 0 after the largest.
pub open spec fn ticket_after(t: u64) -> u64 {
    if t == u64::MAX { 0 } else { (t + 1) as u64 }
}

/// What the caller has to do after a status message was set.
pub struct StatusPlan {
    /// The expiry task to cancel, if one was pending.
    pub cancel: Option<u64>,
    /// The ticket of the expiry task to schedule.
    pub expire: u64,
}

/// The transient message at the bottom of the screen, cleared a while after
/// it was set unless a newer one replaced it.
pub struct StatusLine {
    message: Option<String>,
    pending: Option<u64>,
    next: u64,
}

impl StatusLine {
    pub closed spec fn view(&self) -> StatusState {
        StatusState {
            message: match self.message {
                Some(m) => Some(m@),
                None => None,
            },
            pending: self.pending,
            next: self.next,
        }
    }

    /// At most the newest ticket is pending.
    pub open spec fn wf(&self) -> bool {
        self.view().pending matches Some(t) ==> t != self.view().next
    }

    /// An empty status line.
    pub fn new() -> (r: Self)
        ensures
            r.wf(),
            r.view() == (StatusState { message: None, pending: None, next: 0 }),
    {
        StatusLine { message: None, pending: None, next: 0 }
    }

    /// The message shown, if any.
    pub fn message(&self) -> (r: Option<&String>)
        ensures
            r matches Some(m) ==> self.view().message == Some(m@),
            r is None ==> self.view().message is None,
    {
        match &self.message {
            Some(m) => Some(m),
            None => None,
        }
    }

    /// The ticket of the expiry task that may still clear the message.
    pub fn pending(&self) -> (r: Option<u64>)
        ensures
            r == self.view().pending,
    {
        self.pending
    }

    /// Shows `text`; the caller cancels the expiry task named in `cancel` and
    /// schedules one under the ticket `expire`.
    pub fn set(&mut self, text: String) -> (r: StatusPlan)
        requires
            old(self).wf(),
        ensures
            final(self).wf(),
            final(self).view() == status_set(old(self).view(), text@),
            r.cancel == old(self).view().pending,
            r.expire == old(self).view().next,
            r.cancel != Some(r.expire),
    {
        let cancel = self.pending;
        let ticket = self.next;
        self.message = Some(text);
        self.pending = Some(ticket);
        self.next = if ticket == u64::MAX { 0 } else { ticket + 1 };
        StatusPlan { cancel, expire: ticket }
    }

    /// Runs the expiry task holding `ticket`: clears the message if that task
    /// is still the pending one, and tells whether it did.
    pub fn expire(&mut self, ticket: u64) -> (r: bool)
        requires
            old(self).wf(),
        ensures
            final(self).wf(),
            r == (old(self).view().pending == Some(ticket)),
            final(self).view() == status_expire(old(self).view(), ticket),
    {
        if self.pending == Some(ticket) {
            self.message = None;
            self.pending = None;
            true
        } else {
            false
        }
    }
}

/// Pagination as a value: the ticket of the task in flight, and the ticket
/// that the next task gets.
pub struct PaginationState {
    pub current: Option<u64>,
    pub next: u64,
}

/// Pagination after a new task is started.
pub open spec fn pagination_start(p: PaginationState) -> PaginationState {
    PaginationState { current: Some(p.next), next: ticket_after(p.next) }
}

/// Pagination after the task holding `ticket` completed.
pub open spec fn pagination_finish(p: PaginationState, ticket: u64) -> PaginationState {
    if p.current == Some(ticket) {
        PaginationState { current: None, next: p.next }
    } else {
        p
    }
}

/// What the caller has to do to start a pagination.
pub struct PaginationStart {
    /// The task to cancel, if one was in flight.
    pub cancel: Option<u64>,
    /// The ticket of the task to spawn.
    pub ticket: u64,
}

/// The one backward pagination that may be in flight, for whichever room.
pub struct PaginationSlot {
    current: Option<u64>,
    next: u64,
}

impl PaginationSlot {
    pub closed spec fn view(&self) -> PaginationState {
        PaginationState { current: self.current, next: self.next }
    }

    /// Only the newest ticket can be in flight.
    pub open spec fn wf(&self) -> bool {
        self.view().current matches Some(t) ==> t != self.view().next
    }

    /// No pagination in flight.
    pub fn new() -> (r: Self)
        ensures
            r.wf(),
            r.view() == (PaginationState { current: None, next: 0 }),
    {
        PaginationSlot { current: None, next: 0 }
    }

    /// The ticket of the task in flight, if any.
    pub fn current(&self) -> (r: Option<u64>)
        ensures
            r == self.view().current,
    {
        self.current
    }

    /// Starts a pagination: the caller cancels the task named in `cancel`
    /// and spawns one under `ticket`.
    pub fn start(&mut self) -> (r: PaginationStart)
        requires
            old(self).wf(),
        ensures
            final(self).wf(),
            final(self).view() == pagination_start(old(self).view()),
            r.cancel == old(self).view().current,
            r.ticket == old(self).view().next,
            r.cancel != Some(r.ticket),
    {
        let cancel = self.current;
        let ticket = self.next;
        self.current = Some(ticket);
        self.next = if ticket == u64::MAX { 0 } else { ticket + 1 };
        PaginationStart { cancel, ticket }
    }

    /// Records that the task holding `ticket` completed; only the one in
    /// flight counts, and the answer tells whether it was.
    pub fn finish(&mut self, ticket: u64) -> (r: bool)
        requires
            old(self).wf(),
        ensures
            final(self).wf(),
            r == (old(self).view().current == Some(ticket)),
            final(self).view() == pagination_finish(old(self).view(), ticket),
    {
        if self.current == Some(ticket) {
            self.current = None;
            true
        } else {
            false
        }
    }
}

/// Setting a message twice leaves only the second expiry pending: the first
/// one's expiry changes nothing, the second one's clears the message, and it
/// clears it once.
pub proof fn lemma_status_set_twice(s: StatusState, a: Seq<char>, b: Seq<char>)
    requires
        s.pending matches Some(t) ==> t != s.next,
    ensures
        ({
            let s1 = status_set(s, a);
            let s2 = status_set(s1, b);
            let first = s1.pending->0;
            let second = s2.pending->0;
            &&& first != second
            &&& s2.pending == Some(second)
            &&& status_expire(s2, first) == s2
            &&& status_expire(s2, second).message is None
            &&& status_expire(s2, second).pending is None
            &&& status_expire(status_expire(s2, second), second) == status_expire(s2, second)
            &&& status_expire(status_expire(s2, first), second) == status_expire(s2, second)
        }),
{
}

/// Starting a pagination while one is in flight cancels it: the earlier task's
/// completion no longer counts, only the newest one's does.
pub proof fn lemma_pagination_restart(p: PaginationState)
    requires
        p.current matches Some(t) ==> t != p.next,
    ensures
        ({
            let after_first = pagination_start(p);
            let after_second = pagination_start(after_first);
            let first = after_first.current->0;
            let second = after_second.current->0;
            &&& first != second
            &&& pagination_finish(after_second, first) == after_second
            &&& pagination_finish(after_second, second).current is None
            &&& pagination_finish(pagination_finish(after_second, first), second).current is None
        }),
{
}

/// The characters of an optional string.
pub open spec fn opt_view(o: Option<String>) -> Option<Seq<char>> {
    match o {
        Some(s) => Some(s@),
        None => None,
    }
}

/// The room subscription held, at most one.
pub struct SubscriptionSlot {
    current: Option<String>,
}

/// What the caller has to do to move the subscription.
pub struct SwitchPlan {
    /// The subscription to release first, if one was held.
    pub release: Option<String>,
    /// The room to subscribe to then, if any.
    pub subscribe: Option<String>,
}

impl SubscriptionSlot {
    pub closed spec fn view(&self) -> Option<Seq<char>> {
        match self.current {
            Some(r) => Some(r@),
            None => None,
        }
    }

    /// No subscription held.
    pub fn new() -> (r: Self)
        ensures
            r.view() is None,
    {
        SubscriptionSlot { current: None }
    }

    /// The room subscribed to, if any.
    pub fn current(&self) -> (r: Option<&String>)
        ensures
            r matches Some(s) ==> self.view() == Some(s@),
            r is None ==> self.view() is None,
    {
        match &self.current {
            Some(s) => Some(s),
            None => None,
        }
    }

    /// Moves the subscription to `target`, or drops it where no room was
    /// found: the old one is released before the new one is taken.
    pub fn switch(&mut self, target: Option<String>) -> (r: SwitchPlan)
        ensures
            opt_view(r.release) == old(self).view(),
            r.subscribe == target,
            final(self).view() == opt_view(target),
    {
        let release = match &self.current {
            Some(s) => Some(s.clone()),
            None => None,
        };
        let subscribe = match &target {
            Some(s) => Some(s.clone()),
            None => None,
        };
        self.current = target;
        SwitchPlan { release, subscribe }
    }
}

/// What reacting to the latest message comes to.
pub enum ReactionPlan {
    /// The selected room has no timeline (or no room is selected).
    MissingTimeline,
    /// The timeline holds no message-type event.
    NothingToReactTo,
    /// Toggle the reaction on this event.
    React(ItemRef),
}

/// Decides what reacting to the latest message does, given the selected
/// room's timeline items, if it has a timeline.
pub fn plan_reaction(items: Option<&[TimelineItem]>) -> (r: ReactionPlan)
    ensures
        items is None ==> r is MissingTimeline,
        items matches Some(s) ==> (r is NothingToReactTo <==> forall|j: int|
            0 <= j < s@.len() ==> !is_message(#[trigger] s@[j])),
        items matches Some(s) ==> (r matches ReactionPlan::React(id) ==> exists|i: int|
            0 <= i < s@.len() && is_message(s@[i]) && (forall|j: int|
                i < j < s@.len() ==> !is_message(#[trigger] s@[j])) && (s@[i] matches TimelineItem::Event { id: eid, .. } && eid == id)),
        items is Some ==> !(r is MissingTimeline),
{
    match items {
        None => ReactionPlan::MissingTimeline,
        Some(s) => match latest_message(s) {
            None => ReactionPlan::NothingToReactTo,
            Some(i) => match &s[i] {
                TimelineItem::Event { id, .. } => ReactionPlan::React(id.copy()),
                TimelineItem::Virtual(_) => ReactionPlan::NothingToReactTo,
            },
        },
    }
}

} // verus!
