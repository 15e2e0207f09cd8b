//! A paginated reply: the pages, the page that is shown, and the moves
//! between pages. Moves stop at the first and at the last page.

use vstd::prelude::*;
use crate::autodelete::fire_time;
use crate::delivery::payload_views;
use crate::render::{Payload, PayloadView};

verus! {

/// Why no session was opened.
#[derive(Clone, Copy, Debug, PartialEq, Eq, Structural)]
pub enum PaginationError {
    /// There was no page to show.
    Empty,
}

/// A move between pages.
#[derive(Clone, Copy, Debug, PartialEq, Eq, Structural)]
pub enum Navigation {
    Next,
    Previous,
    First,
    Last,
}

/// The index after a move, among `len` pages: one further or one back, but
/// never past either end, or straight to an end.
pub open spec fn moved(index: int, len: int, by: Navigation) -> int {
    match by {
        Navigation::Next => if index + 1 < len {
            index + 1
        } else {
            len - 1
        },
        Navigation::Previous => if index > 0 {
            index - 1
        } else {
            0
        },
        Navigation::First => 0,
        Navigation::Last => len - 1,
    }
}

/// The index after the same move made `times` times.
pub open spec fn moved_times(index: int, len: int, by: Navigation, times: nat) -> int
    decreases times,
{
    if times == 0 {
        index
    } else {
        moved_times(moved(index, len, by), len, by, (times - 1) as nat)
    }
}

/// The live state of a paginated reply.
#[derive(Debug)]
pub struct PaginationSession {
    pages: Vec<Payload>,
    current_index: usize,
    owner_message_id: u64,
    idle_timeout: u64,
    expires_at: u64,
}

impl PaginationSession {
    #[verifier::type_invariant]
    spec fn well_formed(&self) -> bool {
        self.current_index < self.pages.len()
    }

    /// The pages, as plain values.
    pub closed spec fn pages(&self) -> Seq<PayloadView> {
        payload_views(self.pages@)
    }

    /// The index of the page that is shown.
    pub closed spec fn index(&self) -> int {
        self.current_index as int
    }

    /// The message that shows the pages.
    pub closed spec fn owner(&self) -> u64 {
        self.owner_message_id
    }

    /// The seconds without a move after which the session ends.
    pub closed spec fn timeout(&self) -> u64 {
        self.idle_timeout
    }

    /// The time at which the session ends unless a move comes first.
    pub closed spec fn expiry(&self) -> u64 {
        self.expires_at
    }

    /// Opens a session on pages that were rendered before, at the first
    /// page. Without a page there is no session.
    pub fn open_session(
        pages: Vec<Payload>,
        owner_message_id: u64,
        now: u64,
        idle_timeout: u64,
    ) -> (opened: Result<PaginationSession, PaginationError>)
        ensures
            pages@.len() == 0 <==> opened is Err,
            opened matches Err(e) ==> e == PaginationError::Empty,
            opened matches Ok(session) ==> {
                &&& session.pages() == payload_views(pages@)
                &&& session.index() == 0
                &&& session.owner() == owner_message_id
                &&& session.timeout() == idle_timeout
                &&& session.expiry() == fire_time(now, idle_timeout)
            },
    {
        if pages.len() == 0 {
            Err(PaginationError::Empty)
        } else {
            Ok(
                PaginationSession {
                    pages,
                    current_index: 0,
                    owner_message_id,
                    idle_timeout,
                    expires_at: now.saturating_add(idle_timeout),
                },
            )
        }
    }

    /// The number of pages.
    pub fn len(&self) -> (n: usize)
        ensures
            n == self.pages().len(),
            n > 0,
    {
        proof {
            use_type_invariant(self);
        }
        self.pages.len()
    }

    /// The index of the page that is shown.
    pub fn current_index(&self) -> (i: usize)
        ensures
            i == self.index(),
            i < self.pages().len(),
    {
        proof {
            use_type_invariant(self);
        }
        self.current_index
    }

    /// The page that is shown.
    pub fn current_page(&self) -> (page: &Payload)
        ensures
            0 <= self.index() < self.pages().len(),
            page@ == self.pages()[self.index()],
    {
        proof {
            use_type_invariant(self);
        }
        &self.pages[self.current_index]
    }

    /// The message that shows the pages.
    pub fn owner_message_id(&self) -> (id: u64)
        ensures
            id == self.owner(),
    {
        self.owner_message_id
    }

    /// The time at which the session ends unless a move comes first.
    pub fn expires_at(&self) -> (at: u64)
        ensures
            at == self.expiry(),
    {
        self.expires_at
    }

    /// Whether the reply gets navigation controls: a single page needs none.
    pub fn has_controls(&self) -> (controls: bool)
        ensures
            controls == (self.pages().len() > 1),
    {
        self.pages.len() > 1
    }

    /// Whether the session has been idle for too long at `now`.
    pub fn is_expired(&self, now: u64) -> (expired: bool)
        ensures
            expired == (now >= self.expiry()),
    {
        now >= self.expires_at
    }

    /// Makes a move at `now`: shows the page that the move leads to and
    /// starts the idle time anew. Returns the index of the page to show.
    pub fn navigate(&mut self, by: Navigation, now: u64) -> (shown: usize)
        ensures
            final(self).index() == moved(old(self).index(), old(self).pages().len() as int, by),
            shown == final(self).index(),
            final(self).pages() == old(self).pages(),
            final(self).owner() == old(self).owner(),
            final(self).timeout() == old(self).timeout(),
            final(self).expiry() == fire_time(now, old(self).timeout()),
    {
        proof {
            use_type_invariant(&*self);
        }
        let last: usize = self.pages.len() - 1;
        let target: usize = match by {
            Navigation::Next => if self.current_index < last {
                self.current_index + 1
            } else {
                last
            },
            Navigation::Previous => if self.current_index > 0 {
                self.current_index - 1
            } else {
                0
            },
            Navigation::First => 0,
            Navigation::Last => last,
        };
        self.current_index = target;
        self.expires_at = now.saturating_add(self.idle_timeout);
        target
    }

    /// Moves one page on, or stays on the last page.
    pub fn next(&mut self, now: u64) -> (shown: usize)
        ensures
            final(self).index() == moved(
                old(self).index(),
                old(self).pages().len() as int,
                Navigation::Next,
            ),
            shown == final(self).index(),
            final(self).pages() == old(self).pages(),
            final(self).owner() == old(self).owner(),
            final(self).timeout() == old(self).timeout(),
            final(self).expiry() == fire_time(now, old(self).timeout()),
    {
        self.navigate(Navigation::Next, now)
    }

    /// Moves one page back, or stays on the first page.
    pub fn previous(&mut self, now: u64) -> (shown: usize)
        ensures
            final(self).index() == moved(
                old(self).index(),
                old(self).pages().len() as int,
                Navigation::Previous,
            ),
            shown == final(self).index(),
            final(self).pages() == old(self).pages(),
            final(self).owner() == old(self).owner(),
            final(self).timeout() == old(self).timeout(),
            final(self).expiry() == fire_time(now, old(self).timeout()),
    {
        self.navigate(Navigation::Previous, now)
    }

    /// Moves to the first page.
    pub fn jump_first(&mut self, now: u64) -> (shown: usize)
        ensures
            final(self).index() == 0,
            shown == 0,
            final(self).pages() == old(self).pages(),
            final(self).owner() == old(self).owner(),
            final(self).timeout() == old(self).timeout(),
            final(self).expiry() == fire_time(now, old(self).timeout()),
    {
        self.navigate(Navigation::First, now)
    }

    /// Moves to the last page.
    pub fn jump_last(&mut self, now: u64) -> (shown: usize)
        ensures
            final(self).index() == old(self).pages().len() - 1,
            shown == final(self).index(),
            final(self).pages() == old(self).pages(),
            final(self).owner() == old(self).owner(),
            final(self).timeout() == old(self).timeout(),
            final(self).expiry() == fire_time(now, old(self).timeout()),
    {
        self.navigate(Navigation::Last, now)
    }

    /// Ends the session. Returns the message whose navigation controls are
    /// to be removed; the message itself stays.
    pub fn close(self) -> (owner: u64)
        ensures
            owner == self.owner(),
    {
        self.owner_message_id
    }
}

/// What happened to a paginated reply.
#[derive(Clone, Copy, Debug, PartialEq, Eq, Structural)]
pub enum PaginationEvent {
    /// The reader asked for a move.
    Move(Navigation),
    /// The reader dismissed the reply.
    Dismiss,
    /// Nothing but the passing of time.
    Tick,
}

/// What the transport is to do for a paginated reply.
#[derive(Clone, Copy, Debug, PartialEq, Eq, Structural)]
pub enum PaginationAction {
    /// Edit the message so that it shows the page of this index.
    Show(usize),
    /// Take the navigation controls off the message and leave it in place.
    RemoveControls(u64),
    /// Nothing.
    Wait,
}

/// A paginated reply is live, or over.
#[derive(Debug)]
pub enum PaginationState {
    Active(PaginationSession),
    Closed,
}

/// Takes a live or closed reply through one event at `now`. A closed reply
/// stays closed. A live one ends when it is dismissed or has been idle for
/// too long, and its controls are removed; a move shows the page it leads
/// to and starts the idle time anew; a tick before the end changes nothing.
pub fn step(state: PaginationState, event: PaginationEvent, now: u64) -> (next: (
    PaginationState,
    PaginationAction,
))
    ensures
        match state {
            PaginationState::Closed => next.0 is Closed && next.1 == PaginationAction::Wait,
            PaginationState::Active(before) => if now >= before.expiry() || event
                == PaginationEvent::Dismiss {
                next.0 is Closed && next.1 == PaginationAction::RemoveControls(before.owner())
            } else {
                &&& next.0 matches PaginationState::Active(after)
                &&& after.pages() == before.pages()
                &&& after.owner() == before.owner()
                &&& after.timeout() == before.timeout()
                &&& match event {
                    PaginationEvent::Move(by) => {
                        &&& after.index() == moved(
                            before.index(),
                            before.pages().len() as int,
                            by,
                        )
                        &&& after.expiry() == fire_time(now, before.timeout())
                        &&& next.1 matches PaginationAction::Show(i)
                        &&& i == after.index()
                    },
                    _ => {
                        &&& after.index() == before.index()
                        &&& after.expiry() == before.expiry()
                        &&& next.1 == PaginationAction::Wait
                    },
                }
            },
        },
{
    match state {
        PaginationState::Closed => (PaginationState::Closed, PaginationAction::Wait),
        PaginationState::Active(mut session) => {
            if session.is_expired(now) {
                let owner: u64 = session.close();
                (PaginationState::Closed, PaginationAction::RemoveControls(owner))
            } else {
                match event {
                    PaginationEvent::Dismiss => {
                        let owner: u64 = session.close();
                        (PaginationState::Closed, PaginationAction::RemoveControls(owner))
                    },
                    PaginationEvent::Move(by) => {
                        let shown: usize = session.navigate(by, now);
                        (PaginationState::Active(session), PaginationAction::Show(shown))
                    },
                    PaginationEvent::Tick => (
                        PaginationState::Active(session),
                        PaginationAction::Wait,
                    ),
                }
            }
        },
    }
}

/// A move from a page of the reply leads to a page of the reply.
pub proof fn moved_stays_in_range(index: int, len: int, by: Navigation)
    requires
        0 <= index < len,
    ensures
        0 <= moved(index, len, by) < len,
{
}

proof fn lemma_next_times(index: int, len: int, times: nat)
    requires
        0 <= index < len,
    ensures
        moved_times(index, len, Navigation::Next, times) == if index + times < len {
            index + times
        } else {
            len - 1
        },
    decreases times,
{
    if times > 0 {
        lemma_next_times(moved(index, len, Navigation::Next), len, (times - 1) as nat);
    }
}

proof fn lemma_previous_times(index: int, len: int, times: nat)
    requires
        0 <= index < len,
    ensures
        moved_times(index, len, Navigation::Previous, times) == if index - times > 0 {
            index - times
        } else {
            0
        },
    decreases times,
{
    if times > 0 {
        lemma_previous_times(moved(index, len, Navigation::Previous), len, (times - 1) as nat);
    }
}

/// Moves stop at the ends. Among `n` pages, `n + 2` moves on from the first
/// page end on the last page, and `n + 2` moves back from the last page end
/// on the first: no move wraps around or leaves the pages.
pub proof fn moves_clamp_at_the_ends(n: nat)
    requires
        n > 0,
    ensures
        moved_times(0, n as int, Navigation::Next, n + 2) == n - 1,
        moved_times(n - 1, n as int, Navigation::Previous, n + 2) == 0,
{
    lemma_next_times(0, n as int, n + 2);
    lemma_previous_times(n - 1, n as int, n + 2);
}

} // verus!
