//! Deferred deletion of sent messages: when a deletion is due, and a timer
//! that asks for it once.

use vstd::prelude::*;

verus! {

/// A sent message, by the identifiers that the transport knows it under.
#[derive(Clone, Copy, Debug, PartialEq, Eq, Structural)]
pub struct MessageRef {
    pub channel_id: u64,
    pub message_id: u64,
}

/// Whether sent messages are cleaned up, and after how many seconds.
#[derive(Clone, Copy, Debug, PartialEq, Eq, Structural)]
pub struct AutoDeleteConfig {
    pub enabled: bool,
    pub delay: u64,
}

/// A message that is to be deleted once the clock reaches `fire_at`.
#[derive(Clone, Copy, Debug, PartialEq, Eq, Structural)]
pub struct ScheduledDeletion {
    pub message_id: u64,
    pub channel_id: u64,
    pub fire_at: u64,
}

/// The time `delay` seconds after `now`, or the last time that the clock can
/// show where the sum lies beyond it.
pub open spec fn fire_time(now: u64, delay: u64) -> u64 {
    if now + delay > u64::MAX {
        u64::MAX
    } else {
        (now + delay) as u64
    }
}

/// The deletion of `message`, `delay` seconds after `now`.
pub open spec fn scheduled(message: MessageRef, now: u64, delay: u64) -> ScheduledDeletion {
    ScheduledDeletion {
        message_id: message.message_id,
        channel_id: message.channel_id,
        fire_at: fire_time(now, delay),
    }
}

/// Registers `message` for deletion `delay` seconds after `now`.
pub fn schedule(message: MessageRef, now: u64, delay: u64) -> (deletion: ScheduledDeletion)
    ensures
        deletion == scheduled(message, now, delay),
{
    ScheduledDeletion {
        message_id: message.message_id,
        channel_id: message.channel_id,
        fire_at: now.saturating_add(delay),
    }
}

impl AutoDeleteConfig {
    /// The cleanup that follows a message sent at `now`: its deletion after
    /// the configured delay where cleanup is enabled, else none.
    pub fn plan(&self, message: MessageRef, now: u64) -> (deletion: Option<ScheduledDeletion>)
        ensures
            deletion == if self.enabled {
                Some(scheduled(message, now, self.delay))
            } else {
                None
            },
    {
        if self.enabled {
            Some(schedule(message, now, self.delay))
        } else {
            None
        }
    }
}

impl ScheduledDeletion {
    /// The message that is to be deleted.
    pub fn message(&self) -> (message: MessageRef)
        ensures
            message == (MessageRef { channel_id: self.channel_id, message_id: self.message_id }),
    {
        MessageRef { channel_id: self.channel_id, message_id: self.message_id }
    }

    /// Whether the deletion is due at `now`.
    pub fn is_due(&self, now: u64) -> (due: bool)
        ensures
            due == (now >= self.fire_at),
    {
        now >= self.fire_at
    }

    /// The seconds from `now` until the deletion is due; 0 once it is.
    pub fn remaining(&self, now: u64) -> (seconds: u64)
        ensures
            seconds == if now >= self.fire_at {
                0
            } else {
                self.fire_at - now
            },
    {
        if now >= self.fire_at {
            0
        } else {
            self.fire_at - now
        }
    }
}

/// A deletion timer: waiting for its time, or done. There is no way back
/// from `Done` and no way to cancel a pending timer.
#[derive(Clone, Copy, Debug, PartialEq, Eq, Structural)]
pub enum DeletionTimer {
    Pending(ScheduledDeletion),
    Done,
}

/// What the owner of a timer does after a look at the clock.
#[derive(Clone, Copy, Debug, PartialEq, Eq, Structural)]
pub enum TimerAction {
    /// Nothing yet, or nothing any more.
    Wait,
    /// Ask the transport to delete this message, and ignore how that ends.
    Delete(MessageRef),
}

/// The timer after a look at the clock, and what is to be done: a pending
/// timer whose time has come asks for the deletion and is done.
pub open spec fn timer_step(timer: DeletionTimer, now: u64) -> (DeletionTimer, TimerAction) {
    match timer {
        DeletionTimer::Pending(d) => if now >= d.fire_at {
            (
                DeletionTimer::Done,
                TimerAction::Delete(
                    MessageRef { channel_id: d.channel_id, message_id: d.message_id },
                ),
            )
        } else {
            (timer, TimerAction::Wait)
        },
        DeletionTimer::Done => (timer, TimerAction::Wait),
    }
}

/// How many deletions a timer asks for over a run of looks at the clock.
pub open spec fn deletions(timer: DeletionTimer, times: Seq<u64>) -> nat
    decreases times.len(),
{
    if times.len() == 0 {
        0
    } else {
        let (next, action) = timer_step(timer, times[0]);
        let asked: nat = if action is Delete {
            1
        } else {
            0
        };
        asked + deletions(next, times.drop_first())
    }
}

impl DeletionTimer {
    /// A timer for the given deletion.
    pub fn start(deletion: ScheduledDeletion) -> (timer: DeletionTimer)
        ensures
            timer == DeletionTimer::Pending(deletion),
    {
        DeletionTimer::Pending(deletion)
    }

    /// Looks at the clock.
    pub fn poll(self, now: u64) -> (step: (DeletionTimer, TimerAction))
        ensures
            step == timer_step(self, now),
    {
        match self {
            DeletionTimer::Pending(d) => {
                if d.is_due(now) {
                    (DeletionTimer::Done, TimerAction::Delete(d.message()))
                } else {
                    (self, TimerAction::Wait)
                }
            },
            DeletionTimer::Done => (self, TimerAction::Wait),
        }
    }
}

/// A timer that is done asks for no deletion, whatever the clock shows.
pub proof fn done_timer_stays_silent(times: Seq<u64>)
    ensures
        deletions(DeletionTimer::Done, times) == 0,
    decreases times.len(),
{
    if times.len() > 0 {
        done_timer_stays_silent(times.drop_first());
    }
}

/// No run of looks at the clock makes a timer ask for its deletion twice,
/// and a run that reaches the timer's time makes it ask exactly once.
pub proof fn timer_deletes_once(deletion: ScheduledDeletion, times: Seq<u64>)
    ensures
        deletions(DeletionTimer::Pending(deletion), times) <= 1,
        (exists|i: int| 0 <= i < times.len() && times[i] >= deletion.fire_at) ==> deletions(
            DeletionTimer::Pending(deletion),
            times,
        ) == 1,
    decreases times.len(),
{
    if times.len() > 0 {
        let rest = times.drop_first();
        if times[0] >= deletion.fire_at {
            done_timer_stays_silent(rest);
        } else {
            timer_deletes_once(deletion, rest);
            if exists|i: int| 0 <= i < times.len() && times[i] >= deletion.fire_at {
                let i = choose|i: int| 0 <= i < times.len() && times[i] >= deletion.fire_at;
                assert(rest[i - 1] == times[i]);
            }
        }
    }
}

/// A deletion scheduled without delay is due at the moment it is scheduled,
/// so the first look at the clock from then on asks for it, and none after.
pub proof fn immediate_deletion_fires_at_once(message: MessageRef, now: u64, later: Seq<u64>)
    requires
        later.len() > 0,
        later[0] >= now,
    ensures
        scheduled(message, now, 0).fire_at == now,
        timer_step(DeletionTimer::Pending(scheduled(message, now, 0)), later[0]).1
            == TimerAction::Delete(message),
        deletions(DeletionTimer::Pending(scheduled(message, now, 0)), later) == 1,
{
    timer_deletes_once(scheduled(message, now, 0), later);
}

} // verus!
