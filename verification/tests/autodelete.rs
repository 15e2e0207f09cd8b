use inori::autodelete::{
    schedule, AutoDeleteConfig, DeletionTimer, MessageRef, ScheduledDeletion, TimerAction,
};

fn message() -> MessageRef {
    MessageRef { channel_id: 5, message_id: 8 }
}

#[test]
fn schedule_adds_the_delay() {
    let d = schedule(message(), 100, 10);
    assert_eq!(d, ScheduledDeletion { message_id: 8, channel_id: 5, fire_at: 110 });
    assert_eq!(d.message(), message());
}

#[test]
fn schedule_stops_at_the_end_of_the_clock() {
    assert_eq!(schedule(message(), u64::MAX - 1, 10).fire_at, u64::MAX);
    assert_eq!(schedule(message(), u64::MAX, 0).fire_at, u64::MAX);
}

#[test]
fn plan_follows_the_settings() {
    let off = AutoDeleteConfig { enabled: false, delay: 10 };
    assert_eq!(off.plan(message(), 100), None);
    let on = AutoDeleteConfig { enabled: true, delay: 10 };
    assert_eq!(
        on.plan(message(), 100),
        Some(ScheduledDeletion { message_id: 8, channel_id: 5, fire_at: 110 })
    );
}

#[test]
fn due_and_remaining() {
    let d = schedule(message(), 100, 10);
    assert!(!d.is_due(109));
    assert!(d.is_due(110));
    assert!(d.is_due(111));
    assert_eq!(d.remaining(100), 10);
    assert_eq!(d.remaining(109), 1);
    assert_eq!(d.remaining(110), 0);
    assert_eq!(d.remaining(500), 0);
}

#[test]
fn deletion_without_delay_is_asked_for_exactly_once() {
    let mut timer = DeletionTimer::start(schedule(message(), 100, 0));
    let mut asked = 0;
    for now in 100..110u64 {
        let (next, action) = timer.poll(now);
        if let TimerAction::Delete(m) = action {
            assert_eq!(m, message());
            assert_eq!(now, 100);
            asked += 1;
        }
        timer = next;
    }
    assert_eq!(asked, 1);
    assert_eq!(timer, DeletionTimer::Done);
}

#[test]
fn timer_waits_for_its_time() {
    let timer = DeletionTimer::start(schedule(message(), 100, 10));
    let (timer, action) = timer.poll(105);
    assert_eq!(action, TimerAction::Wait);
    assert_eq!(timer, DeletionTimer::Pending(schedule(message(), 100, 10)));
    let (timer, action) = timer.poll(110);
    assert_eq!(action, TimerAction::Delete(message()));
    assert_eq!(timer, DeletionTimer::Done);
    let (timer, action) = timer.poll(111);
    assert_eq!(action, TimerAction::Wait);
    assert_eq!(timer, DeletionTimer::Done);
}
