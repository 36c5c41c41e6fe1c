use flower::clock::TimeOfDay;
use flower::pollen::PollenCount;
use flower::scheduler::{Command, Event, Scheduler};
use flower::value::LedValue;

fn half_past_six() -> TimeOfDay {
    TimeOfDay { hours: 6, minutes: 30, seconds: 0 }
}

fn midnight() -> TimeOfDay {
    TimeOfDay { hours: 0, minutes: 0, seconds: 0 }
}

fn transmitted(command: Command) -> Vec<[u8; 4]> {
    match command {
        Command::Transmit(m) => m,
        other => panic!("expected a transmission, got {:?}", other),
    }
}

#[test]
fn idle_render_tick_sends_nothing() {
    let mut s = Scheduler::new(24, 12);
    assert!(matches!(s.handle(Event::RenderTick(half_past_six())), Command::Nothing));
}

#[test]
fn active_render_tick_sends_the_face() {
    let mut s = Scheduler::new(24, 12);
    assert!(matches!(s.handle(Event::Motion(true)), Command::Nothing));
    let messages = transmitted(s.handle(Event::RenderTick(half_past_six())));
    assert_eq!(messages.len(), 25);
    let hour = LedValue::low_purple().as_array();
    let minute = LedValue::low_blue().as_array();
    let second = LedValue::low_aqua().as_array();
    let background = LedValue::off().as_array();
    for (i, m) in messages.iter().take(24).enumerate() {
        let expected = match i {
            1 => hour,
            0 => minute,
            12 => second,
            _ => background,
        };
        assert_eq!(*m, expected, "light {}", i);
    }
    assert_eq!(messages[24], [0, 0, 0, 0]);
}

#[test]
fn refresh_result_sets_background_of_next_frame() {
    let mut s = Scheduler::new(24, 12);
    s.handle(Event::Motion(true));
    assert!(matches!(s.handle(Event::RefreshResult(Some(PollenCount::Medium))), Command::Nothing));
    let messages = transmitted(s.handle(Event::RenderTick(half_past_six())));
    assert_eq!(messages[2], LedValue::low_yellow().as_array());
    assert!(matches!(s.handle(Event::RefreshResult(None)), Command::Nothing));
    let messages = transmitted(s.handle(Event::RenderTick(half_past_six())));
    assert_eq!(messages[2], LedValue::off().as_array());
}

#[test]
fn refresh_tick_starts_a_refresh() {
    let mut s = Scheduler::new(24, 12);
    assert!(matches!(s.handle(Event::RefreshTick), Command::StartRefresh));
}

#[test]
fn terminate_exits() {
    let mut s = Scheduler::new(24, 12);
    assert!(matches!(s.handle(Event::Terminate), Command::Exit));
}

#[test]
fn grace_period_expiry_clears_once_then_renders_nothing() {
    let mut s = Scheduler::new(8, 0);
    s.handle(Event::Motion(true));
    let token = match s.handle(Event::Motion(false)) {
        Command::ArmTimeout(t) => t,
        other => panic!("expected a grace period, got {:?}", other),
    };
    // still awake during the grace period
    assert!(matches!(s.handle(Event::RenderTick(midnight())), Command::Transmit(_)));
    let cleared = transmitted(s.handle(Event::TimeoutExpired(token)));
    assert_eq!(cleared.len(), 9);
    for m in cleared.iter().take(8) {
        assert_eq!(*m, LedValue::off().as_array());
    }
    assert_eq!(cleared[8], [0, 0, 0, 0]);
    assert!(matches!(s.handle(Event::TimeoutExpired(token)), Command::Nothing));
    assert!(matches!(s.handle(Event::RenderTick(midnight())), Command::Nothing));
}

#[test]
fn superseded_grace_period_does_not_put_display_to_sleep() {
    let mut s = Scheduler::new(8, 0);
    s.handle(Event::Motion(true));
    let first = match s.handle(Event::Motion(false)) {
        Command::ArmTimeout(t) => t,
        other => panic!("expected a grace period, got {:?}", other),
    };
    assert!(matches!(s.handle(Event::Motion(true)), Command::Nothing));
    assert!(matches!(s.handle(Event::TimeoutExpired(first)), Command::Nothing));
    assert!(matches!(s.handle(Event::RenderTick(midnight())), Command::Transmit(_)));
}
