use flower::array::LedArray;
use flower::clock::{FakeClock, TimeOfDay};
use flower::error::FlowerError;
use flower::frame::LedWritable;
use flower::interface::LedInterface;
use flower::value::LedValue;

#[test]
fn array_sets_and_resets() {
    let mut a = LedArray::new(3);
    assert_eq!(a.as_array(), &[LedValue::off(); 3]);
    a.set_led(1, LedValue::low_red()).unwrap();
    assert_eq!(a.as_array(), &[LedValue::off(), LedValue::low_red(), LedValue::off()]);
    match a.set_led(3, LedValue::low_red()) {
        Err(FlowerError::InvalidIndex { index, size }) => assert_eq!((index, size), (3, 3)),
        _ => panic!("index past the end accepted"),
    }
    a.set_background(LedValue::low_blue()).reset();
    assert_eq!(a.as_array(), &[LedValue::low_blue(); 3]);
}

#[test]
fn interface_flushes_messages_then_terminator() {
    let mut a = LedArray::new(2);
    a.set_led(0, LedValue::new(5, 1, 2, 3).unwrap()).unwrap();
    let mut out = LedInterface::new(2);
    out.write(&a).unwrap();
    let messages = out.flush();
    assert_eq!(messages, vec![[229, 3, 2, 1], [224, 255, 255, 255], [0, 0, 0, 0]]);
    assert_eq!(out.flush(), vec![[0, 0, 0, 0]]);
}

#[test]
fn interface_refuses_overflow() {
    let a = LedArray::new(3);
    let mut out = LedInterface::new(4);
    out.write(&a).unwrap();
    match out.write(&a) {
        Err(FlowerError::BufferOverflow { buffered, incoming, capacity }) => {
            assert_eq!((buffered, incoming, capacity), (3, 3, 4))
        }
        _ => panic!("overflow accepted"),
    }
    assert_eq!(out.flush().len(), 4);
}

#[test]
fn interface_clear_sends_dark_frame() {
    let mut out = LedInterface::new(3);
    let messages = out.clear().flush();
    assert_eq!(messages, vec![[224, 255, 255, 255], [224, 255, 255, 255], [224, 255, 255, 255], [0, 0, 0, 0]]);
}

#[test]
fn fake_clock_carries() {
    let mut c = FakeClock::new();
    c.seconds = 59;
    c.minutes = 59;
    c.hours = 23;
    c.advance_one_second();
    assert_eq!((c.hours, c.minutes, c.seconds), (0, 0, 0));
    c.advance_one_second();
    assert_eq!((c.hours, c.minutes, c.seconds), (0, 0, 1));
    c.advance_one_minute();
    assert_eq!((c.hours, c.minutes, c.seconds), (0, 1, 1));
    c.advance_one_hour();
    assert_eq!((c.hours, c.minutes, c.seconds), (1, 1, 1));
}

#[test]
fn time_of_day_from_epoch() {
    assert_eq!(TimeOfDay::from_epoch_seconds(0), TimeOfDay { hours: 0, minutes: 0, seconds: 0 });
    // 2020-09-13T12:26:40Z
    assert_eq!(TimeOfDay::from_epoch_seconds(1_600_000_000), TimeOfDay { hours: 12, minutes: 26, seconds: 40 });
    assert_eq!(TimeOfDay::from_epoch_seconds(86_399), TimeOfDay { hours: 23, minutes: 59, seconds: 59 });
}
