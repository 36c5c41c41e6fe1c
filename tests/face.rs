use flower::clock::{FakeClock, TimeOfDay};
use flower::face::LedClock;
use flower::frame::LedWritable;
use flower::position::map_position;
use flower::value::LedValue;

fn lit_positions(face: &LedClock<FakeClock>, colour: LedValue) -> Vec<usize> {
    let mut r = Vec::new();
    for (i, light) in face.as_array().iter().enumerate() {
        if *light == colour {
            r.push(i);
        }
    }
    r
}

#[test]
fn map_position_follows_formula() {
    assert_eq!(map_position(6, 12, 24, 12), 0);
    assert_eq!(map_position(3, 12, 24, 0), 6);
    assert_eq!(map_position(59, 60, 24, 0), 23);
    assert_eq!(map_position(30, 60, 24, 12), 0);
    assert_eq!(map_position(0, 60, 24, 12), 12);
    assert_eq!(map_position(7, 60, 10, 3), 4);
}

#[test]
fn map_position_stays_on_the_ring() {
    for ring in 1..40usize {
        for offset in 0..50usize {
            for value in 0..60usize {
                assert!(map_position(value, 60, ring, offset) < ring);
            }
        }
    }
}

#[test]
fn map_position_is_monotonic_from_the_offset() {
    let ring = 24usize;
    let offset = 17usize;
    let mut last = 0usize;
    for value in 0..60usize {
        let pos = map_position(value, 60, ring, offset);
        let distance = (pos + ring - offset % ring) % ring;
        assert!(distance >= last);
        last = distance;
    }
}

#[test]
fn map_position_takes_large_values_without_overflow() {
    assert_eq!(map_position(usize::MAX, 12, 24, usize::MAX), (((usize::MAX % 12) * 24) / 12 + usize::MAX % 24) % 24);
    assert_eq!(map_position(13, 12, 24, 0), 2);
}

#[test]
fn hour_hand_second_light_wraps_to_zero() {
    // 11 o'clock on 24 lights with no offset maps to 22; offset 1 gives 23.
    let mut clock = FakeClock::new();
    clock.hours = 11;
    clock.minutes = 15;
    clock.seconds = 15;
    let mut face = LedClock::new(24, 1, clock);
    assert_eq!(face.fit_index_to_buffer(11, 12), 23);
    assert!(face.update().is_ok());
    let hour = LedValue::low_purple();
    assert_eq!(lit_positions(&face, hour), vec![0, 23]);
}

#[test]
fn end_to_end_half_past_six() {
    let mut clock = FakeClock::new();
    clock.hours = 6;
    clock.minutes = 30;
    clock.seconds = 0;
    let mut face = LedClock::new(24, 12, clock);
    face.update().unwrap();
    // hour: ((6 * 24) / 12 + 12) % 24 = 0, its second light 1; the minute
    // hand, drawn later, takes position 0
    assert_eq!(face.fit_index_to_buffer(6, 12), 0);
    assert_eq!(face.fit_index_to_buffer(30, 60), 0);
    assert_eq!(face.fit_index_to_buffer(0, 60), 12);
    assert_eq!(lit_positions(&face, LedValue::low_purple()), vec![1]);
    assert_eq!(lit_positions(&face, LedValue::low_blue()), vec![0]);
    assert_eq!(lit_positions(&face, LedValue::low_aqua()), vec![12]);
    assert_eq!(lit_positions(&face, LedValue::off()).len(), 21);
}

#[test]
fn later_hands_draw_over_earlier_ones() {
    let mut face = LedClock::new(12, 0, FakeClock::new());
    face.draw(TimeOfDay { hours: 0, minutes: 0, seconds: 0 });
    assert_eq!(lit_positions(&face, LedValue::low_aqua()), vec![0]);
    assert_eq!(lit_positions(&face, LedValue::low_purple()), vec![1]);
    assert!(lit_positions(&face, LedValue::low_blue()).is_empty());
}

#[test]
fn background_fills_the_rest_of_the_face() {
    let mut face = LedClock::new(24, 12, FakeClock::new());
    face.set_background(LedValue::low_green());
    face.draw(TimeOfDay { hours: 6, minutes: 30, seconds: 0 });
    assert_eq!(lit_positions(&face, LedValue::low_green()).len(), 21);
    face.draw(TimeOfDay { hours: 7, minutes: 30, seconds: 0 });
    assert_eq!(lit_positions(&face, LedValue::low_purple()), vec![2, 3]);
    assert_eq!(lit_positions(&face, LedValue::low_green()).len(), 20);
}

#[test]
fn new_face_is_dark() {
    let face = LedClock::new(5, 0, FakeClock::new());
    assert_eq!(face.as_array().len(), 5);
    assert_eq!(lit_positions(&face, LedValue::off()), vec![0, 1, 2, 3, 4]);
}
