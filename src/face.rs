//! The clock face: a frame of lights that shows the time of day.

use crate::clock::{Clock, TimeOfDay};
use crate::error::FlowerError;
use crate::frame::{filled, LedWritable};
use crate::position::{map_position, ring_position};
use crate::value::LedValue;
use vstd::prelude::*;

verus! {

/// The colours of the background and of the three hands.
#[derive(Clone, Copy, Debug, PartialEq, Eq, Structural)]
pub struct FaceColours {
    pub background: LedValue,
    pub hour: LedValue,
    pub minute: LedValue,
    pub second: LedValue,
}

/// The frame that shows `hours:minutes:seconds` on a ring of `size` lights
/// whose zero sits `offset` lights round. Every light shows the background
/// but for the hands, drawn in this order, each over the ones before: the
/// hour hand on its position and the one after it (wrapping past the last
/// light to the first), then the minute hand, then the second hand.
pub open spec fn clock_face(
    size: int,
    offset: int,
    colours: FaceColours,
    hours: int,
    minutes: int,
    seconds: int,
) -> Seq<LedValue> {
    let hp = ring_position(hours, 12, size, offset);
    let mp = ring_position(minutes, 60, size, offset);
    let sp = ring_position(seconds, 60, size, offset);
    Seq::new(
        size as nat,
        |i: int|
            if i == sp {
                colours.second
            } else if i == mp {
                colours.minute
            } else if i == hp || i == (hp + 1) % size {
                colours.hour
            } else {
                colours.background
            },
    )
}

/// The hour hand's second light is the one after its mapped position, taken
/// modulo the ring: past the last light it is the first. It shows the hour
/// colour unless the minute or second hand lands on it.
pub proof fn lemma_hour_hand_second_light(
    size: int,
    offset: int,
    colours: FaceColours,
    hours: int,
    minutes: int,
    seconds: int,
)
    requires
        size > 0,
        offset >= 0,
        hours >= 0,
    ensures
        ({
            let hp = ring_position(hours, 12, size, offset);
            let next = (hp + 1) % size;
            let face = clock_face(size, offset, colours, hours, minutes, seconds);
            &&& 0 <= next < size
            &&& hp == size - 1 ==> next == 0
            &&& hp < size - 1 ==> next == hp + 1
            &&& next != ring_position(minutes, 60, size, offset) && next != ring_position(
                seconds,
                60,
                size,
                offset,
            ) ==> face[next] == colours.hour
        }),
{
    crate::position::lemma_position_in_ring(hours, 12, size, offset);
    let hp = ring_position(hours, 12, size, offset);
    if hp == size - 1 {
        vstd::arithmetic::div_mod::lemma_mod_self_0(size);
    } else {
        vstd::arithmetic::div_mod::lemma_small_mod((hp + 1) as nat, size as nat);
    }
}

/// A clock face over a source of the time.
pub struct LedClock<C> {
    clock: C,
    background: LedValue,
    hour: LedValue,
    minute: LedValue,
    second: LedValue,
    led_buffer: Vec<LedValue>,
    led_offset: usize,
}

impl<C> LedClock<C> {
    /// The number of lights on the ring.
    pub closed spec fn size(&self) -> nat {
        self.led_buffer@.len()
    }

    /// How far round the ring the zero position sits.
    pub closed spec fn offset(&self) -> nat {
        self.led_offset as nat
    }

    /// The background and hand colours.
    pub closed spec fn colours(&self) -> FaceColours {
        FaceColours {
            background: self.background,
            hour: self.hour,
            minute: self.minute,
            second: self.second,
        }
    }

    /// The lights as last drawn.
    pub closed spec fn frame(&self) -> Seq<LedValue> {
        self.led_buffer@
    }

    /// The source of the time.
    pub closed spec fn source(&self) -> C {
        self.clock
    }
}

impl<C> LedClock<C> {
    /// A dark face of `num_leds` lights, zero at `led_offset`, with purple,
    /// blue and aqua hands for hours, minutes and seconds.
    pub fn new(num_leds: usize, led_offset: usize, clock: C) -> (r: LedClock<C>)
        requires
            num_leds > 0,
        ensures
            r.size() == num_leds,
            r.offset() == led_offset,
            r.source() == clock,
            r.colours().background == LedValue::off_spec(),
            r.colours().hour.is(1, 255, 0, 255),
            r.colours().minute.is(1, 0, 0, 255),
            r.colours().second.is(1, 0, 255, 255),
            r.frame() == Seq::new(num_leds as nat, |i: int| LedValue::off_spec()),
    {
        let off = LedValue::off();
        LedClock {
            clock,
            led_offset,
            background: off,
            hour: LedValue::low_purple(),
            minute: LedValue::low_blue(),
            second: LedValue::low_aqua(),
            led_buffer: filled(off, num_leds),
        }
    }

    /// Sets the background that the next drawing uses.
    pub fn set_background(&mut self, background: LedValue) -> (r: &mut Self)
        ensures
            r.colours() == (FaceColours { background, ..old(self).colours() }),
            r.size() == old(self).size(),
            r.offset() == old(self).offset(),
            r.frame() == old(self).frame(),
            r.source() == old(self).source(),
            *final(self) == *final(r),
    {
        self.background = background;
        self
    }

    /// Sets light `led_num`; an index outside the ring is refused.
    fn set_led(&mut self, led_num: usize, value: LedValue) -> (r: Result<&mut Self, FlowerError>)
        ensures
            led_num < old(self).size() ==> (r matches Ok(a) && a.frame() == old(self).frame().update(
                led_num as int,
                value,
            ) && a.colours() == old(self).colours() && a.offset() == old(self).offset()
                && a.source() == old(self).source() && *final(self) == *final(a)),
            led_num >= old(self).size() ==> (r matches Err(FlowerError::InvalidIndex {
                index,
                size,
            }) && index == led_num && size == old(self).size() && *final(self) == *old(self)),
    {
        if led_num < self.led_buffer.len() {
            self.led_buffer.set(led_num, value);
            Ok(self)
        } else {
            Err(FlowerError::InvalidIndex { index: led_num, size: self.led_buffer.len() })
        }
    }

    /// The ring position of `index` on a scale of `divisor` steps.
    pub fn fit_index_to_buffer(&self, index: usize, divisor: usize) -> (r: usize)
        requires
            divisor > 0,
            self.size() > 0,
        ensures
            r == ring_position(index as int, divisor as int, self.size() as int, self.offset() as int),
            r < self.size(),
    {
        map_position(index, divisor, self.led_buffer.len(), self.led_offset)
    }

    /// Redraws the whole frame from the background for the given time.
    pub fn draw(&mut self, time: TimeOfDay) -> (r: &mut Self)
        requires
            old(self).size() > 0,
        ensures
            r.frame() == clock_face(
                old(self).size() as int,
                old(self).offset() as int,
                old(self).colours(),
                time.hours as int,
                time.minutes as int,
                time.seconds as int,
            ),
            r.size() == old(self).size(),
            r.colours() == old(self).colours(),
            r.offset() == old(self).offset(),
            r.source() == old(self).source(),
            *final(self) == *final(r),
    {
        let n = self.led_buffer.len();
        let hours = self.fit_index_to_buffer(time.hours, 12);
        let minutes = self.fit_index_to_buffer(time.minutes, 60);
        let seconds = self.fit_index_to_buffer(time.seconds, 60);
        self.led_buffer = filled(self.background, n);
        let (hour, minute, second) = (self.hour, self.minute, self.second);
        let _ = self.set_led(hours, hour);
        let _ = self.set_led((hours + 1) % n, hour);
        let _ = self.set_led(minutes, minute);
        let _ = self.set_led(seconds, second);
        assert(self.led_buffer@ =~= clock_face(
            n as int,
            self.led_offset as int,
            self.colours(),
            time.hours as int,
            time.minutes as int,
            time.seconds as int,
        ));
        self
    }

}

impl<C: Clock> LedClock<C> {
    /// Samples the clock and redraws the frame for the time it shows.
    pub fn update(&mut self) -> (r: Result<&mut Self, FlowerError>)
        requires
            old(self).size() > 0,
        ensures
            r matches Ok(a) && a.frame() == clock_face(
                old(self).size() as int,
                old(self).offset() as int,
                old(self).colours(),
                old(self).source().reading().hours as int,
                old(self).source().reading().minutes as int,
                old(self).source().reading().seconds as int,
            ),
            r matches Ok(a) && a.size() == old(self).size() && a.colours() == old(self).colours()
                && a.offset() == old(self).offset() && a.source() == old(self).source()
                && *final(self) == *final(a),
    {
        let time = TimeOfDay {
            hours: self.clock.get_hours(),
            minutes: self.clock.get_minutes(),
            seconds: self.clock.get_seconds(),
        };
        let r = self.draw(time);
        Ok(r)
    }
}

impl<C> LedWritable for LedClock<C> {
    open spec fn lights(&self) -> Seq<LedValue> {
        self.frame()
    }

    fn as_array(&self) -> (r: &[LedValue]) {
        self.led_buffer.as_slice()
    }
}

} // verus!
