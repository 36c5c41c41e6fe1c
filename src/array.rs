//! A plain buffer of lights over a background colour.

use crate::error::FlowerError;
use crate::frame::{filled, LedWritable};
use crate::value::LedValue;
use vstd::prelude::*;

verus! {

/// A buffer of lights that can be set one by one, and reset to a background.
pub struct LedArray {
    background: LedValue,
    led_buffer: Vec<LedValue>,
}

impl LedArray {
    /// The colour that `reset` fills the buffer with.
    pub closed spec fn background(&self) -> LedValue {
        self.background
    }

    /// The lights, in order.
    pub closed spec fn buffer(&self) -> Seq<LedValue> {
        self.led_buffer@
    }

    /// `size` dark lights over a dark background.
    pub fn new(size: usize) -> (r: LedArray)
        ensures
            r.buffer() == Seq::new(size as nat, |i: int| LedValue::off_spec()),
            r.background() == LedValue::off_spec(),
    {
        let off = LedValue::off();
        LedArray { background: off, led_buffer: filled(off, size) }
    }

    /// Sets the background that the next `reset` uses; the lights stay.
    pub fn set_background(&mut self, background: LedValue) -> (r: &mut Self)
        ensures
            r.background() == background,
            r.buffer() == old(self).buffer(),
            *final(self) == *final(r),
    {
        self.background = background;
        self
    }

    /// Sets every light to the background.
    pub fn reset(&mut self) -> (r: &mut Self)
        ensures
            r.background() == old(self).background(),
            r.buffer() == Seq::new(old(self).buffer().len(), |i: int| old(self).background()),
            *final(self) == *final(r),
    {
        self.led_buffer = filled(self.background, self.led_buffer.len());
        self
    }

    /// Sets light `led_num`; an index outside the buffer is refused and
    /// changes nothing.
    pub fn set_led(&mut self, led_num: usize, value: LedValue) -> (r: Result<&mut Self, FlowerError>)
        ensures
            led_num < old(self).buffer().len() ==> (r matches Ok(a) && a.buffer() == old(
                self,
            ).buffer().update(led_num as int, value) && a.background() == old(self).background()
                && *final(self) == *final(a)),
            led_num >= old(self).buffer().len() ==> (r matches Err(FlowerError::InvalidIndex {
                index,
                size,
            }) && index == led_num && size == old(self).buffer().len() && *final(self) == *old(
                self,
            )),
    {
        if led_num < self.led_buffer.len() {
            self.led_buffer.set(led_num, value);
            Ok(self)
        } else {
            Err(FlowerError::InvalidIndex { index: led_num, size: self.led_buffer.len() })
        }
    }
}

impl LedWritable for LedArray {
    open spec fn lights(&self) -> Seq<LedValue> {
        self.buffer()
    }

    fn as_array(&self) -> (r: &[LedValue]) {
        self.led_buffer.as_slice()
    }
}

} // verus!
