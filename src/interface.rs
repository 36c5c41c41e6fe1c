//! The output's back buffer: frames are gathered here and turned into the
//! messages that the light strip takes. Sending them is left to the caller.

use crate::error::FlowerError;
use crate::frame::{filled, LedWritable};
use crate::value::{LedValue, INTENSITY_MARKER};
use vstd::prelude::*;

verus! {

/// The four bytes sent for one light.
pub type LedMessage = [u8; 4];

/// The message that ends a transmission.
pub const NULL_MESSAGE: LedMessage = [0, 0, 0, 0];

/// The bytes of a light's message: intensity with the marker bits set, blue,
/// green, red.
pub open spec fn message_of(light: LedValue) -> Seq<u8> {
    seq![
        (light.components().0 + INTENSITY_MARKER) as u8,
        light.components().3,
        light.components().2,
        light.components().1,
    ]
}

/// The messages of a transmission of `lights`: one per light, in order, then
/// the closing null message.
pub open spec fn transmission(lights: Seq<LedValue>) -> Seq<Seq<u8>> {
    lights.map_values(|light: LedValue| message_of(light)).push(seq![0u8, 0u8, 0u8, 0u8])
}

/// The bytes of each message.
pub open spec fn sent(messages: Seq<LedMessage>) -> Seq<Seq<u8>> {
    messages.map_values(|m: LedMessage| m@)
}

/// A back buffer of at most `size` lights.
pub struct LedInterface {
    size: usize,
    back_buffer: Vec<LedValue>,
}

impl LedInterface {
    /// The most lights one transmission holds.
    pub closed spec fn capacity(&self) -> nat {
        self.size as nat
    }

    /// The lights gathered since the last flush.
    pub closed spec fn buffered(&self) -> Seq<LedValue> {
        self.back_buffer@
    }

    /// An empty back buffer for `size` lights.
    pub fn new(size: usize) -> (r: LedInterface)
        ensures
            r.capacity() == size,
            r.buffered() == Seq::<LedValue>::empty(),
    {
        LedInterface { size, back_buffer: Vec::new() }
    }

    /// Appends the writable's lights; refused, with nothing changed, when
    /// they would not fit beside what is already gathered.
    pub fn write<W: LedWritable>(&mut self, writable: &W) -> (r: Result<&mut Self, FlowerError>)
        ensures
            old(self).buffered().len() + writable.lights().len() <= old(self).capacity() ==> (
            r matches Ok(a) && a.buffered() == old(self).buffered() + writable.lights()
                && a.capacity() == old(self).capacity() && *final(self) == *final(a)),
            old(self).buffered().len() + writable.lights().len() > old(self).capacity() ==> (
            r matches Err(FlowerError::BufferOverflow { buffered, incoming, capacity })
                && buffered == old(self).buffered().len() && incoming == writable.lights().len()
                && capacity == old(self).capacity() && *final(self) == *old(self)),
    {
        let slice = writable.as_array();
        let buffered = self.back_buffer.len();
        if buffered <= self.size && slice.len() <= self.size - buffered {
            self.back_buffer.extend_from_slice(slice);
            assert(self.back_buffer@ =~= old(self).buffered() + writable.lights());
            Ok(self)
        } else {
            Err(
                FlowerError::BufferOverflow {
                    buffered,
                    incoming: slice.len(),
                    capacity: self.size,
                },
            )
        }
    }

    /// Replaces what is gathered by a full frame of dark lights.
    pub fn clear(&mut self) -> (r: &mut Self)
        ensures
            r.buffered() == Seq::new(old(self).capacity(), |i: int| LedValue::off_spec()),
            r.capacity() == old(self).capacity(),
            *final(self) == *final(r),
    {
        self.back_buffer = filled(LedValue::off(), self.size);
        self
    }

    /// Empties the back buffer and returns what is to be sent: one message
    /// per gathered light, in order, then the closing null message.
    pub fn flush(&mut self) -> (r: Vec<LedMessage>)
        ensures
            final(self).buffered() == Seq::<LedValue>::empty(),
            final(self).capacity() == old(self).capacity(),
            sent(r@) == transmission(old(self).buffered()),
    {
        let n = self.back_buffer.len();
        let mut messages: Vec<LedMessage> = Vec::with_capacity(n);
        let mut i: usize = 0;
        while i < n
            invariant
                n == self.back_buffer@.len(),
                i <= n,
                messages@.len() == i,
                forall|k: int|
                    0 <= k < i ==> #[trigger] messages@[k]@ == message_of(self.back_buffer@[k]),
            decreases n - i,
        {
            let m = self.back_buffer[i].as_array();
            messages.push(m);
            i = i + 1;
        }
        let end = NULL_MESSAGE;
        assert(end@ =~= seq![0u8, 0u8, 0u8, 0u8]);
        messages.push(end);
        assert(sent(messages@) =~= transmission(old(self).buffered()));
        self.back_buffer = Vec::new();
        messages
    }
}

} // verus!
