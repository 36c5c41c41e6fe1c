//! The decisions of the render loop. The loop itself waits on its event
//! sources, hands each event to `Scheduler::handle` and carries out the
//! command it gets back: one event is handled fully before the next.
//!
//! While the display is asleep nothing is drawn or sent; it is cleared once,
//! with a frame of dark lights, as it goes to sleep.

use crate::activation::{Activation, ActivationAction, ActivationModel, ActivationState};
use crate::clock::TimeOfDay;
use crate::face::{clock_face, FaceColours, LedClock};
use crate::interface::{sent, transmission, LedInterface, LedMessage};
use crate::pollen::PollenCount;
use crate::value::{background_for, LedValue};
use vstd::prelude::*;

verus! {

/// What the loop observed.
#[derive(Clone, Copy, Debug, PartialEq, Eq, Structural)]
pub enum Event {
    /// A request to shut down.
    Terminate,
    /// The render period elapsed; the time of day was read as it did.
    RenderTick(TimeOfDay),
    /// The refresh period of the pollen forecast elapsed.
    RefreshTick,
    /// A forecast refresh finished; `None` when it failed.
    RefreshResult(Option<PollenCount>),
    /// The motion sensor reported presence (`true`) or its absence.
    Motion(bool),
    /// The grace period started with this token ran out.
    TimeoutExpired(u64),
}

/// What the loop is to do next.
#[derive(Debug)]
pub enum Command {
    /// Leave the loop: the run completed normally.
    Exit,
    /// Send these messages to the light strip, in order.
    Transmit(Vec<LedMessage>),
    /// Start a forecast refresh in the background, without waiting for it.
    StartRefresh,
    /// Start a grace period and report its expiry with this token, dropping
    /// any period started before.
    ArmTimeout(u64),
    /// Nothing to do.
    Nothing,
}

/// The display state and activation state of one run of the loop. The face
/// has no clock of its own: it draws the time each render event carries.
pub struct Scheduler {
    activation: Activation,
    led_clock: LedClock<()>,
    interface: LedInterface,
}

impl Scheduler {
    /// The face and the output agree on the number of lights, and nothing is
    /// left in the output between events.
    pub closed spec fn wf(&self) -> bool {
        &&& self.led_clock.size() > 0
        &&& self.interface.capacity() == self.led_clock.size()
        &&& self.interface.buffered().len() == 0
        &&& self.activation@.wf()
    }

    /// The activation state machine.
    pub closed spec fn activation(&self) -> ActivationModel {
        self.activation@
    }

    /// The background and hand colours of the face.
    pub closed spec fn colours(&self) -> FaceColours {
        self.led_clock.colours()
    }

    /// The number of lights.
    pub closed spec fn size(&self) -> nat {
        self.led_clock.size()
    }

    /// How far round the ring the zero position sits.
    pub closed spec fn offset(&self) -> nat {
        self.led_clock.offset()
    }
}

impl Scheduler {
    /// A fresh run: asleep, over the unknown-category background, with
    /// purple, blue and aqua hands.
    pub fn new(num_leds: usize, led_offset: usize) -> (r: Scheduler)
        requires
            num_leds > 0,
        ensures
            r.wf(),
            r.activation().state == ActivationState::Idle,
            r.activation().pending is None,
            r.size() == num_leds,
            r.offset() == led_offset,
            r.colours().background == background_for(None),
            r.colours().hour.is(1, 255, 0, 255),
            r.colours().minute.is(1, 0, 0, 255),
            r.colours().second.is(1, 0, 255, 255),
    {
        proof {
            crate::value::lemma_background_of_unknown();
        }
        Scheduler {
            activation: Activation::new(),
            led_clock: LedClock::new(num_leds, led_offset, ()),
            interface: LedInterface::new(num_leds),
        }
    }

    /// Handles one event and says what the loop is to do.
    pub fn handle(&mut self, event: Event) -> (r: Command)
        requires
            old(self).wf(),
        ensures
            final(self).wf(),
            final(self).size() == old(self).size(),
            final(self).offset() == old(self).offset(),
            match event {
                Event::Terminate => {
                    &&& r is Exit
                    &&& final(self).activation() == old(self).activation()
                    &&& final(self).colours() == old(self).colours()
                },
                Event::RenderTick(time) => {
                    &&& final(self).activation() == old(self).activation()
                    &&& final(self).colours() == old(self).colours()
                    &&& old(self).activation().state == ActivationState::Active ==> (
                    r matches Command::Transmit(m) && sent(m@) == transmission(
                        clock_face(
                            old(self).size() as int,
                            old(self).offset() as int,
                            old(self).colours(),
                            time.hours as int,
                            time.minutes as int,
                            time.seconds as int,
                        ),
                    ))
                    &&& old(self).activation().state == ActivationState::Idle ==> r is Nothing
                },
                Event::RefreshTick => {
                    &&& r is StartRefresh
                    &&& final(self).activation() == old(self).activation()
                    &&& final(self).colours() == old(self).colours()
                },
                Event::RefreshResult(count) => {
                    &&& r is Nothing
                    &&& final(self).activation() == old(self).activation()
                    &&& final(self).colours() == (FaceColours {
                        background: background_for(count),
                        ..old(self).colours()
                    })
                },
                Event::Motion(detected) => {
                    &&& final(self).activation() == old(self).activation().on_motion(detected).0
                    &&& final(self).colours() == old(self).colours()
                    &&& match old(self).activation().on_motion(detected).1 {
                        ActivationAction::ArmTimeout(t) => r matches Command::ArmTimeout(u) && u == t,
                        _ => r is Nothing,
                    }
                },
                Event::TimeoutExpired(token) => {
                    &&& final(self).activation() == old(self).activation().on_timeout(token).0
                    &&& final(self).colours() == old(self).colours()
                    &&& old(self).activation().on_timeout(token).1 == ActivationAction::ForceClear
                        ==> (r matches Command::Transmit(m) && sent(m@) == transmission(
                        Seq::new(old(self).size(), |i: int| LedValue::off_spec()),
                    ))
                    &&& old(self).activation().on_timeout(token).1 != ActivationAction::ForceClear
                        ==> r is Nothing
                },
            },
    {
        match event {
            Event::Terminate => Command::Exit,
            Event::RenderTick(time) => {
                if self.activation.is_active() {
                    self.led_clock.draw(time);
                    let _ = self.interface.write(&self.led_clock);
                    Command::Transmit(self.interface.flush())
                } else {
                    Command::Nothing
                }
            },
            Event::RefreshTick => Command::StartRefresh,
            Event::RefreshResult(count) => {
                self.led_clock.set_background(LedValue::for_pollen(count));
                Command::Nothing
            },
            Event::Motion(detected) => match self.activation.on_motion(detected) {
                ActivationAction::ArmTimeout(t) => Command::ArmTimeout(t),
                _ => Command::Nothing,
            },
            Event::TimeoutExpired(token) => match self.activation.on_timeout(token) {
                ActivationAction::ForceClear => {
                    self.interface.clear();
                    Command::Transmit(self.interface.flush())
                },
                _ => Command::Nothing,
            },
        }
    }
}

} // verus!
