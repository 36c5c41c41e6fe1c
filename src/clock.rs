//! Sources of the time of day.

use vstd::prelude::*;

verus! {

/// A source of the time of day whose reading is a function of its state.
pub trait Clock {
    /// The time the clock shows.
    spec fn reading(&self) -> TimeOfDay;

    fn get_seconds(&self) -> (r: usize)
        ensures
            r == self.reading().seconds,
    ;

    fn get_minutes(&self) -> (r: usize)
        ensures
            r == self.reading().minutes,
    ;

    fn get_hours(&self) -> (r: usize)
        ensures
            r == self.reading().hours,
    ;
}

/// A time of day: hours, minutes and seconds.
#[derive(Clone, Copy, Debug, PartialEq, Eq, Structural)]
pub struct TimeOfDay {
    pub hours: usize,
    pub minutes: usize,
    pub seconds: usize,
}

impl TimeOfDay {
    /// Hours below 24, minutes and seconds below 60.
    pub open spec fn is_valid(self) -> bool {
        self.hours < 24 && self.minutes < 60 && self.seconds < 60
    }

    /// The time of day, in coordinated universal time, at `epoch_seconds`
    /// seconds after the Unix epoch.
    pub fn from_epoch_seconds(epoch_seconds: u64) -> (r: TimeOfDay)
        ensures
            r.is_valid(),
            r.hours == (epoch_seconds / 3600) % 24,
            r.minutes == (epoch_seconds / 60) % 60,
            r.seconds == epoch_seconds % 60,
    {
        TimeOfDay {
            hours: ((epoch_seconds / 3600) % 24) as usize,
            minutes: ((epoch_seconds / 60) % 60) as usize,
            seconds: (epoch_seconds % 60) as usize,
        }
    }
}

/// A clock that stands still until it is moved on by hand.
pub struct FakeClock {
    pub seconds: usize,
    pub minutes: usize,
    pub hours: usize,
}

/// The hour after `hours`, on a day of 24.
pub open spec fn next_hour(hours: usize) -> usize {
    if hours >= 23 {
        0
    } else {
        (hours + 1) as usize
    }
}

/// The minute after `minutes`, on an hour of 60.
pub open spec fn next_minute(minutes: usize) -> usize {
    if minutes >= 59 {
        0
    } else {
        (minutes + 1) as usize
    }
}

impl FakeClock {
    /// A clock at midnight.
    pub fn new() -> (r: FakeClock)
        ensures
            r.seconds == 0 && r.minutes == 0 && r.hours == 0,
    {
        FakeClock { seconds: 0, minutes: 0, hours: 0 }
    }

    /// Moves on by one second, carrying into the minute at sixty.
    pub fn advance_one_second(&mut self)
        ensures
            final(self).seconds == next_minute(old(self).seconds),
            old(self).seconds >= 59 ==> final(self).minutes == next_minute(old(self).minutes),
            old(self).seconds >= 59 && old(self).minutes >= 59 ==> final(self).hours == next_hour(
                old(self).hours,
            ),
            old(self).seconds < 59 ==> final(self).minutes == old(self).minutes,
            old(self).seconds < 59 || old(self).minutes < 59 ==> final(self).hours == old(
                self,
            ).hours,
    {
        if self.seconds >= 59 {
            self.seconds = 0;
            self.advance_one_minute();
        } else {
            self.seconds = self.seconds + 1;
        }
    }

    /// Moves on by one minute, carrying into the hour at sixty.
    pub fn advance_one_minute(&mut self)
        ensures
            final(self).seconds == old(self).seconds,
            final(self).minutes == next_minute(old(self).minutes),
            old(self).minutes >= 59 ==> final(self).hours == next_hour(old(self).hours),
            old(self).minutes < 59 ==> final(self).hours == old(self).hours,
    {
        if self.minutes >= 59 {
            self.minutes = 0;
            self.advance_one_hour();
        } else {
            self.minutes = self.minutes + 1;
        }
    }

    /// Moves on by one hour, wrapping to midnight after 23.
    pub fn advance_one_hour(&mut self)
        ensures
            final(self).seconds == old(self).seconds,
            final(self).minutes == old(self).minutes,
            final(self).hours == next_hour(old(self).hours),
    {
        if self.hours >= 23 {
            self.hours = 0;
        } else {
            self.hours = self.hours + 1;
        }
    }
}

impl Default for FakeClock {
    fn default() -> (r: FakeClock)
        ensures
            r.seconds == 0 && r.minutes == 0 && r.hours == 0,
    {
        FakeClock::new()
    }
}

impl Clock for FakeClock {
    open spec fn reading(&self) -> TimeOfDay {
        TimeOfDay { hours: self.hours, minutes: self.minutes, seconds: self.seconds }
    }

    fn get_seconds(&self) -> (r: usize) {
        self.seconds
    }

    fn get_minutes(&self) -> (r: usize) {
        self.minutes
    }

    fn get_hours(&self) -> (r: usize) {
        self.hours
    }
}

} // verus!
