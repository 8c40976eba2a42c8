//! The time of day, and where the clock reads it.

use vstd::prelude::*;

verus! {

/// An hour, a minute and a second, as a wall clock shows them.
#[derive(Clone, Copy, Debug, PartialEq, Eq, Structural)]
pub struct TimeOfDay {
    pub hour: u8,
    pub minute: u8,
    pub second: u8,
}

impl TimeOfDay {
    /// The reading is one that a twenty-four hour dial can show.
    pub open spec fn on_the_dial(self) -> bool {
        self.hour <= 23 && self.minute <= 59 && self.second <= 59
    }

    pub fn new(hour: u8, minute: u8, second: u8) -> (time: TimeOfDay)
        ensures
            time == (TimeOfDay { hour, minute, second }),
    {
        TimeOfDay { hour, minute, second }
    }

    /// The local time of day at the moment of the call.
    pub fn now() -> (time: TimeOfDay)
        ensures
            time.on_the_dial(),
    {
        let (hour, minute, second) = local_hms();
        TimeOfDay { hour: hour as u8, minute: minute as u8, second: second as u8 }
    }
}

/// Reads the system clock in the local time zone through `chrono::Local::now`
/// and takes the hour, minute and second of the result with the methods of
/// `chrono::Timelike`.
///
/// Trusted, not proved: the hour is at most 23 and the minute and the second
/// are at most 59. `Timelike` documents these ranges, and says that `second`
/// stays at 59 during a leap second. Which values come back depends on when
/// and where the call is made; nothing else is claimed of them.
///
/// The call takes no argument, and whether it returns depends on the machine
/// alone. It panics where the system clock is set before 1970, and where the
/// time-zone data of the machine gives no offset from UTC for the moment of
/// the call, or one of a day or more.
#[verifier::external_body]
fn local_hms() -> (hms: (u32, u32, u32))
    ensures
        hms.0 <= 23,
        hms.1 <= 59,
        hms.2 <= 59,
{
    let now = chrono::Local::now();
    (chrono::Timelike::hour(&now), chrono::Timelike::minute(&now), chrono::Timelike::second(&now))
}

} // verus!
