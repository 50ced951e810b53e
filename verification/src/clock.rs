//! The host's wall clock, as far as the controller's time frame needs it.

use vstd::prelude::*;

verus! {

/// A moment of the week in local time.
#[derive(Clone, Copy, Debug, PartialEq, Eq, Structural)]
pub struct WallClock {
    pub hour: u8,
    pub minute: u8,
    pub second: u8,
    /// 1 for Monday up to 7 for Sunday.
    pub day_of_week: u8,
}

impl WallClock {
    /// Every field is within its calendar range.
    pub open spec fn valid(self) -> bool {
        &&& self.hour <= 23
        &&& self.minute <= 59
        &&& self.second <= 59
        &&& 1 <= self.day_of_week <= 7
    }
}

/// Reads the current local time with `chrono::Local::now` and takes its
/// `Timelike::hour`, `Timelike::minute`, `Timelike::second` and
/// `Datelike::weekday().number_from_monday()`.
///
/// Trusted: chrono documents these as 0 to 23, 0 to 59, 0 to 59 and 1 to 7.
/// Nothing else is claimed, as the value changes from call to call.
#[verifier::external_body]
pub(crate) fn local_now() -> (now: WallClock)
    ensures
        now.valid(),
{
    let moment = chrono::offset::Local::now();
    WallClock {
        hour: chrono::Timelike::hour(&moment) as u8,
        minute: chrono::Timelike::minute(&moment) as u8,
        second: chrono::Timelike::second(&moment) as u8,
        day_of_week: chrono::Datelike::weekday(&moment).number_from_monday() as u8,
    }
}

} // verus!
