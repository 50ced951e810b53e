//! Read-only tables: day-of-week bitmasks and built-in effect codes.

use vstd::prelude::*;

verus! {

/// Day-of-week bitmasks for schedules, with the usual composites.
#[derive(Clone, Copy, Debug, PartialEq, Eq, Structural)]
pub struct Days {
    pub monday: u8,
    pub tuesday: u8,
    pub wednesday: u8,
    pub thursday: u8,
    pub friday: u8,
    pub saturday: u8,
    pub sunday: u8,
    pub all: u8,
    pub week_days: u8,
    pub weekend_days: u8,
    pub none: u8,
}

impl Days {
    /// The masks the controller uses: one bit per day, Monday lowest.
    pub open spec fn standard() -> Days {
        Days {
            monday: 0x01,
            tuesday: 0x02,
            wednesday: 0x04,
            thursday: 0x08,
            friday: 0x10,
            saturday: 0x20,
            sunday: 0x40,
            all: 0x7f,
            week_days: 0x1f,
            weekend_days: 0x60,
            none: 0x00,
        }
    }
}

/// The day-of-week table. The composites are summed up from the single
/// days.
pub fn week_days() -> (d: Days)
    ensures
        d == Days::standard(),
{
    let monday: u8 = 0x01;
    let tuesday: u8 = 0x02;
    let wednesday: u8 = 0x04;
    let thursday: u8 = 0x08;
    let friday: u8 = 0x10;
    let saturday: u8 = 0x20;
    let sunday: u8 = 0x40;
    let week_days: u8 = monday + tuesday + wednesday + thursday + friday;
    let weekend_days: u8 = saturday + sunday;
    Days {
        monday,
        tuesday,
        wednesday,
        thursday,
        friday,
        saturday,
        sunday,
        all: week_days + weekend_days,
        week_days,
        weekend_days,
        none: 0x00,
    }
}

/// Codes of the controller's built-in lighting effects.
#[derive(Clone, Copy, Debug, PartialEq, Eq, Structural)]
pub struct Effects {
    pub jump_red_green_blue: u8,
    pub jump_red_green_blue_yellow_cyan_magenta_white: u8,
    pub crossfade_red: u8,
    pub crossfade_green: u8,
    pub crossfade_blue: u8,
    pub crossfade_yellow: u8,
    pub crossfade_cyan: u8,
    pub crossfade_magenta: u8,
    pub crossfade_white: u8,
    pub crossfade_red_green: u8,
    pub crossfade_red_blue: u8,
    pub crossfade_green_blue: u8,
    pub crossfade_red_green_blue: u8,
    pub crossfade_red_green_blue_yellow_cyan_magenta_white: u8,
    pub blink_red: u8,
    pub blink_green: u8,
    pub blink_blue: u8,
    pub blink_yellow: u8,
    pub blink_cyan: u8,
    pub blink_magenta: u8,
    pub blink_white: u8,
    pub blink_red_green_blue_yellow_cyan_magenta_white: u8,
}

impl Effects {
    /// The codes the controller's firmware assigns to its effects.
    pub open spec fn standard() -> Effects {
        Effects {
            jump_red_green_blue: 0x87,
            jump_red_green_blue_yellow_cyan_magenta_white: 0x88,
            crossfade_red: 0x8b,
            crossfade_green: 0x8c,
            crossfade_blue: 0x8d,
            crossfade_yellow: 0x8e,
            crossfade_cyan: 0x8f,
            crossfade_magenta: 0x90,
            crossfade_white: 0x91,
            crossfade_red_green: 0x92,
            crossfade_red_blue: 0x93,
            crossfade_green_blue: 0x94,
            crossfade_red_green_blue: 0x89,
            crossfade_red_green_blue_yellow_cyan_magenta_white: 0x8a,
            blink_red: 0x96,
            blink_green: 0x97,
            blink_blue: 0x98,
            blink_yellow: 0x99,
            blink_cyan: 0x9a,
            blink_magenta: 0x9b,
            blink_white: 0x9c,
            blink_red_green_blue_yellow_cyan_magenta_white: 0x95,
        }
    }
}

/// The effect table.
pub fn effects() -> (e: Effects)
    ensures
        e == Effects::standard(),
{
    Effects {
        jump_red_green_blue: 0x87,
        jump_red_green_blue_yellow_cyan_magenta_white: 0x88,
        crossfade_red: 0x8b,
        crossfade_green: 0x8c,
        crossfade_blue: 0x8d,
        crossfade_yellow: 0x8e,
        crossfade_cyan: 0x8f,
        crossfade_magenta: 0x90,
        crossfade_white: 0x91,
        crossfade_red_green: 0x92,
        crossfade_red_blue: 0x93,
        crossfade_green_blue: 0x94,
        crossfade_red_green_blue: 0x89,
        crossfade_red_green_blue_yellow_cyan_magenta_white: 0x8a,
        blink_red: 0x96,
        blink_green: 0x97,
        blink_blue: 0x98,
        blink_yellow: 0x99,
        blink_cyan: 0x9a,
        blink_magenta: 0x9b,
        blink_white: 0x9c,
        blink_red_green_blue_yellow_cyan_magenta_white: 0x95,
    }
}

/// The composite masks are exactly the sums of the single days they stand
/// for, and all seven days together fill the seven low bits.
pub proof fn lemma_day_composites()
    ensures
        Days::standard().week_days == Days::standard().monday + Days::standard().tuesday + Days::standard().wednesday
            + Days::standard().thursday + Days::standard().friday,
        Days::standard().weekend_days == Days::standard().saturday + Days::standard().sunday,
        Days::standard().all == Days::standard().week_days + Days::standard().weekend_days,
        Days::standard().all == 0x7f,
        Days::standard().none == 0,
{
}

} // verus!
