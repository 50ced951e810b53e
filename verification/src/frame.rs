//! The nine-byte command frame and the wire layout of every operation.

use vstd::prelude::*;
use crate::error::BledomError;
use crate::error::InvalidValue;

verus! {

/// First byte of every frame.
pub const FRAME_START: u8 = 0x7e;

/// Last byte of every frame.
pub const FRAME_END: u8 = 0xef;

/// Whether a byte string has the shape of a frame: nine bytes, the first
/// 0x7E and the last 0xEF.
pub open spec fn is_frame(bytes: Seq<u8>) -> bool {
    &&& bytes.len() == 9
    &&& bytes[0] == FRAME_START
    &&& bytes[8] == FRAME_END
}

/// The frame with the given operation code and five argument bytes.
pub open spec fn layout(opcode: u8, a0: u8, a1: u8, a2: u8, a3: u8, a4: u8) -> Seq<u8> {
    seq![FRAME_START, 0x00u8, opcode, a0, a1, a2, a3, a4, FRAME_END]
}

/// A logical operation of the controller, with its arguments.
#[derive(Clone, Copy, Debug, PartialEq, Eq, Structural)]
pub enum Command {
    PowerOn,
    PowerOff,
    Brightness { level: u8 },
    EffectSpeed { speed: u8 },
    Effect { code: u8 },
    Color { red: u8, green: u8, blue: u8 },
    /// `day_of_week` counts from 1 (Monday) to 7 (Sunday).
    CustomTime { hour: u8, minute: u8, second: u8, day_of_week: u8 },
    /// Switch the light on at the given time on the given days.
    ScheduleOn { days: u8, hours: u8, minutes: u8, enabled: bool },
    /// Switch the light off at the given time on the given days.
    ScheduleOff { days: u8, hours: u8, minutes: u8, enabled: bool },
    Generic { id: u8, sub_id: u8, arg1: u8, arg2: u8, arg3: u8 },
}

/// The first field of a wall-clock time that is out of range, if any:
/// hour, then minute, then second, then day of week.
pub open spec fn time_violation(hour: u8, minute: u8, second: u8, day_of_week: u8) -> Option<
    InvalidValue,
> {
    if hour > 23 {
        Some(InvalidValue::Hour(hour))
    } else if minute > 59 {
        Some(InvalidValue::Minute(minute))
    } else if second > 59 {
        Some(InvalidValue::Second(second))
    } else if day_of_week < 1 || day_of_week > 7 {
        Some(InvalidValue::DayOfWeek(day_of_week))
    } else {
        None
    }
}

/// The first field of a schedule that is out of range, if any: days
/// bitmask, then hour, then minute.
pub open spec fn schedule_violation(days: u8, hours: u8, minutes: u8) -> Option<InvalidValue> {
    if days > 0x7f {
        Some(InvalidValue::Days(days))
    } else if hours > 23 {
        Some(InvalidValue::Hour(hours))
    } else if minutes > 59 {
        Some(InvalidValue::Minute(minutes))
    } else {
        None
    }
}

/// The field value for which the codec refuses `cmd`, if it refuses it.
pub open spec fn violation(cmd: Command) -> Option<InvalidValue> {
    match cmd {
        Command::Brightness { level } => if level > 100 {
            Some(InvalidValue::Brightness(level))
        } else {
            None
        },
        Command::EffectSpeed { speed } => if speed > 100 {
            Some(InvalidValue::EffectSpeed(speed))
        } else {
            None
        },
        Command::CustomTime { hour, minute, second, day_of_week } => time_violation(
            hour,
            minute,
            second,
            day_of_week,
        ),
        Command::ScheduleOn { days, hours, minutes, enabled } => schedule_violation(
            days,
            hours,
            minutes,
        ),
        Command::ScheduleOff { days, hours, minutes, enabled } => schedule_violation(
            days,
            hours,
            minutes,
        ),
        _ => None,
    }
}

/// The days byte of a schedule frame: the bitmask, plus 0x80 when the
/// schedule is enabled.
pub open spec fn schedule_days_byte(days: u8, enabled: bool) -> u8
    recommends
        days <= 0x7f,
{
    if enabled {
        (days + 0x80) as u8
    } else {
        days
    }
}

/// The bytes that stand for `cmd` on the wire.
pub open spec fn wire(cmd: Command) -> Seq<u8> {
    match cmd {
        Command::PowerOn => layout(0x04, 0xf0, 0x00, 0x01, 0xff, 0x00),
        Command::PowerOff => layout(0x04, 0x00, 0x00, 0x00, 0xff, 0x00),
        Command::Brightness { level } => layout(0x01, level, 0x00, 0x00, 0x00, 0x00),
        Command::EffectSpeed { speed } => layout(0x02, speed, 0x00, 0x00, 0x00, 0x00),
        Command::Effect { code } => layout(0x03, code, 0x03, 0x00, 0x00, 0x00),
        Command::Color { red, green, blue } => layout(0x05, 0x03, red, green, blue, 0x00),
        Command::CustomTime { hour, minute, second, day_of_week } => layout(
            0x83,
            hour,
            minute,
            second,
            day_of_week,
            0x00,
        ),
        Command::ScheduleOn { days, hours, minutes, enabled } => layout(
            0x82,
            hours,
            minutes,
            0x00,
            0x00,
            schedule_days_byte(days, enabled),
        ),
        Command::ScheduleOff { days, hours, minutes, enabled } => layout(
            0x82,
            hours,
            minutes,
            0x00,
            0x01,
            schedule_days_byte(days, enabled),
        ),
        Command::Generic { id, sub_id, arg1, arg2, arg3 } => layout(
            id,
            sub_id,
            arg1,
            arg2,
            arg3,
            0x00,
        ),
    }
}

/// What encoding `cmd` gives: its bytes on the wire, or the refusal.
pub open spec fn encoding(cmd: Command) -> Result<Seq<u8>, InvalidValue> {
    match violation(cmd) {
        Some(v) => Err(v),
        None => Ok(wire(cmd)),
    }
}

/// Every operation's bytes have the shape of a frame, whatever its
/// arguments.
pub proof fn lemma_wire_is_frame(cmd: Command)
    ensures
        is_frame(wire(cmd)),
{
}

/// A command is refused exactly when one of its fields is outside the range
/// the controller accepts.
pub open spec fn in_range(cmd: Command) -> bool {
    match cmd {
        Command::Brightness { level } => level <= 100,
        Command::EffectSpeed { speed } => speed <= 100,
        Command::CustomTime { hour, minute, second, day_of_week } => hour <= 23 && minute <= 59
            && second <= 59 && 1 <= day_of_week <= 7,
        Command::ScheduleOn { days, hours, minutes, enabled } => days <= 0x7f && hours <= 23
            && minutes <= 59,
        Command::ScheduleOff { days, hours, minutes, enabled } => days <= 0x7f && hours <= 23
            && minutes <= 59,
        _ => true,
    }
}

/// Encoding succeeds exactly on the commands whose fields are all in range.
pub proof fn lemma_encoding_succeeds_in_range(cmd: Command)
    ensures
        encoding(cmd) is Ok <==> in_range(cmd),
{
}

/// A command frame, ready to be written to the controller.
///
/// A value of this type always has the shape of a frame.
#[derive(Clone, Copy, Debug, PartialEq, Eq)]
pub struct CommandFrame {
    bytes: [u8; 9],
}

impl View for CommandFrame {
    type V = Seq<u8>;

    closed spec fn view(&self) -> Seq<u8> {
        self.bytes@
    }
}

impl CommandFrame {
    #[verifier::type_invariant]
    spec fn shaped(self) -> bool {
        is_frame(self.bytes@)
    }

    /// Checks the shape of `data` and makes a frame of it.
    pub fn from_bytes(data: &[u8]) -> (r: Result<CommandFrame, BledomError>)
        ensures
            is_frame(data@) ==> r is Ok && r->Ok_0@ == data@,
            !is_frame(data@) ==> r == Err::<CommandFrame, BledomError>(
                BledomError::InvalidParameter(InvalidValue::MalformedFrame),
            ),
    {
        if data.len() != 9 || data[0] != FRAME_START || data[8] != FRAME_END {
            return Err(BledomError::InvalidParameter(InvalidValue::MalformedFrame));
        }
        let bytes: [u8; 9] = [
            data[0], data[1], data[2], data[3], data[4], data[5], data[6], data[7], data[8],
        ];
        assert(bytes@ =~= data@);
        Ok(CommandFrame { bytes })
    }

    /// The nine bytes, as they go over the wire.
    pub fn bytes(&self) -> (b: [u8; 9])
        ensures
            b@ == self@,
            is_frame(self@),
    {
        proof {
            use_type_invariant(self);
        }
        self.bytes
    }
}

} // verus!
