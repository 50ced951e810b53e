//! The device handle and its typed command operations.

use vstd::prelude::*;
use crate::acquisition::Acquisition;
use crate::acquisition::Action;
use crate::acquisition::Phase;
use crate::acquisition::RetryPolicy;
use crate::acquisition::DEFAULT_CONNECTION_INTERVAL_MS;
use crate::acquisition::DEFAULT_CONNECTION_RETRIES;
use crate::acquisition::DEFAULT_SCAN_INTERVAL_MS;
use crate::acquisition::DEFAULT_SCAN_RETRIES;
use crate::clock::local_now;
use crate::clock::WallClock;
use crate::error::BledomError;
use crate::error::InvalidValue;
use crate::frame::encoding;
use crate::frame::is_frame;
use crate::frame::layout;
use crate::frame::wire;
use crate::frame::Command;
use crate::frame::CommandFrame;
use crate::tables::week_days;

verus! {

/// Milliseconds to wait after each frame is written before the next may
/// follow: the controller drops frames that arrive back to back.
pub const CMD_DELAY_MS: u64 = 100;

/// One write to the controller: what to write, where, and how long to wait
/// afterwards. The write is without response; the controller acknowledges
/// nothing.
#[derive(Clone, Copy, Debug, PartialEq, Eq)]
pub struct Transmission {
    /// Position of the peripheral to write to.
    pub peripheral: usize,
    /// Position of the characteristic to write to.
    pub characteristic: usize,
    /// The bytes to write.
    pub frame: CommandFrame,
    /// Milliseconds to wait once the write is done.
    pub settle_ms: u64,
}

/// A handle on an acquired controller: the peripheral it was found as, and
/// the characteristic that takes its commands.
///
/// Both are positions in the listings the transport gave during
/// acquisition: the peripheral in the listing in which it was found, the
/// characteristic among the peripheral's characteristics.
#[derive(Clone, Copy, Debug, PartialEq, Eq, Structural)]
pub struct BledomDevice {
    /// Position of the peripheral in the listing in which it was found.
    pub peripheral: usize,
    /// Position of the command characteristic among the peripheral's
    /// characteristics.
    pub characteristic: usize,
}

/// Collects the retry settings of an acquisition; what is not set keeps
/// its default.
#[derive(Clone, Copy, Debug)]
pub struct BledomDeviceBuilder {
    scan_retries: Option<u8>,
    scan_interval_ms: Option<u64>,
    connection_retries: Option<u8>,
    connection_interval_ms: Option<u64>,
}

impl BledomDeviceBuilder {
    /// The policy that an acquisition built now would run under: each
    /// setting as it was set, or its default.
    pub closed spec fn policy(&self) -> RetryPolicy {
        RetryPolicy {
            scan_retries: match self.scan_retries {
                Some(retries) => retries,
                None => RetryPolicy::standard().scan_retries,
            },
            scan_interval_ms: match self.scan_interval_ms {
                Some(interval) => interval,
                None => RetryPolicy::standard().scan_interval_ms,
            },
            connection_retries: match self.connection_retries {
                Some(retries) => retries,
                None => RetryPolicy::standard().connection_retries,
            },
            connection_interval_ms: match self.connection_interval_ms {
                Some(interval) => interval,
                None => RetryPolicy::standard().connection_interval_ms,
            },
        }
    }

    /// A builder with every setting at its default.
    pub fn new() -> (b: Self)
        ensures
            b.policy() == RetryPolicy::standard(),
    {
        BledomDeviceBuilder {
            scan_retries: None,
            scan_interval_ms: None,
            connection_retries: None,
            connection_interval_ms: None,
        }
    }

    /// Sets the number of scan polls before the search is given up.
    pub fn scan_retries(self, retries: u8) -> (b: Self)
        ensures
            b.policy() == (RetryPolicy { scan_retries: retries, ..self.policy() }),
    {
        let mut b = self;
        b.scan_retries = Some(retries);
        b
    }

    /// Sets the pause between scan polls, in milliseconds.
    pub fn scan_interval_ms(self, interval: u64) -> (b: Self)
        ensures
            b.policy() == (RetryPolicy { scan_interval_ms: interval, ..self.policy() }),
    {
        let mut b = self;
        b.scan_interval_ms = Some(interval);
        b
    }

    /// Sets the number of connection attempts before the connection is
    /// given up.
    pub fn connection_retries(self, retries: u8) -> (b: Self)
        ensures
            b.policy() == (RetryPolicy { connection_retries: retries, ..self.policy() }),
    {
        let mut b = self;
        b.connection_retries = Some(retries);
        b
    }

    /// Sets the pause between connection attempts, in milliseconds.
    pub fn connection_interval_ms(self, interval: u64) -> (b: Self)
        ensures
            b.policy() == (RetryPolicy { connection_interval_ms: interval, ..self.policy() }),
    {
        let mut b = self;
        b.connection_interval_ms = Some(interval);
        b
    }

    /// Starts the acquisition under the settings collected: the machine,
    /// and its first action.
    pub fn build(self) -> (r: (Acquisition, Action))
        ensures
            r.0.wf(),
            r.0.policy == self.policy(),
            r.0.phase == Phase::OpeningManager,
            r.1 == Action::OpenManager,
    {
        let policy = RetryPolicy {
            scan_retries: match self.scan_retries {
                Some(retries) => retries,
                None => DEFAULT_SCAN_RETRIES,
            },
            scan_interval_ms: match self.scan_interval_ms {
                Some(interval) => interval,
                None => DEFAULT_SCAN_INTERVAL_MS,
            },
            connection_retries: match self.connection_retries {
                Some(retries) => retries,
                None => DEFAULT_CONNECTION_RETRIES,
            },
            connection_interval_ms: match self.connection_interval_ms {
                Some(interval) => interval,
                None => DEFAULT_CONNECTION_INTERVAL_MS,
            },
        };
        Acquisition::begin(policy)
    }
}

impl Default for BledomDeviceBuilder {
    fn default() -> (b: Self)
        ensures
            b.policy() == RetryPolicy::standard(),
    {
        BledomDeviceBuilder::new()
    }
}

impl BledomDevice {
    /// A builder with every setting at its default.
    pub fn builder() -> (b: BledomDeviceBuilder)
        ensures
            b.policy() == RetryPolicy::standard(),
    {
        BledomDeviceBuilder::new()
    }

    /// Whether `r` is what this handle gives for `cmd`: the write of the
    /// command's bytes to the bound characteristic, followed by the settle
    /// delay; or the refusal, if a field of the command is out of range.
    pub open spec fn transmits(&self, cmd: Command, r: Result<Transmission, BledomError>) -> bool {
        match encoding(cmd) {
            Ok(bytes) => {
                &&& r is Ok
                &&& r->Ok_0.frame@ == bytes
                &&& r->Ok_0.peripheral == self.peripheral
                &&& r->Ok_0.characteristic == self.characteristic
                &&& r->Ok_0.settle_ms == CMD_DELAY_MS
            },
            Err(v) => r == Err::<Transmission, BledomError>(BledomError::InvalidParameter(v)),
        }
    }

    /// Addresses `data` to the bound characteristic, provided it has the
    /// shape of a frame.
    pub fn send_command_bytes(&self, data: &[u8]) -> (r: Result<Transmission, BledomError>)
        ensures
            is_frame(data@) ==> {
                &&& r is Ok
                &&& r->Ok_0.frame@ == data@
                &&& r->Ok_0.peripheral == self.peripheral
                &&& r->Ok_0.characteristic == self.characteristic
                &&& r->Ok_0.settle_ms == CMD_DELAY_MS
            },
            !is_frame(data@) ==> r == Err::<Transmission, BledomError>(
                BledomError::InvalidParameter(InvalidValue::MalformedFrame),
            ),
    {
        match CommandFrame::from_bytes(data) {
            Ok(frame) => Ok(
                Transmission {
                    peripheral: self.peripheral,
                    characteristic: self.characteristic,
                    frame,
                    settle_ms: CMD_DELAY_MS,
                },
            ),
            Err(e) => Err(e),
        }
    }

    /// The write that switches the light on.
    pub fn power_on(&self) -> (r: Result<Transmission, BledomError>)
        ensures
            self.transmits(Command::PowerOn, r),
    {
        let data: [u8; 9] = [0x7e, 0x00, 0x04, 0xf0, 0x00, 0x01, 0xff, 0x00, 0xef];
        assert(data@ =~= layout(0x04, 0xf0, 0x00, 0x01, 0xff, 0x00));
        self.send_command_bytes(data.as_slice())
    }

    /// The write that switches the light off.
    pub fn power_off(&self) -> (r: Result<Transmission, BledomError>)
        ensures
            self.transmits(Command::PowerOff, r),
    {
        let data: [u8; 9] = [0x7e, 0x00, 0x04, 0x00, 0x00, 0x00, 0xff, 0x00, 0xef];
        assert(data@ =~= layout(0x04, 0x00, 0x00, 0x00, 0xff, 0x00));
        self.send_command_bytes(data.as_slice())
    }

    /// The write that sets the brightness, in percent.
    pub fn set_brightness(&self, value: u8) -> (r: Result<Transmission, BledomError>)
        ensures
            self.transmits(Command::Brightness { level: value }, r),
    {
        if value > 0x64 {
            return Err(BledomError::InvalidParameter(InvalidValue::Brightness(value)));
        }
        let data: [u8; 9] = [0x7e, 0x00, 0x01, value, 0x00, 0x00, 0x00, 0x00, 0xef];
        assert(data@ =~= layout(0x01, value, 0x00, 0x00, 0x00, 0x00));
        self.send_command_bytes(data.as_slice())
    }

    /// The write that sets the controller's clock to the host's local time.
    ///
    /// The time is read when the function is called, so two calls need not
    /// agree; whatever was read, the result is the frame of a valid time.
    pub fn sync_time(&self) -> (r: Result<Transmission, BledomError>)
        ensures
            r is Ok,
            exists|now: WallClock| #[trigger]
                now.valid() && self.transmits(
                    Command::CustomTime {
                        hour: now.hour,
                        minute: now.minute,
                        second: now.second,
                        day_of_week: now.day_of_week,
                    },
                    r,
                ),
    {
        let now = local_now();
        self.set_custom_time(now.hour, now.minute, now.second, now.day_of_week)
    }

    /// The write that sets the controller's clock to the given time;
    /// `day_of_week` is 1 for Monday up to 7 for Sunday.
    pub fn set_custom_time(&self, hour: u8, minute: u8, second: u8, day_of_week: u8) -> (r: Result<
        Transmission,
        BledomError,
    >)
        ensures
            self.transmits(Command::CustomTime { hour, minute, second, day_of_week }, r),
    {
        if hour > 23 {
            return Err(BledomError::InvalidParameter(InvalidValue::Hour(hour)));
        }
        if minute > 59 {
            return Err(BledomError::InvalidParameter(InvalidValue::Minute(minute)));
        }
        if second > 59 {
            return Err(BledomError::InvalidParameter(InvalidValue::Second(second)));
        }
        if day_of_week < 1 || day_of_week > 7 {
            return Err(BledomError::InvalidParameter(InvalidValue::DayOfWeek(day_of_week)));
        }
        let data: [u8; 9] = [0x7e, 0x00, 0x83, hour, minute, second, day_of_week, 0x00, 0xef];
        assert(data@ =~= layout(0x83, hour, minute, second, day_of_week, 0x00));
        self.send_command_bytes(data.as_slice())
    }

    /// The write that sets a static colour. Every byte value is accepted.
    pub fn set_color(&self, red_value: u8, green_value: u8, blue_value: u8) -> (r: Result<
        Transmission,
        BledomError,
    >)
        ensures
            self.transmits(Command::Color { red: red_value, green: green_value, blue: blue_value }, r),
    {
        let data: [u8; 9] = [
            0x7e,
            0x00,
            0x05,
            0x03,
            red_value,
            green_value,
            blue_value,
            0x00,
            0xef,
        ];
        assert(data@ =~= layout(0x05, 0x03, red_value, green_value, blue_value, 0x00));
        self.send_command_bytes(data.as_slice())
    }

    /// The write that selects a built-in effect by its code.
    pub fn set_effect(&self, value: u8) -> (r: Result<Transmission, BledomError>)
        ensures
            self.transmits(Command::Effect { code: value }, r),
    {
        let data: [u8; 9] = [0x7e, 0x00, 0x03, value, 0x03, 0x00, 0x00, 0x00, 0xef];
        assert(data@ =~= layout(0x03, value, 0x03, 0x00, 0x00, 0x00));
        self.send_command_bytes(data.as_slice())
    }

    /// The write that sets the speed of the running effect, in percent.
    pub fn set_effect_speed(&self, value: u8) -> (r: Result<Transmission, BledomError>)
        ensures
            self.transmits(Command::EffectSpeed { speed: value }, r),
    {
        if value > 0x64 {
            return Err(BledomError::InvalidParameter(InvalidValue::EffectSpeed(value)));
        }
        let data: [u8; 9] = [0x7e, 0x00, 0x02, value, 0x00, 0x00, 0x00, 0x00, 0xef];
        assert(data@ =~= layout(0x02, value, 0x00, 0x00, 0x00, 0x00));
        self.send_command_bytes(data.as_slice())
    }

    /// The write that schedules switching on at `hours:minutes` on the days
    /// of the bitmask `days`. An enabled schedule carries 0x80 on top of the
    /// bitmask.
    pub fn set_schedule_on(&self, days: u8, hours: u8, minutes: u8, enabled: bool) -> (r: Result<
        Transmission,
        BledomError,
    >)
        ensures
            self.transmits(Command::ScheduleOn { days, hours, minutes, enabled }, r),
    {
        if days > week_days().all {
            return Err(BledomError::InvalidParameter(InvalidValue::Days(days)));
        }
        if hours > 23 {
            return Err(BledomError::InvalidParameter(InvalidValue::Hour(hours)));
        }
        if minutes > 59 {
            return Err(BledomError::InvalidParameter(InvalidValue::Minute(minutes)));
        }
        let value: u8 = if enabled {
            days + 0x80
        } else {
            days
        };
        let data: [u8; 9] = [0x7e, 0x00, 0x82, hours, minutes, 0x00, 0x00, value, 0xef];
        assert(data@ =~= layout(0x82, hours, minutes, 0x00, 0x00, value));
        self.send_command_bytes(data.as_slice())
    }

    /// The write that schedules switching off at `hours:minutes` on the days
    /// of the bitmask `days`. An enabled schedule carries 0x80 on top of the
    /// bitmask.
    pub fn set_schedule_off(&self, days: u8, hours: u8, minutes: u8, enabled: bool) -> (r: Result<
        Transmission,
        BledomError,
    >)
        ensures
            self.transmits(Command::ScheduleOff { days, hours, minutes, enabled }, r),
    {
        if days > week_days().all {
            return Err(BledomError::InvalidParameter(InvalidValue::Days(days)));
        }
        if hours > 23 {
            return Err(BledomError::InvalidParameter(InvalidValue::Hour(hours)));
        }
        if minutes > 59 {
            return Err(BledomError::InvalidParameter(InvalidValue::Minute(minutes)));
        }
        let value: u8 = if enabled {
            days + 0x80
        } else {
            days
        };
        let data: [u8; 9] = [0x7e, 0x00, 0x82, hours, minutes, 0x00, 0x01, value, 0xef];
        assert(data@ =~= layout(0x82, hours, minutes, 0x00, 0x01, value));
        self.send_command_bytes(data.as_slice())
    }

    /// The frame with an arbitrary operation code and arguments.
    pub fn generic_command(&self, id: u8, sub_id: u8, arg1: u8, arg2: u8, arg3: u8) -> (r: Result<
        Transmission,
        BledomError,
    >)
        ensures
            self.transmits(Command::Generic { id, sub_id, arg1, arg2, arg3 }, r),
    {
        let data: [u8; 9] = [0x7e, 0x00, id, sub_id, arg1, arg2, arg3, 0x00, 0xef];
        assert(data@ =~= layout(id, sub_id, arg1, arg2, arg3, 0x00));
        self.send_command_bytes(data.as_slice())
    }
}

/// Encoding is a function of the handle, the operation and its arguments:
/// two outcomes of the same call agree, byte for byte and in where the
/// bytes go on success, and in the refusal otherwise.
pub proof fn lemma_encoding_deterministic(
    device: BledomDevice,
    cmd: Command,
    first: Result<Transmission, BledomError>,
    second: Result<Transmission, BledomError>,
)
    requires
        device.transmits(cmd, first),
        device.transmits(cmd, second),
    ensures
        first is Ok <==> second is Ok,
        first is Ok ==> {
            &&& first->Ok_0.frame@ == second->Ok_0.frame@
            &&& first->Ok_0.peripheral == second->Ok_0.peripheral
            &&& first->Ok_0.characteristic == second->Ok_0.characteristic
            &&& first->Ok_0.settle_ms == second->Ok_0.settle_ms
        },
        first is Err ==> first == second,
{
}

/// Whatever the operation and its arguments, what is written has the shape
/// of a frame: nine bytes, the first 0x7E and the last 0xEF.
pub proof fn lemma_transmitted_frame_is_shaped(
    device: BledomDevice,
    cmd: Command,
    r: Result<Transmission, BledomError>,
)
    requires
        device.transmits(cmd, r),
        r is Ok,
    ensures
        is_frame(r->Ok_0.frame@),
        r->Ok_0.frame@ == wire(cmd),
{
}

} // verus!
