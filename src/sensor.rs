use vstd::prelude::*;

use core::marker::PhantomData;

use crate::command::{Command, PersonSensorMode, COMMAND_LEN};

verus! {

/// Type tag of a handle whose sensor captures continuously.
pub struct ContinuousCaptureMode;

/// Type tag of a handle whose sensor is in standby.
pub struct StandbyMode;

/// A type that stands for one of the sensor's modes.
pub trait ModeTag {
    /// The mode the type stands for.
    spec fn mode() -> PersonSensorMode;

    /// The mode the type stands for.
    fn current_mode() -> (r: PersonSensorMode)
        ensures
            r == Self::mode(),
    ;
}

impl ModeTag for StandbyMode {
    open spec fn mode() -> PersonSensorMode {
        PersonSensorMode::Standby
    }

    fn current_mode() -> (r: PersonSensorMode) {
        PersonSensorMode::Standby
    }
}

impl ModeTag for ContinuousCaptureMode {
    open spec fn mode() -> PersonSensorMode {
        PersonSensorMode::Continuous
    }

    fn current_mode() -> (r: PersonSensorMode) {
        PersonSensorMode::Continuous
    }
}

/// A handle on the sensor, typed by the mode it is in.
///
/// It owns the bus and, where one is wired, the interrupt line. Operations
/// of one mode exist only on handles of that mode, and a mode switch
/// consumes the handle and gives one of the other mode. The handle decides
/// what is written; the caller performs the transfers on `i2c` and
/// `interrupt`.
pub struct PersonSensor<I2C, INT, MODE> {
    pub i2c: I2C,
    pub interrupt: INT,
    mode: PhantomData<MODE>,
}

impl<I2C, INT, MODE: ModeTag> PersonSensor<I2C, INT, MODE> {
    /// The bus the handle owns.
    pub closed spec fn bus(&self) -> I2C {
        self.i2c
    }

    /// The interrupt line the handle owns (`()` when none is wired).
    pub closed spec fn wake_line(&self) -> INT {
        self.interrupt
    }

    /// A handle in `MODE` on a sensor that has been put in that mode.
    pub(crate) fn from_parts(i2c: I2C, interrupt: INT) -> (r: PersonSensor<I2C, INT, MODE>)
        ensures
            r.bus() == i2c,
            r.wake_line() == interrupt,
    {
        PersonSensor { i2c, interrupt, mode: PhantomData }
    }

    /// The write for a command, or `None` where the command is refused: a
    /// mode change, which goes through the switch operations, and a command
    /// the current mode does not accept. A refused command is never written.
    pub fn request(&self, command: Command) -> (r: Option<[u8; COMMAND_LEN]>)
        ensures
            r is Some <==> !(command is SetMode) && command.allowed_in(MODE::mode()),
            r is Some ==> r->0@ == command.bytes(),
    {
        let allowed = match command {
            Command::SetMode(_) => false,
            Command::TriggerCapture => match MODE::current_mode() {
                PersonSensorMode::Standby => true,
                PersonSensorMode::Continuous => false,
            },
            _ => true,
        };
        if allowed {
            Some(command.encode())
        } else {
            None
        }
    }
}

/// Whether `after` and `write` are what switching `before` to the mode of
/// `after` gives: the same bus and interrupt line, and one write that sets
/// that mode.
pub open spec fn switched<I2C, INT, FROM: ModeTag, TO: ModeTag>(
    before: PersonSensor<I2C, INT, FROM>,
    after: PersonSensor<I2C, INT, TO>,
    write: Seq<u8>,
) -> bool {
    &&& after.bus() == before.bus()
    &&& after.wake_line() == before.wake_line()
    &&& write == Command::SetMode(TO::mode()).bytes()
}

impl<I2C, INT> PersonSensor<I2C, INT, StandbyMode> {
    /// The write that captures a single frame, after which the frame is read
    /// and decoded. Only a standby handle offers it.
    pub fn capture_trigger(&self) -> (r: [u8; COMMAND_LEN])
        ensures
            r@ == Command::TriggerCapture.bytes(),
    {
        Command::TriggerCapture.encode()
    }

    /// Switches to continuous capture: the handle of the new mode, and the
    /// one write that puts the sensor in it. Where that write fails the
    /// caller drops the new handle.
    pub fn switch_to_continuous(self) -> (r: (
        PersonSensor<I2C, INT, ContinuousCaptureMode>,
        [u8; COMMAND_LEN],
    ))
        ensures
            switched(self, r.0, r.1@),
    {
        let write = Command::SetMode(PersonSensorMode::Continuous).encode();
        (PersonSensor { i2c: self.i2c, interrupt: self.interrupt, mode: PhantomData }, write)
    }
}

impl<I2C, INT> PersonSensor<I2C, INT, ContinuousCaptureMode> {
    /// Switches to standby: the handle of the new mode, and the one write
    /// that puts the sensor in it. Where that write fails the caller drops
    /// the new handle.
    pub fn switch_to_standby(self) -> (r: (PersonSensor<I2C, INT, StandbyMode>, [u8; COMMAND_LEN]))
        ensures
            switched(self, r.0, r.1@),
    {
        let write = Command::SetMode(PersonSensorMode::Standby).encode();
        (PersonSensor { i2c: self.i2c, interrupt: self.interrupt, mode: PhantomData }, write)
    }
}

/// Standby, then continuous, standby and continuous again: each switch makes
/// exactly one write, a mode-set naming the mode entered, and the handle at
/// the end, in continuous mode, owns the bus and interrupt line it started
/// with.
pub proof fn lemma_switch_round_trip<I2C, INT>(
    start: PersonSensor<I2C, INT, StandbyMode>,
    first: PersonSensor<I2C, INT, ContinuousCaptureMode>,
    first_write: Seq<u8>,
    second: PersonSensor<I2C, INT, StandbyMode>,
    second_write: Seq<u8>,
    third: PersonSensor<I2C, INT, ContinuousCaptureMode>,
    third_write: Seq<u8>,
)
    requires
        switched(start, first, first_write),
        switched(first, second, second_write),
        switched(second, third, third_write),
    ensures
        first_write == seq![0x01u8, 0x01u8],
        second_write == seq![0x01u8, 0x00u8],
        third_write == seq![0x01u8, 0x01u8],
        third.bus() == start.bus(),
        third.wake_line() == start.wake_line(),
{
}

} // verus!
