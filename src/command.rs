use vstd::prelude::*;

use crate::person_id::PersonID;

verus! {

/// The sensor's 7-bit I2C address.
pub const PERSON_SENSOR_I2C_ADDRESS: u8 = 0x62;

/// Size of every command write.
pub const COMMAND_LEN: usize = 2;

/// The two operating modes of the sensor.
#[derive(Debug, Clone, Copy, PartialEq, Eq, Structural)]
pub enum PersonSensorMode {
    /// Lowest power: the sensor captures only when asked to.
    Standby,
    /// The sensor captures continuously and raises its interrupt line while
    /// a face is in view.
    Continuous,
}

/// A configuration or capture request, sent as one 2-byte write.
#[derive(Debug, Clone, Copy, PartialEq, Eq, Structural)]
pub enum Command {
    /// Puts the sensor in a mode.
    SetMode(PersonSensorMode),
    /// Turns the identity model on or off; without it only boxes are found,
    /// at a higher frame rate.
    EnableIdModel(bool),
    /// Captures one frame; accepted in standby mode only.
    TriggerCapture,
    /// Calibrates the next face seen as this identity. The sensor drops the
    /// label when two frames pass without a face.
    LabelNextId(PersonID),
    /// Keeps the stored identities across power cycles, or stops doing so.
    PersistIds(bool),
    /// Erases the stored identities.
    EraseIds,
    /// Turns the indicator LED on or off.
    SetIndicator(bool),
}

/// A flag as a command argument.
pub open spec fn flag_byte(b: bool) -> u8 {
    if b {
        1
    } else {
        0
    }
}

/// The argument byte that selects a mode.
pub open spec fn mode_byte(mode: PersonSensorMode) -> u8 {
    match mode {
        PersonSensorMode::Standby => 0,
        PersonSensorMode::Continuous => 1,
    }
}

impl Command {
    /// The first byte of the write, naming the command.
    pub open spec fn opcode(self) -> u8 {
        match self {
            Command::SetMode(_) => 0x01,
            Command::EnableIdModel(_) => 0x02,
            Command::TriggerCapture => 0x03,
            Command::LabelNextId(_) => 0x04,
            Command::PersistIds(_) => 0x05,
            Command::EraseIds => 0x06,
            Command::SetIndicator(_) => 0x07,
        }
    }

    /// The second byte of the write.
    pub open spec fn argument(self) -> u8 {
        match self {
            Command::SetMode(mode) => mode_byte(mode),
            Command::EnableIdModel(b) => flag_byte(b),
            Command::TriggerCapture => 0,
            Command::LabelNextId(id) => id.value(),
            Command::PersistIds(b) => flag_byte(b),
            Command::EraseIds => 0,
            Command::SetIndicator(b) => flag_byte(b),
        }
    }

    /// The bytes written for the command.
    pub open spec fn bytes(self) -> Seq<u8> {
        seq![self.opcode(), self.argument()]
    }

    /// Whether the sensor accepts the command in a mode.
    pub open spec fn allowed_in(self, mode: PersonSensorMode) -> bool {
        match self {
            Command::TriggerCapture => mode == PersonSensorMode::Standby,
            _ => true,
        }
    }

    /// The 2-byte write that carries the command.
    pub fn encode(&self) -> (r: [u8; COMMAND_LEN])
        ensures
            r@ == self.bytes(),
    {
        let r: [u8; COMMAND_LEN] = match *self {
            Command::SetMode(mode) => [0x01, encode_mode(mode)],
            Command::EnableIdModel(b) => [0x02, encode_flag(b)],
            Command::TriggerCapture => [0x03, 0x00],
            Command::LabelNextId(id) => [0x04, id.id()],
            Command::PersistIds(b) => [0x05, encode_flag(b)],
            Command::EraseIds => [0x06, 0x00],
            Command::SetIndicator(b) => [0x07, encode_flag(b)],
        };
        assert(r@ =~= self.bytes());
        r
    }
}

fn encode_flag(b: bool) -> (r: u8)
    ensures
        r == flag_byte(b),
{
    if b {
        1
    } else {
        0
    }
}

fn encode_mode(mode: PersonSensorMode) -> (r: u8)
    ensures
        r == mode_byte(mode),
{
    match mode {
        PersonSensorMode::Standby => 0,
        PersonSensorMode::Continuous => 1,
    }
}

} // verus!
