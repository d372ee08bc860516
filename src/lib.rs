//! Driver core for a person/face-detection sensor on an I2C bus.
//!
//! The library holds the transport-independent part of the driver: the
//! decoding of the 39-byte result frame, the encoding of the 2-byte command
//! writes, and a handle whose type records the sensor's mode, so that an
//! operation of one mode cannot be asked for on a handle of the other.
//! Performing the bus transfers is left to the caller.
pub mod builder;
pub mod command;
pub mod frame;
pub mod person_id;
pub mod sensor;

pub use builder::PersonSensorBuilder;
pub use command::{Command, PersonSensorMode, COMMAND_LEN, PERSON_SENSOR_I2C_ADDRESS};
pub use frame::{
    decode_detections, read_detections, DetectionList, Face, ReadError, FRAME_LEN,
    MAX_DETECTIONS, PAYLOAD_LEN,
};
pub use person_id::{PersonID, PersonIDError, MAX_PERSON_ID};
pub use sensor::{ContinuousCaptureMode, ModeTag, PersonSensor, StandbyMode};
