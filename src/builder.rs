use vstd::prelude::*;

use core::marker::PhantomData;

use crate::command::{Command, PersonSensorMode, COMMAND_LEN};
use crate::sensor::{ContinuousCaptureMode, ModeTag, PersonSensor, StandbyMode};

verus! {

/// Gathers what a [`PersonSensor`] is made from: the bus, an optional
/// interrupt line, the initial mode (as the type `MODE`) and whether the
/// identity model is on.
pub struct PersonSensorBuilder<I2C, INT, MODE> {
    i2c: I2C,
    interrupt: INT,
    mode: PhantomData<MODE>,
    id_enabled: bool,
}

impl<I2C, INT, MODE> PersonSensorBuilder<I2C, INT, MODE> {
    /// The bus the sensor will use.
    pub closed spec fn bus(&self) -> I2C {
        self.i2c
    }

    /// The interrupt line the sensor will use (`()` when none is wired).
    pub closed spec fn wake_line(&self) -> INT {
        self.interrupt
    }

    /// Whether the identity model will be switched on.
    pub closed spec fn id_model(&self) -> bool {
        self.id_enabled
    }
}

impl<I2C> PersonSensorBuilder<I2C, (), ()> {
    /// A sensor without an interrupt line, to start in standby mode.
    pub fn new_standby(i2c: I2C, id_enabled: bool) -> (r: PersonSensorBuilder<I2C, (), StandbyMode>)
        ensures
            r.bus() == i2c,
            r.id_model() == id_enabled,
    {
        PersonSensorBuilder { i2c, interrupt: (), mode: PhantomData, id_enabled }
    }

    /// A sensor without an interrupt line, to start in continuous mode.
    pub fn new_continuous(i2c: I2C, id_enabled: bool) -> (r: PersonSensorBuilder<
        I2C,
        (),
        ContinuousCaptureMode,
    >)
        ensures
            r.bus() == i2c,
            r.id_model() == id_enabled,
    {
        PersonSensorBuilder { i2c, interrupt: (), mode: PhantomData, id_enabled }
    }
}

impl<I2C, MODE> PersonSensorBuilder<I2C, (), MODE> {
    /// Adds the interrupt line that signals a face in view.
    pub fn with_interrupt<INT>(self, interrupt: INT) -> (r: PersonSensorBuilder<I2C, INT, MODE>)
        ensures
            r.bus() == self.bus(),
            r.wake_line() == interrupt,
            r.id_model() == self.id_model(),
    {
        PersonSensorBuilder { i2c: self.i2c, interrupt, mode: self.mode, id_enabled: self.id_enabled }
    }
}

impl<I2C, INT, MODE: ModeTag> PersonSensorBuilder<I2C, INT, MODE> {
    /// The handle, and the two writes that configure the sensor, in order:
    /// set the initial mode, then switch the identity model on or off.
    ///
    /// The caller performs both writes and keeps the handle only where both
    /// succeed; the first failure ends the construction.
    pub fn assemble(self) -> (r: (PersonSensor<I2C, INT, MODE>, [[u8; COMMAND_LEN]; 2]))
        ensures
            r.0.bus() == self.bus(),
            r.0.wake_line() == self.wake_line(),
            r.1[0]@ == Command::SetMode(MODE::mode()).bytes(),
            r.1[1]@ == Command::EnableIdModel(self.id_model()).bytes(),
    {
        let set_mode = Command::SetMode(MODE::current_mode()).encode();
        let enable_id = Command::EnableIdModel(self.id_enabled).encode();
        let sensor = PersonSensor::from_parts(self.i2c, self.interrupt);
        (sensor, [set_mode, enable_id])
    }
}

} // verus!
