use vstd::prelude::*;

verus! {

/// The largest identity label the sensor can store.
pub const MAX_PERSON_ID: u8 = 7;

/// Why a caller-supplied identity label was refused.
#[derive(Debug, PartialEq, Eq, Structural)]
pub enum PersonIDError {
    /// Identity labels range from 0 to 7.
    InvalidId,
}

/// An identity label the sensor can be calibrated on.
#[derive(Debug, Clone, Copy, PartialEq, Eq, Structural, PartialOrd, Ord, Hash)]
pub struct PersonID(pub(crate) u8);

impl PersonID {
    /// The label as a number.
    pub closed spec fn value(self) -> u8 {
        self.0
    }

    /// Builds a label from a number, refusing anything above 7.
    pub fn new(id: u8) -> (r: Result<PersonID, PersonIDError>)
        ensures
            id <= MAX_PERSON_ID <==> r is Ok,
            r is Ok ==> r->Ok_0.value() == id,
            r is Err ==> r->Err_0 == PersonIDError::InvalidId,
    {
        if id <= MAX_PERSON_ID {
            Ok(PersonID(id))
        } else {
            Err(PersonIDError::InvalidId)
        }
    }

    /// A label exactly as the sensor reported it. Labels read back from the
    /// device are trusted to be in range and are not checked again.
    pub(crate) fn from_device(id: u8) -> (r: PersonID)
        ensures
            r.value() == id,
    {
        PersonID(id)
    }

    /// The label as a number.
    pub fn id(&self) -> (r: u8)
        ensures
            r == self.value(),
    {
        self.0
    }
}

impl TryFrom<u8> for PersonID {
    type Error = PersonIDError;

    fn try_from(value: u8) -> (r: Result<PersonID, PersonIDError>) {
        PersonID::new(value)
    }
}

impl vstd::std_specs::convert::TryFromSpecImpl<u8> for PersonID {
    open spec fn obeys_try_from_spec() -> bool {
        true
    }

    closed spec fn try_from_spec(value: u8) -> Result<PersonID, PersonIDError> {
        if value <= MAX_PERSON_ID {
            Ok(PersonID(value))
        } else {
            Err(PersonIDError::InvalidId)
        }
    }
}

impl From<PersonID> for u8 {
    fn from(id: PersonID) -> (r: u8) {
        id.0
    }
}

impl vstd::std_specs::convert::FromSpecImpl<PersonID> for u8 {
    open spec fn obeys_from_spec() -> bool {
        true
    }

    open spec fn from_spec(id: PersonID) -> u8 {
        id.value()
    }
}

} // verus!
