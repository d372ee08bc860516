use vstd::prelude::*;
use vstd::slice::slice_subrange;

use crate::person_id::PersonID;

verus! {

/// Size of one result frame read from the sensor.
pub const FRAME_LEN: usize = 39;

/// The bytes covered by the checksum: everything before the trailer.
pub const PAYLOAD_LEN: usize = 37;

/// The most faces one frame reports.
pub const MAX_DETECTIONS: usize = 4;

/// Offset of the face-count byte.
pub const FACE_COUNT_OFFSET: usize = 4;

/// Offset of the first face record.
pub const FACES_OFFSET: usize = 5;

/// Size of one face record.
pub const FACE_RECORD_LEN: usize = 8;

/// One face found by the sensor.
#[derive(Debug, Clone, Copy, PartialEq, Eq, Structural)]
pub struct Face {
    /// Confidence of the box prediction, from 1 to 100.
    pub box_confidence: u8,
    pub box_left: u8,
    pub box_top: u8,
    pub box_right: u8,
    pub box_bottom: u8,
    /// Confidence of the identity match, from 1 to 100; 0 or less when the
    /// face matched no calibrated identity or is not the largest face.
    pub id_confidence: i8,
    /// The calibrated identity the face was recognised as, if any.
    pub id: Option<PersonID>,
    /// Whether the person is looking straight at the sensor.
    pub is_facing: bool,
}

/// Why a frame could not be read.
#[derive(Debug, Clone, Copy, PartialEq, Eq)]
pub enum ReadError<E> {
    /// The frame's trailer does not match the checksum of its payload.
    ChecksumMismatch,
    /// The bus transfer failed.
    I2CError(E),
}

impl<E> From<E> for ReadError<E> {
    fn from(error: E) -> (r: ReadError<E>) {
        ReadError::I2CError(error)
    }
}

impl<E> vstd::std_specs::convert::FromSpecImpl<E> for ReadError<E> {
    open spec fn obeys_from_spec() -> bool {
        true
    }

    open spec fn from_spec(error: E) -> ReadError<E> {
        ReadError::I2CError(error)
    }
}

/// The faces of one frame, in the order the sensor reported them.
pub type DetectionList = heapless::Vec<Face, MAX_DETECTIONS>;

#[verifier::external_type_specification]
#[verifier::external_body]
#[verifier::reject_recursive_types(T)]
pub struct ExHeaplessVec<T, const N: usize>(heapless::Vec<T, N>);

/// The faces a detection list holds, first to last.
pub uninterp spec fn faces_of(list: DetectionList) -> Seq<Face>;

/// The CRC-16/MCRF4XX checksum of a message.
pub uninterp spec fn crc16_mcrf4xx(msg: Seq<u8>) -> u16;

/// Relies on `crc16::State::<crc16::MCRF4XX>::calculate`: the checksum of
/// the message, which depends on its bytes alone.
#[verifier::external_body]
fn checksum_of(msg: &[u8]) -> (r: u16)
    ensures
        r == crc16_mcrf4xx(msg@),
{
    crc16::State::<crc16::MCRF4XX>::calculate(msg)
}

/// Relies on `heapless::Vec::new`: a vector that holds nothing.
#[verifier::external_body]
fn empty_list() -> (r: DetectionList)
    ensures
        faces_of(r) == Seq::<Face>::empty(),
{
    heapless::Vec::new()
}

/// Relies on `heapless::Vec::push`: appends the face while fewer than the
/// capacity are held, and otherwise hands it back with the vector unchanged.
#[verifier::external_body]
fn push_face(list: &mut DetectionList, face: Face) -> (r: Result<(), Face>)
    ensures
        faces_of(*old(list)).len() < MAX_DETECTIONS ==> r is Ok,
        faces_of(*old(list)).len() < MAX_DETECTIONS ==> faces_of(*final(list)) == faces_of(*old(list)).push(face),
        faces_of(*old(list)).len() >= MAX_DETECTIONS ==> r is Err && r->Err_0 == face,
        faces_of(*old(list)).len() >= MAX_DETECTIONS ==> *final(list) == *old(list),
{
    list.push(face)
}

/// A byte read as a two's-complement signed number.
pub open spec fn signed_byte(b: u8) -> i8 {
    if b < 128 {
        b as i8
    } else {
        (b - 256) as i8
    }
}

/// The 16-bit little-endian number at `at`.
pub open spec fn le_u16_at(frame: Seq<u8>, at: int) -> u16 {
    (frame[at] + 256 * frame[at + 1]) as u16
}

/// The checksum a frame carries in its trailer.
pub open spec fn trailer_of(frame: Seq<u8>) -> u16 {
    le_u16_at(frame, PAYLOAD_LEN as int)
}

/// The checksum a frame's payload actually has.
pub open spec fn payload_checksum(frame: Seq<u8>) -> u16 {
    crc16_mcrf4xx(frame.subrange(0, PAYLOAD_LEN as int))
}

/// The number of faces a frame yields: the count in its header, capped at
/// the number of records a frame has room for.
pub open spec fn face_count(frame: Seq<u8>) -> int {
    if frame[FACE_COUNT_OFFSET as int] < MAX_DETECTIONS {
        frame[FACE_COUNT_OFFSET as int] as int
    } else {
        MAX_DETECTIONS as int
    }
}

/// Byte `k` of face record `i`.
pub open spec fn record_byte(frame: Seq<u8>, i: int, k: int) -> u8 {
    frame[FACES_OFFSET + FACE_RECORD_LEN * i + k]
}

/// Whether `face` is what record `i` of the frame says: the five box bytes,
/// the signed identity confidence, an identity exactly when that confidence
/// is not zero, and facing when the last byte is not zero.
pub open spec fn face_from_record(face: Face, frame: Seq<u8>, i: int) -> bool {
    &&& face.box_confidence == record_byte(frame, i, 0)
    &&& face.box_left == record_byte(frame, i, 1)
    &&& face.box_top == record_byte(frame, i, 2)
    &&& face.box_right == record_byte(frame, i, 3)
    &&& face.box_bottom == record_byte(frame, i, 4)
    &&& face.id_confidence == signed_byte(record_byte(frame, i, 5))
    &&& if record_byte(frame, i, 5) == 0 {
        face.id is None
    } else {
        face.id is Some && face.id->0.value() == record_byte(frame, i, 6)
    }
    &&& face.is_facing == (record_byte(frame, i, 7) > 0)
}

/// Whether `faces` are the faces that a frame reports, in its order.
pub open spec fn faces_from_frame(faces: Seq<Face>, frame: Seq<u8>) -> bool {
    &&& faces.len() == face_count(frame)
    &&& forall|i: int| 0 <= i < faces.len() ==> #[trigger] face_from_record(faces[i], frame, i)
}

/// Decodes face record `i` of a frame.
fn decode_face(frame: &[u8; FRAME_LEN], i: usize) -> (face: Face)
    requires
        i < MAX_DETECTIONS,
    ensures
        face_from_record(face, frame@, i as int),
{
    let start = FACES_OFFSET + FACE_RECORD_LEN * i;
    let confidence_byte = frame[start + 5];
    let id_confidence: i8 = if confidence_byte < 128 {
        confidence_byte as i8
    } else {
        (confidence_byte as i16 - 256) as i8
    };
    let id = if confidence_byte == 0 {
        None
    } else {
        Some(PersonID::from_device(frame[start + 6]))
    };
    Face {
        box_confidence: frame[start],
        box_left: frame[start + 1],
        box_top: frame[start + 2],
        box_right: frame[start + 3],
        box_bottom: frame[start + 4],
        id_confidence,
        id,
        is_facing: frame[start + 7] > 0,
    }
}

/// Decodes the faces of a frame whose payload has the checksum `computed`.
///
/// The frame is refused with `ChecksumMismatch` exactly when `computed`
/// differs from the checksum in its trailer; otherwise the faces are those
/// of the records that the header counts, at most four.
pub fn decode_detections<E>(frame: &[u8; FRAME_LEN], computed: u16) -> (r: Result<
    DetectionList,
    ReadError<E>,
>)
    ensures
        r is Ok <==> computed == trailer_of(frame@),
        r is Ok ==> faces_from_frame(faces_of(r->Ok_0), frame@),
        r is Err ==> r->Err_0 == ReadError::<E>::ChecksumMismatch,
{
    let trailer = frame[PAYLOAD_LEN] as u16 + 256 * frame[PAYLOAD_LEN + 1] as u16;
    if trailer != computed {
        return Err(ReadError::ChecksumMismatch);
    }
    let reported = frame[FACE_COUNT_OFFSET];
    let count: usize = if (reported as usize) < MAX_DETECTIONS {
        reported as usize
    } else {
        MAX_DETECTIONS
    };
    let mut faces = empty_list();
    let mut i: usize = 0;
    while i < count
        invariant
            count == face_count(frame@),
            count <= MAX_DETECTIONS,
            i <= count,
            faces_of(faces).len() == i,
            forall|j: int| 0 <= j < i ==> #[trigger] face_from_record(faces_of(faces)[j], frame@, j),
        ensures
            faces_of(faces).len() == count,
            forall|j: int| 0 <= j < count ==> #[trigger] face_from_record(faces_of(faces)[j], frame@, j),
        decreases count - i,
    {
        let face = decode_face(frame, i);
        match push_face(&mut faces, face) {
            Ok(_) => {},
            Err(_) => break,
        }
        i = i + 1;
    }
    Ok(faces)
}

/// Checks and decodes a frame read from the sensor.
///
/// The frame is refused with `ChecksumMismatch` exactly when the checksum of
/// its first 37 bytes differs from its trailer.
pub fn read_detections<E>(frame: &[u8; FRAME_LEN]) -> (r: Result<DetectionList, ReadError<E>>)
    ensures
        r is Ok <==> payload_checksum(frame@) == trailer_of(frame@),
        r is Ok ==> faces_from_frame(faces_of(r->Ok_0), frame@),
        r is Err ==> r->Err_0 == ReadError::<E>::ChecksumMismatch,
{
    let computed = checksum_of(slice_subrange(frame, 0, PAYLOAD_LEN));
    decode_detections(frame, computed)
}

/// Changing one byte of the trailer of a frame whose checksum is right makes
/// the trailer disagree with the payload, so the frame is refused.
pub proof fn lemma_mutated_trailer_refused(frame: Seq<u8>, at: int, byte: u8)
    requires
        frame.len() == FRAME_LEN,
        PAYLOAD_LEN <= at < FRAME_LEN,
        byte != frame[at],
        payload_checksum(frame) == trailer_of(frame),
    ensures
        payload_checksum(frame.update(at, byte)) != trailer_of(frame.update(at, byte)),
{
    let mutated = frame.update(at, byte);
    assert(mutated.subrange(0, PAYLOAD_LEN as int) =~= frame.subrange(0, PAYLOAD_LEN as int));
}

} // verus!
