use person_sensor::{
    read_detections, DetectionList, PersonID, PersonSensor, PersonSensorBuilder, ReadError,
    FRAME_LEN, PERSON_SENSOR_I2C_ADDRESS,
};

const NO_FACES: [u8; 39] = [
    0x00, 0x00, 0x21, 0x00, 0x00, 0x00, 0x00, 0x00, 0x00, 0x00, 0x00, 0x00, 0x00, 0x00, 0x00, 0x00,
    0x00, 0x00, 0x00, 0x00, 0x00, 0x00, 0x00, 0x00, 0x00, 0x00, 0x00, 0x00, 0x00, 0x00, 0x00, 0x00,
    0x00, 0x00, 0x00, 0x00, 0x00, 0x25, 0x37,
];
const ONE_FACE: [u8; 39] = [
    0x00, 0x00, 0x21, 0x00, 0x01, 0x63, 0x7c, 0x80, 0x95, 0xaa, 0x43, 0x00, 0x01, 0x00, 0x00, 0x00,
    0x00, 0x00, 0x00, 0x00, 0x00, 0x00, 0x00, 0x00, 0x00, 0x00, 0x00, 0x00, 0x00, 0x00, 0x00, 0x00,
    0x00, 0x00, 0x00, 0x00, 0x00, 0x15, 0x8b,
];
const TWO_FACES: [u8; 39] = [
    0x00, 0x00, 0x21, 0x00, 0x02, 0x63, 0x3e, 0x5e, 0x62, 0x9e, 0x4e, 0x00, 0x01, 0x5e, 0x79, 0x67,
    0x8e, 0x88, 0x38, 0x00, 0x01, 0x00, 0x00, 0x00, 0x00, 0x00, 0x00, 0x00, 0x00, 0x00, 0x00, 0x00,
    0x00, 0x00, 0x00, 0x00, 0x00, 0xb9, 0xf9,
];
const BAD_CHECKSUM: [u8; 39] = [
    0x00, 0x00, 0x21, 0x00, 0x02, 0x63, 0x3e, 0x5e, 0x62, 0x9e, 0x4e, 0x00, 0x01, 0x5e, 0x79, 0x67,
    0x8e, 0x88, 0x38, 0x00, 0x01, 0x00, 0x00, 0x00, 0x00, 0x00, 0x00, 0x00, 0x00, 0x00, 0x00, 0x00,
    0x00, 0x00, 0x00, 0x00, 0x01, 0xb9, 0xf9,
];

/// A bus that records the mode it was put in and answers reads with one frame.
#[derive(Debug)]
struct MockBus {
    mode: u8,
    payload: [u8; 39],
    writes: Vec<[u8; 2]>,
}

impl MockBus {
    fn new(mode: u8, payload: &[u8; 39]) -> Self {
        MockBus { mode, payload: *payload, writes: Vec::new() }
    }

    fn write(&mut self, address: u8, data: [u8; 2]) {
        assert_eq!(address, 0x62);
        match data[0] {
            0x01 => self.mode = data[1],
            0x03 => assert_eq!(self.mode, 0),
            _ => {}
        }
        self.writes.push(data);
    }

    fn read(&self, address: u8) -> [u8; FRAME_LEN] {
        assert_eq!(address, 0x62);
        self.payload
    }
}

fn build_continuous(bus: MockBus, id: bool) -> PersonSensor<MockBus, (), person_sensor::ContinuousCaptureMode> {
    let (mut sensor, writes) = PersonSensorBuilder::new_continuous(bus, id).assemble();
    for w in writes {
        sensor.i2c.write(PERSON_SENSOR_I2C_ADDRESS, w);
    }
    sensor
}

fn build_standby(bus: MockBus, id: bool) -> PersonSensor<MockBus, (), person_sensor::StandbyMode> {
    let (mut sensor, writes) = PersonSensorBuilder::new_standby(bus, id).assemble();
    for w in writes {
        sensor.i2c.write(PERSON_SENSOR_I2C_ADDRESS, w);
    }
    sensor
}

fn get_detections<MODE>(sensor: &PersonSensor<MockBus, (), MODE>) -> Result<DetectionList, ReadError<()>> {
    let frame = sensor.i2c.read(PERSON_SENSOR_I2C_ADDRESS);
    read_detections(&frame)
}

fn capture_once(
    sensor: &mut PersonSensor<MockBus, (), person_sensor::StandbyMode>,
) -> Result<DetectionList, ReadError<()>> {
    let trigger = sensor.capture_trigger();
    sensor.i2c.write(PERSON_SENSOR_I2C_ADDRESS, trigger);
    get_detections(sensor)
}

#[test]
fn no_faces() {
    let person_sensor = build_continuous(MockBus::new(1, &NO_FACES), false);
    let detections = get_detections(&person_sensor).unwrap();
    assert_eq!(detections.len(), 0);
}

#[test]
fn one_face() {
    let person_sensor = build_continuous(MockBus::new(1, &ONE_FACE), false);
    let detections = get_detections(&person_sensor).unwrap();
    assert_eq!(detections.len(), 1);
    assert_eq!(detections[0].box_confidence, 0x63);
    assert_eq!(detections[0].box_left, 0x7c);
    assert_eq!(detections[0].box_top, 0x80);
    assert_eq!(detections[0].box_right, 0x95);
    assert_eq!(detections[0].box_bottom, 0xaa);
    assert_eq!(detections[0].id_confidence, 0x43);
    assert_eq!(detections[0].id, Some(PersonID::new(0).unwrap()));
    assert!(detections[0].is_facing);
}

#[test]
fn two_faces() {
    let person_sensor = build_continuous(MockBus::new(1, &TWO_FACES), false);
    let detections = get_detections(&person_sensor).unwrap();
    assert_eq!(detections.len(), 2);

    assert_eq!(detections[0].box_confidence, 0x63);
    assert_eq!(detections[0].box_left, 0x3e);
    assert_eq!(detections[0].box_top, 0x5e);
    assert_eq!(detections[0].box_right, 0x62);
    assert_eq!(detections[0].box_bottom, 0x9e);
    assert_eq!(detections[0].id_confidence, 0x4e);
    assert_eq!(detections[0].id, Some(PersonID::new(0).unwrap()));
    assert!(detections[0].is_facing);

    assert_eq!(detections[1].box_confidence, 0x5e);
    assert_eq!(detections[1].box_left, 0x79);
    assert_eq!(detections[1].box_top, 0x67);
    assert_eq!(detections[1].box_right, 0x8e);
    assert_eq!(detections[1].box_bottom, 0x88);
    assert_eq!(detections[1].id_confidence, 0x38);
    assert_eq!(detections[1].id, Some(PersonID::new(0).unwrap()));
    assert!(detections[1].is_facing);
}

#[test]
fn bad_checksum_continuous() {
    let person_sensor = build_continuous(MockBus::new(1, &BAD_CHECKSUM), false);
    if let Err(ReadError::ChecksumMismatch) = get_detections(&person_sensor) {
    } else {
        panic!("Expected ChecksumMismatch error");
    }
}

#[test]
fn bad_checksum_standby() {
    let mut person_sensor = build_standby(MockBus::new(1, &BAD_CHECKSUM), false);
    if Err(ReadError::ChecksumMismatch) == capture_once(&mut person_sensor) {
    } else {
        panic!("Expected ChecksumMismatch error");
    }
}

#[test]
fn set_mode_on_init() {
    let person_sensor = build_continuous(MockBus::new(0, &NO_FACES), false);
    assert_eq!(person_sensor.i2c.mode, 1);
    _ = get_detections(&person_sensor).unwrap();

    let mut person_sensor = build_standby(MockBus::new(1, &NO_FACES), false);
    assert_eq!(person_sensor.i2c.mode, 0);
    _ = capture_once(&mut person_sensor).unwrap();
}

#[test]
fn switch_mode() {
    let person_sensor = build_continuous(MockBus::new(0, &NO_FACES), false);
    _ = get_detections(&person_sensor).unwrap();

    let (mut person_sensor, write) = person_sensor.switch_to_standby();
    person_sensor.i2c.write(PERSON_SENSOR_I2C_ADDRESS, write);
    _ = capture_once(&mut person_sensor).unwrap();

    let (mut person_sensor, write) = person_sensor.switch_to_continuous();
    person_sensor.i2c.write(PERSON_SENSOR_I2C_ADDRESS, write);
    _ = get_detections(&person_sensor).unwrap();
    assert_eq!(person_sensor.i2c.mode, 1);
}

#[test]
fn build_writes_mode_then_id_model() {
    let sensor = build_continuous(MockBus::new(0, &NO_FACES), true);
    assert_eq!(sensor.i2c.writes, vec![[0x01, 0x01], [0x02, 0x01]]);

    let sensor = build_standby(MockBus::new(1, &NO_FACES), false);
    assert_eq!(sensor.i2c.writes, vec![[0x01, 0x00], [0x02, 0x00]]);
}

#[test]
fn builder_keeps_interrupt_line() {
    let builder = PersonSensorBuilder::new_continuous(MockBus::new(0, &NO_FACES), false)
        .with_interrupt(17u32);
    let (sensor, writes) = builder.assemble();
    assert_eq!(sensor.interrupt, 17u32);
    assert_eq!(writes, [[0x01, 0x01], [0x02, 0x00]]);
}

#[test]
fn round_trip_writes_one_mode_set_per_switch() {
    let sensor = build_standby(MockBus::new(0, &ONE_FACE), false);
    let before = sensor.i2c.writes.len();

    let (mut sensor, write) = sensor.switch_to_continuous();
    assert_eq!(write, [0x01, 0x01]);
    sensor.i2c.write(PERSON_SENSOR_I2C_ADDRESS, write);
    let (mut sensor, write) = sensor.switch_to_standby();
    assert_eq!(write, [0x01, 0x00]);
    sensor.i2c.write(PERSON_SENSOR_I2C_ADDRESS, write);
    let (mut sensor, write) = sensor.switch_to_continuous();
    assert_eq!(write, [0x01, 0x01]);
    sensor.i2c.write(PERSON_SENSOR_I2C_ADDRESS, write);

    assert_eq!(sensor.i2c.writes.len(), before + 3);
    assert_eq!(sensor.i2c.mode, 1);
    assert_eq!(get_detections(&sensor).unwrap().len(), 1);
}
