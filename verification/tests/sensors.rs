use env_sense::procedure::Plan;
use env_sense::{
    Bme280, Bme280Calibration, BusRequest, Fault, Lis3dh, Measurement, Procedure, Progress, RawAcceleration,
    RawSample, SensorError,
};

/// Runs a procedure to its end on the given outcomes; gives what it asked for
/// and what it came to.
fn run<P>(mut procedure: P, outcomes: Vec<Result<Vec<u8>, Fault>>) -> (Vec<BusRequest>, P::Output)
where
    P: Procedure + Plan<Request = BusRequest>,
{
    let mut requests = Vec::new();
    let mut outcomes = outcomes.into_iter();
    loop {
        match procedure.progress() {
            Progress::Ask(request) => {
                requests.push(request);
                let outcome = match outcomes.next() {
                    Some(outcome) => outcome,
                    None => panic!("asked for more than expected"),
                };
                procedure = procedure.reply(outcome);
            }
            Progress::Done(result) => {
                assert!(outcomes.next().is_none(), "done too early");
                return (requests, result);
            }
        }
    }
}

fn read(address: u8, reg: u8, len: usize) -> BusRequest {
    BusRequest::Read { address, reg, len }
}

fn write(address: u8, reg: u8, value: u8) -> BusRequest {
    BusRequest::Write { address, reg, value }
}

fn bme280() -> Bme280 {
    Bme280 { calibration: Bme280Calibration::parse(&[0x12; 26], &[0x34; 7]) }
}

fn measurement(adc_p: u32, adc_t: u32, adc_h: u32) -> Measurement {
    Measurement {
        calibration: Bme280Calibration::parse(&[0x12; 26], &[0x34; 7]),
        sample: RawSample { adc_p, adc_t, adc_h },
    }
}

#[test]
fn bme280_init_loads_the_calibration() {
    let tp: Vec<u8> = (1..27).collect();
    let h: Vec<u8> = (31..38).collect();
    let (requests, result) = run(
        Bme280::init(),
        vec![Ok(vec![0x60]), Ok(tp), Ok(h), Ok(vec![])],
    );
    assert_eq!(
        requests,
        vec![
            read(0x77, 0xD0, 1),
            read(0x77, 0x88, 26),
            read(0x77, 0xE1, 7),
            write(0x77, 0xF2, 0x01),
        ]
    );
    let mut tp = [0u8; 26];
    for i in 0..26 {
        tp[i] = i as u8 + 1;
    }
    let calibration = Bme280Calibration::parse(&tp, &[31, 32, 33, 34, 35, 36, 37]);
    assert_eq!(calibration.t1, 0x0201);
    assert_eq!(calibration.h1, 26);
    assert_eq!(calibration.h6, 37);
    assert_eq!(result, Ok(Bme280 { calibration }));
}

#[test]
fn bme280_init_rejects_another_chip() {
    let (requests, result) = run(Bme280::init(), vec![Ok(vec![0x58])]);
    assert_eq!(requests, vec![read(0x77, 0xD0, 1)]);
    assert_eq!(result, Err(SensorError::NoDevice));
}

#[test]
fn bme280_init_stops_at_the_first_failure() {
    let outcomes = vec![Ok(vec![0x60]), Ok(vec![0; 26]), Ok(vec![0; 7]), Ok(vec![])];
    for i in 0..4 {
        let mut failing: Vec<Result<Vec<u8>, Fault>> = outcomes[..i].to_vec();
        failing.push(Err(Fault));
        let (requests, result) = run(Bme280::init(), failing);
        assert_eq!(requests.len(), i + 1);
        assert_eq!(result, Err(SensorError::BusError));
    }
}

#[test]
fn bme280_read_fetches_a_sample() {
    let (requests, result) = run(
        bme280().read(),
        vec![
            Ok(vec![]),
            Ok(vec![]),
            Ok(vec![0x08]),
            Ok(vec![]),
            Ok(vec![0xF7]),
            Ok(vec![0x65, 0x5A, 0xC0, 0x7E, 0xED, 0x00, 0x6E, 0x93]),
        ],
    );
    assert_eq!(
        requests,
        vec![
            write(0x77, 0xF4, 0x25),
            BusRequest::Wait { ms: 2 },
            read(0x77, 0xF3, 1),
            BusRequest::Wait { ms: 2 },
            read(0x77, 0xF3, 1),
            read(0x77, 0xF7, 8),
        ]
    );
    assert_eq!(result, Ok(measurement(415148, 519888, 28307)));
}

#[test]
fn bme280_read_goes_with_the_calibration_of_its_sensor() {
    let calibration = Bme280Calibration::parse(&[0x55; 26], &[0x66; 7]);
    let sensor = Bme280 { calibration };
    let outcomes = vec![Ok(vec![]), Ok(vec![]), Ok(vec![0]), Ok(vec![0; 8])];
    let (_, result) = run(sensor.read(), outcomes.clone());
    assert_eq!(result.map(|measurement| measurement.calibration), Ok(calibration));
    let (_, other) = run(bme280().read(), outcomes);
    assert_ne!(other.map(|measurement| measurement.calibration), Ok(calibration));
}

#[test]
fn bme280_read_gives_up_after_ten_polls() {
    let mut outcomes = vec![Ok(vec![])];
    for _ in 0..10 {
        outcomes.push(Ok(vec![]));
        outcomes.push(Ok(vec![0x0C]));
    }
    let (requests, result) = run(bme280().read(), outcomes);
    assert_eq!(result, Err(SensorError::Timeout));
    let waited: u64 = requests
        .iter()
        .map(|request| match request {
            BusRequest::Wait { ms } => *ms,
            _ => 0,
        })
        .sum();
    assert_eq!(waited, 20);
    assert!(!requests.contains(&read(0x77, 0xF7, 8)));
}

#[test]
fn bme280_read_takes_the_tenth_poll() {
    let mut outcomes = vec![Ok(vec![])];
    for i in 0..10 {
        outcomes.push(Ok(vec![]));
        outcomes.push(Ok(vec![if i < 9 { 0x08 } else { 0x00 }]));
    }
    outcomes.push(Ok(vec![0; 8]));
    let (requests, result) = run(bme280().read(), outcomes);
    assert_eq!(requests.len(), 22);
    let count = |wanted| requests.iter().filter(|request| **request == wanted).count();
    assert_eq!(count(write(0x77, 0xF4, 0x25)), 1);
    assert_eq!(count(BusRequest::Wait { ms: 2 }), 10);
    assert_eq!(count(read(0x77, 0xF3, 1)), 10);
    assert_eq!(count(read(0x77, 0xF7, 8)), 1);
    assert_eq!(result, Ok(measurement(0, 0, 0)));
}

#[test]
fn bme280_read_reports_failed_transfers() {
    let (_, result) = run(bme280().read(), vec![Err(Fault)]);
    assert_eq!(result, Err(SensorError::BusError));
    let (_, result) = run(bme280().read(), vec![Ok(vec![]), Ok(vec![]), Err(Fault)]);
    assert_eq!(result, Err(SensorError::BusError));
    let (_, result) = run(
        bme280().read(),
        vec![Ok(vec![]), Ok(vec![]), Ok(vec![0]), Err(Fault)],
    );
    assert_eq!(result, Err(SensorError::BusError));
}

#[test]
fn lis3dh_init_starts_sampling() {
    let (requests, result) = run(Lis3dh::init(), vec![Ok(vec![0x33]), Ok(vec![]), Ok(vec![])]);
    assert_eq!(
        requests,
        vec![read(0x19, 0x0F, 1), write(0x19, 0x20, 0x57), write(0x19, 0x23, 0x88)]
    );
    assert_eq!(result, Ok(Lis3dh));
}

#[test]
fn lis3dh_init_reports_what_went_wrong() {
    let (_, result) = run(Lis3dh::init(), vec![Ok(vec![0x32])]);
    assert_eq!(result, Err(SensorError::NoDevice));
    let (_, result) = run(Lis3dh::init(), vec![Err(Fault)]);
    assert_eq!(result, Err(SensorError::BusError));
    let (_, result) = run(Lis3dh::init(), vec![Ok(vec![0x33]), Ok(vec![]), Err(Fault)]);
    assert_eq!(result, Err(SensorError::BusError));
}

#[test]
fn lis3dh_read_fetches_a_sample() {
    let (requests, result) = run(
        Lis3dh.read(),
        vec![Ok(vec![0x80, 0x3E, 0xF0, 0xFF, 0x00, 0x80])],
    );
    assert_eq!(requests, vec![read(0x19, 0xA8, 6)]);
    assert_eq!(result, Ok(RawAcceleration { x: 1000, y: -1, z: -2048 }));
    let (_, result) = run(Lis3dh.read(), vec![Err(Fault)]);
    assert_eq!(result, Err(SensorError::BusError));
}

#[test]
fn payload_holds_register_and_value() {
    assert_eq!(write(0x77, 0xF4, 0x25).payload(), vec![0xF4, 0x25]);
    assert_eq!(read(0x19, 0xA8, 6).payload(), vec![0xA8]);
    assert!(BusRequest::Wait { ms: 2 }.payload().is_empty());
}
