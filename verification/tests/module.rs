use env_sense::driver::ModuleDetectResistor;
use env_sense::{
    Bme280, Bme280Calibration, BusRequest, Capability, DriverError, DriverRequest, EnvSenseDriver,
    Fault, Lis3dh, ModuleID, Pin, Procedure, Progress,
};

const SLOT: u8 = 3;

fn run(
    outcomes: Vec<Result<Vec<u8>, Fault>>,
) -> (Vec<DriverRequest<u8>>, Result<(), DriverError>) {
    let mut create = EnvSenseDriver::create(SLOT);
    let mut requests = Vec::new();
    let mut outcomes = outcomes.into_iter();
    loop {
        match create.progress() {
            Progress::Ask(request) => {
                requests.push(request);
                let outcome = match outcomes.next() {
                    Some(outcome) => outcome,
                    None => panic!("asked for more than expected"),
                };
                create = create.reply(outcome);
            }
            Progress::Done(result) => {
                assert!(outcomes.next().is_none(), "done too early");
                return (requests, result);
            }
        }
    }
}

fn good_outcomes() -> Vec<Result<Vec<u8>, Fault>> {
    vec![
        Ok(vec![]),
        Ok(vec![0x60]),
        Ok(vec![0x11; 26]),
        Ok(vec![0x22; 7]),
        Ok(vec![]),
        Ok(vec![0x33]),
        Ok(vec![]),
        Ok(vec![]),
        Ok(vec![]),
        Ok(vec![]),
        Ok(vec![]),
    ]
}

fn registers(request: &DriverRequest<u8>) -> bool {
    matches!(request, DriverRequest::Register { .. })
}

#[test]
fn module_is_known_by_its_resistors() {
    assert_eq!(
        EnvSenseDriver::id(),
        ModuleID { md0: ModuleDetectResistor::R1K, md1: ModuleDetectResistor::R22K }
    );
}

#[test]
fn create_brings_everything_up() {
    let (requests, result) = run(good_outcomes());
    assert_eq!(result, Ok(()));
    let id = EnvSenseDriver::id();
    let calibration = Bme280Calibration::parse(&[0x11; 26], &[0x22; 7]);
    let read = |address, reg, len| DriverRequest::Bus(BusRequest::Read { address, reg, len });
    let write =
        |address, reg, value| DriverRequest::Bus(BusRequest::Write { address, reg, value });
    assert_eq!(
        requests,
        vec![
            DriverRequest::CreateI2c {
                scl: Pin::Gpio0,
                sda: Pin::Gpio1,
                frequency_hz: 100_000,
            },
            read(0x77, 0xD0, 1),
            read(0x77, 0x88, 26),
            read(0x77, 0xE1, 7),
            write(0x77, 0xF2, 0x01),
            read(0x19, 0x0F, 1),
            write(0x19, 0x20, 0x57),
            write(0x19, 0x23, 0x88),
            DriverRequest::Register {
                slot: SLOT,
                id,
                capability: Capability::EnvSensor(Bme280 { calibration }),
            },
            DriverRequest::Register {
                slot: SLOT,
                id,
                capability: Capability::Accelerometer(Lis3dh),
            },
            DriverRequest::Register {
                slot: SLOT,
                id,
                capability: Capability::Led { pin: Pin::Gpio9, active_low: false },
            },
        ]
    );
}

#[test]
fn create_asks_for_one_bus() {
    let (requests, _) = run(good_outcomes());
    let buses: Vec<usize> = (0..requests.len())
        .filter(|i| matches!(requests[*i], DriverRequest::CreateI2c { .. }))
        .collect();
    assert_eq!(buses, vec![0]);
}

#[test]
fn create_registers_nothing_when_a_request_fails() {
    for i in 0..8 {
        let mut outcomes = good_outcomes()[..i].to_vec();
        outcomes.push(Err(Fault));
        let (requests, result) = run(outcomes);
        assert_eq!(result, Err(DriverError::InitFailed));
        assert_eq!(requests.len(), i + 1);
        assert!(!requests.iter().any(registers));
    }
}

#[test]
fn create_registers_nothing_when_a_sensor_is_missing() {
    for i in [1, 5] {
        let mut outcomes = good_outcomes()[..i].to_vec();
        outcomes.push(Ok(vec![0xFF]));
        let (requests, result) = run(outcomes);
        assert_eq!(result, Err(DriverError::InitFailed));
        assert_eq!(requests.len(), i + 1);
        assert!(!requests.iter().any(registers));
    }
}
