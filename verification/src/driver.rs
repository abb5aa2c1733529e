//! Bringing the whole module up.

use crate::bme280::{Bme280, Bme280Init};
use crate::bus::BusRequest;
use crate::error::{DriverError, Fault};
use crate::lis3dh::{Lis3dh, Lis3dhInit};
use crate::procedure::{Plan, Procedure, Progress, Reply, Request};
use vstd::prelude::*;

verus! {

/// Bit-banged I2C clock for the module bus.
pub const I2C_FREQUENCY_HZ: u32 = 100_000;

/// The module detect resistors that this module is fitted with.
#[derive(Debug, Clone, Copy, PartialEq, Eq, Structural)]
pub enum ModuleDetectResistor {
    R1K,
    R22K,
}

/// The pair of detect resistors that a module is known by.
#[derive(Debug, Clone, Copy, PartialEq, Eq, Structural)]
pub struct ModuleID {
    pub md0: ModuleDetectResistor,
    pub md1: ModuleDetectResistor,
}

/// The resistor fitted at MD0.
pub const MODULE_MD0: ModuleDetectResistor = ModuleDetectResistor::R1K;

/// The resistor fitted at MD1.
pub const MODULE_MD1: ModuleDetectResistor = ModuleDetectResistor::R22K;

/// The ID of the module.
pub open spec fn module_id() -> ModuleID {
    ModuleID { md0: MODULE_MD0, md1: MODULE_MD1 }
}

/// The pins of the module's GPIO bank that are in use.
#[derive(Debug, Clone, Copy, PartialEq, Eq, Structural)]
pub enum Pin {
    Gpio0,
    Gpio1,
    Gpio9,
}

/// What the module offers to apps.
#[derive(Debug, Clone, Copy, PartialEq, Eq, Structural)]
pub enum Capability {
    EnvSensor(Bme280),
    Accelerometer(Lis3dh),
    Led { pin: Pin, active_low: bool },
}

/// One thing for the driver to wait for.
#[derive(Debug, PartialEq, Eq)]
pub enum DriverRequest<S> {
    /// Create a bit-banged I2C bus.
    CreateI2c { scl: Pin, sda: Pin, frequency_hz: u32 },
    /// Carry this out on the bus.
    Bus(BusRequest),
    /// Offer a capability to apps, under the module's slot and ID.
    Register { slot: S, id: ModuleID, capability: Capability },
}

impl<S> Request for DriverRequest<S> {
    open spec fn answered_by(self, reply: Reply) -> bool {
        match self {
            DriverRequest::CreateI2c { .. } => reply is Some ==> reply.unwrap().len() == 0,
            DriverRequest::Bus(request) => request.answered_by(reply),
            DriverRequest::Register { .. } => reply == Some(Seq::<u8>::empty()),
        }
    }
}

/// The driver of the module.
#[derive(Debug, Clone, Copy, PartialEq, Eq, Structural)]
pub struct EnvSenseDriver;

impl EnvSenseDriver {
    /// The ID of the module.
    pub fn id() -> (id: ModuleID)
        ensures
            id == module_id(),
            id.md0 == ModuleDetectResistor::R1K,
            id.md1 == ModuleDetectResistor::R22K,
    {
        ModuleID { md0: MODULE_MD0, md1: MODULE_MD1 }
    }

    /// Creates the bus, brings both sensors up, and registers what the module
    /// offers.
    pub fn create<S: Copy>(slot: S) -> (create: DriverCreate<S>)
        ensures
            create.given() == slot,
            create.history() == Seq::<Reply>::empty(),
    {
        DriverCreate { slot, state: CreateState::Bus, history: Ghost(Seq::empty()) }
    }
}

/// What the procedure remembers of the replies that it has had.
#[allow(inconsistent_fields)]
enum CreateState {
    /// Waiting for the bus.
    Bus,
    /// Bringing the BME280 up.
    Bme280 { init: Bme280Init },
    /// The BME280 is up; bringing the LIS3DH up.
    Lis3dh { bme280: Bme280, init: Lis3dhInit },
    /// Both sensors are up; registering the environmental sensor.
    EnvSensor { bme280: Bme280, lis3dh: Lis3dh },
    /// Registering the accelerometer.
    Accelerometer { lis3dh: Lis3dh },
    /// Registering the LED.
    Led,
    /// Over.
    Finished { result: Result<(), DriverError> },
}

/// Creates the bus, brings both sensors up, and only then registers what the
/// module offers, so that apps never see a half-initialised module.
pub struct DriverCreate<S: Copy> {
    slot: S,
    state: CreateState,
    history: Ghost<Seq<Reply>>,
}

/// The part of the driver's history that consists of replies to the BME280's
/// start-up procedure, which has had all of its own after four.
pub open spec fn bme280_part(history: Seq<Reply>) -> Seq<Reply> {
    history.subrange(1, if history.len() < 5 { history.len() as int } else { 5 })
}

/// The part of the driver's history that consists of replies to the LIS3DH's
/// start-up procedure, which has had all of its own after three.
pub open spec fn lis3dh_part(history: Seq<Reply>) -> Seq<Reply> {
    history.subrange(5, if history.len() < 8 { history.len() as int } else { 8 })
}

/// The request to register `capability` for the module in slot `slot`.
pub open spec fn registration<S>(slot: S, capability: Capability) -> Progress<
    DriverRequest<S>,
    Result<(), DriverError>,
> {
    Progress::Ask(DriverRequest::Register { slot, id: module_id(), capability })
}

impl<S: Copy> Plan for DriverCreate<S> {
    type Given = S;

    type Request = DriverRequest<S>;

    type Output = Result<(), DriverError>;

    open spec fn plan(slot: S, history: Seq<Reply>) -> Progress<
        DriverRequest<S>,
        Result<(), DriverError>,
    > {
        if history.len() == 0 {
            Progress::Ask(
                DriverRequest::CreateI2c {
                    scl: Pin::Gpio0,
                    sda: Pin::Gpio1,
                    frequency_hz: I2C_FREQUENCY_HZ,
                },
            )
        } else if history[0] is None {
            Progress::Done(Err(DriverError::InitFailed))
        } else {
            match Bme280Init::plan((), bme280_part(history)) {
                Progress::Ask(request) => Progress::Ask(DriverRequest::Bus(request)),
                Progress::Done(Err(_)) => Progress::Done(Err(DriverError::InitFailed)),
                Progress::Done(Ok(bme280)) => match Lis3dhInit::plan((), lis3dh_part(history)) {
                    Progress::Ask(request) => Progress::Ask(DriverRequest::Bus(request)),
                    Progress::Done(Err(_)) => Progress::Done(Err(DriverError::InitFailed)),
                    Progress::Done(Ok(lis3dh)) => if history.len() == 8 {
                        registration(slot, Capability::EnvSensor(bme280))
                    } else if history.len() == 9 {
                        registration(slot, Capability::Accelerometer(lis3dh))
                    } else if history.len() == 10 {
                        registration(slot, Capability::Led { pin: Pin::Gpio9, active_low: false })
                    } else {
                        Progress::Done(Ok(()))
                    },
                },
            }
        }
    }
}

impl<S: Copy> DriverCreate<S> {
    /// The bus was created and the BME280 came up as `bme280`.
    spec fn bme280_is_up(history: Seq<Reply>, bme280: Bme280) -> bool {
        &&& history.len() >= 5
        &&& history[0] is Some
        &&& Bme280Init::plan((), bme280_part(history)) == Progress::<
            BusRequest,
            Result<Bme280, crate::error::SensorError>,
        >::Done(Ok(bme280))
    }

    /// Likewise, and the LIS3DH came up too.
    spec fn both_are_up(history: Seq<Reply>, bme280: Bme280, lis3dh: Lis3dh) -> bool {
        &&& history.len() >= 8
        &&& Self::bme280_is_up(history, bme280)
        &&& Lis3dhInit::plan((), lis3dh_part(history)) == Progress::<
            BusRequest,
            Result<Lis3dh, crate::error::SensorError>,
        >::Done(Ok(lis3dh))
    }

    /// The state holds what the plan needs of the history.
    #[verifier::type_invariant]
    spec fn remembers(self) -> bool {
        let history = self.history@;
        &&& crate::procedure::is_transcript::<Self>(self.slot, history)
        &&& match self.state {
            CreateState::Bus => history.len() == 0,
            CreateState::Bme280 { init } => {
                &&& 1 <= history.len() < 5
                &&& history[0] is Some
                &&& init.history() == bme280_part(history)
                &&& Bme280Init::plan((), init.history()) is Ask
            },
            CreateState::Lis3dh { bme280, init } => {
                &&& history.len() < 8
                &&& Self::bme280_is_up(history, bme280)
                &&& init.history() == lis3dh_part(history)
                &&& Lis3dhInit::plan((), init.history()) is Ask
            },
            CreateState::EnvSensor { bme280, lis3dh } => {
                &&& history.len() == 8
                &&& Self::both_are_up(history, bme280, lis3dh)
            },
            CreateState::Accelerometer { lis3dh } => {
                &&& history.len() == 9
                &&& exists|bme280: Bme280| Self::both_are_up(history, bme280, lis3dh)
            },
            CreateState::Led => {
                &&& history.len() == 10
                &&& exists|bme280: Bme280, lis3dh: Lis3dh|
                    Self::both_are_up(history, bme280, lis3dh)
            },
            CreateState::Finished { result } => Self::plan(self.slot, history) == Progress::<
                DriverRequest<S>,
                Result<(), DriverError>,
            >::Done(result),
        }
    }
}

impl<S: Copy> Procedure for DriverCreate<S> {
    closed spec fn given(&self) -> S {
        self.slot
    }

    closed spec fn history(&self) -> Seq<Reply> {
        self.history@
    }

    fn progress(&self) -> Progress<DriverRequest<S>, Result<(), DriverError>> {
        proof {
            use_type_invariant(self);
        }
        match &self.state {
            CreateState::Bus => Progress::Ask(
                DriverRequest::CreateI2c {
                    scl: Pin::Gpio0,
                    sda: Pin::Gpio1,
                    frequency_hz: I2C_FREQUENCY_HZ,
                },
            ),
            CreateState::Bme280 { init } => match init.progress() {
                Progress::Ask(request) => Progress::Ask(DriverRequest::Bus(request)),
                Progress::Done(_) => Progress::Done(Err(DriverError::InitFailed)),
            },
            CreateState::Lis3dh { init, .. } => match init.progress() {
                Progress::Ask(request) => Progress::Ask(DriverRequest::Bus(request)),
                Progress::Done(_) => Progress::Done(Err(DriverError::InitFailed)),
            },
            CreateState::EnvSensor { bme280, .. } => Progress::Ask(
                DriverRequest::Register {
                    slot: self.slot,
                    id: EnvSenseDriver::id(),
                    capability: Capability::EnvSensor(*bme280),
                },
            ),
            CreateState::Accelerometer { lis3dh } => Progress::Ask(
                DriverRequest::Register {
                    slot: self.slot,
                    id: EnvSenseDriver::id(),
                    capability: Capability::Accelerometer(*lis3dh),
                },
            ),
            CreateState::Led => Progress::Ask(
                DriverRequest::Register {
                    slot: self.slot,
                    id: EnvSenseDriver::id(),
                    capability: Capability::Led { pin: Pin::Gpio9, active_low: false },
                },
            ),
            CreateState::Finished { result } => Progress::Done(*result),
        }
    }

    fn reply(self, outcome: Result<Vec<u8>, Fault>) -> Self {
        proof {
            use_type_invariant(&self);
            crate::procedure::lemma_extend_transcript::<Self>(
                self.slot,
                self.history@,
                crate::procedure::reply_of(outcome),
            );
        }
        let ghost before = self.history@;
        let history: Ghost<Seq<Reply>> = Ghost(before.push(crate::procedure::reply_of(outcome)));
        proof {
            if before.len() >= 5 {
                assert(bme280_part(history@) =~= bme280_part(before));
            }
            if before.len() >= 8 {
                assert(lis3dh_part(history@) =~= lis3dh_part(before));
            }
        }
        let state = match self.state {
            CreateState::Bus => match outcome {
                Ok(_) => {
                    let init = Bme280::init();
                    assert(bme280_part(history@) =~= init.history());
                    CreateState::Bme280 { init }
                },
                Err(_) => CreateState::Finished { result: Err(DriverError::InitFailed) },
            },
            CreateState::Bme280 { init } => {
                let next = init.reply(outcome);
                assert(bme280_part(history@) =~= next.history());
                match next.progress() {
                    Progress::Ask(_) => CreateState::Bme280 { init: next },
                    Progress::Done(Ok(bme280)) => {
                        let init = Lis3dh::init();
                        assert(lis3dh_part(history@) =~= init.history());
                        CreateState::Lis3dh { bme280, init }
                    },
                    Progress::Done(Err(_)) => CreateState::Finished {
                        result: Err(DriverError::InitFailed),
                    },
                }
            },
            CreateState::Lis3dh { bme280, init } => {
                let next = init.reply(outcome);
                assert(lis3dh_part(history@) =~= next.history());
                match next.progress() {
                    Progress::Ask(_) => CreateState::Lis3dh { bme280, init: next },
                    Progress::Done(Ok(lis3dh)) => CreateState::EnvSensor { bme280, lis3dh },
                    Progress::Done(Err(_)) => CreateState::Finished {
                        result: Err(DriverError::InitFailed),
                    },
                }
            },
            CreateState::EnvSensor { bme280, lis3dh } => {
                assert(Self::both_are_up(history@, bme280, lis3dh));
                CreateState::Accelerometer { lis3dh }
            },
            CreateState::Accelerometer { lis3dh } => {
                proof {
                    let bme280 = choose|bme280: Bme280| Self::both_are_up(before, bme280, lis3dh);
                    assert(Self::both_are_up(history@, bme280, lis3dh));
                }
                CreateState::Led
            },
            CreateState::Led => CreateState::Finished { result: Ok(()) },
            CreateState::Finished { result } => CreateState::Finished { result },
        };
        DriverCreate { slot: self.slot, state, history }
    }
}

/// The BME280 answered with its chip ID.
pub open spec fn bme280_answered(history: Seq<Reply>) -> bool {
    history.len() > 1 && crate::bus::reads_as(history[1], crate::bme280::BME280_CHIP_ID_VALUE)
}

/// The LIS3DH answered with its chip ID.
pub open spec fn lis3dh_answered(history: Seq<Reply>) -> bool {
    history.len() > 5 && crate::bus::reads_as(history[5], crate::lis3dh::LIS3DH_WHO_AM_I_VALUE)
}

/// Bringing the module up is bringing up one sensor after the other: the
/// replies are, after that to the creation of the bus, those of a course of
/// the BME280's start-up, and once that has succeeded, those of a course of
/// the LIS3DH's.
pub proof fn law_create_runs_both_inits<S: Copy>(slot: S, history: Seq<Reply>)
    requires
        crate::procedure::is_transcript::<DriverCreate<S>>(slot, history),
    ensures
        history.len() <= 11,
        forall|i: int| 0 <= i < history.len() - 1 ==> (#[trigger] history[i]) is Some,
        history.len() >= 1 ==> crate::procedure::is_transcript::<Bme280Init>((), bme280_part(history)),
        history.len() >= 5 ==> crate::procedure::is_transcript::<Lis3dhInit>((), lis3dh_part(history)),
        history.len() > 2 ==> bme280_answered(history),
        history.len() > 6 ==> lis3dh_answered(history),
        history.len() > 8 ==> history[history.len() - 1] is Some,
    decreases history.len(),
{
    if history.len() > 0 {
        let before = history.drop_last();
        let reply = history.last();
        law_create_runs_both_inits(slot, before);
        assert forall|i: int| 0 <= i < history.len() - 1 implies (#[trigger] history[i]) is Some by {
            assert(before[i] == history[i]);
            if i == before.len() - 1 {
                if 1 <= before.len() <= 5 {
                    crate::bme280::init::law_init_outcomes(bme280_part(before));
                    if before.len() > 1 {
                        assert(bme280_part(before)[before.len() - 2] == before[i]);
                    }
                } else if 6 <= before.len() <= 8 {
                    crate::lis3dh::law_init_outcomes(lis3dh_part(before));
                    assert(lis3dh_part(before)[before.len() - 6] == before[i]);
                }
            }
        }
        if before.len() == 0 {
            assert(bme280_part(history) =~= Seq::<Reply>::empty());
        } else {
            crate::bme280::init::law_init_outcomes(bme280_part(before));
            crate::bme280::init::law_init_is_bounded(bme280_part(before));
            if before.len() > 1 {
                assert(bme280_part(before)[0] == history[1]);
            }
            if before.len() < 5 {
                crate::procedure::lemma_extend_transcript::<Bme280Init>((), bme280_part(before), reply);
                assert(bme280_part(history) =~= bme280_part(before).push(reply));
                if history.len() == 5 {
                    assert(lis3dh_part(history) =~= Seq::<Reply>::empty());
                }
            } else {
                assert(bme280_part(history) =~= bme280_part(before));
                crate::lis3dh::law_init_outcomes(lis3dh_part(before));
                if before.len() > 5 {
                    assert(lis3dh_part(before)[0] == history[5]);
                }
                if before.len() < 8 {
                    crate::procedure::lemma_extend_transcript::<Lis3dhInit>(
                        (),
                        lis3dh_part(before),
                        reply,
                    );
                    assert(lis3dh_part(history) =~= lis3dh_part(before).push(reply));
                } else {
                    assert(lis3dh_part(history) =~= lis3dh_part(before));
                }
            }
        }
    }
}

/// How bringing the module up ends: it succeeds if and only if all eleven
/// requests were carried out and both sensors answered with their chip IDs; it
/// fails if and only if a request could not be carried out or a sensor
/// answered with another chip ID.
pub proof fn law_create_outcomes<S: Copy>(slot: S, history: Seq<Reply>)
    requires
        crate::procedure::is_transcript::<DriverCreate<S>>(slot, history),
    ensures
        DriverCreate::<S>::plan(slot, history) == Progress::<
            DriverRequest<S>,
            Result<(), DriverError>,
        >::Done(
            Ok(()),
        ) <==> history.len() == 11,
        history.len() == 11 ==> {
            &&& bme280_answered(history)
            &&& lis3dh_answered(history)
            &&& forall|i: int| 0 <= i < 11 ==> (#[trigger] history[i]) is Some
        },
        DriverCreate::<S>::plan(slot, history) == Progress::<
            DriverRequest<S>,
            Result<(), DriverError>,
        >::Done(
            Err(DriverError::InitFailed),
        ) <==> {
            ||| exists|i: int| 0 <= i < history.len() && (#[trigger] history[i]) is None
            ||| history.len() > 1 && !bme280_answered(history)
            ||| history.len() > 5 && !lis3dh_answered(history)
        },
{
    law_create_runs_both_inits(slot, history);
    if history.len() > 0 {
        let last = history.len() - 1;
        crate::bme280::init::law_init_outcomes(bme280_part(history));
        if history.len() > 1 {
            assert(bme280_part(history)[0] == history[1]);
        }
        if history.len() <= 5 {
            assert forall|i: int|
                0 <= i < bme280_part(history).len() implies #[trigger] bme280_part(history)[i]
                == history[i + 1] by {}
            if history.len() > 1 {
                assert(bme280_part(history)[last - 1] == history[last]);
            }
        } else {
            assert forall|i: int|
                0 <= i < 4 implies (#[trigger] bme280_part(history)[i]) is Some by {
                assert(bme280_part(history)[i] == history[i + 1]);
            }
        }
        if history.len() >= 5 {
            crate::lis3dh::law_init_outcomes(lis3dh_part(history));
            if history.len() > 5 {
                assert(lis3dh_part(history)[0] == history[5]);
                if history.len() <= 8 {
                    assert(lis3dh_part(history)[last - 5] == history[last]);
                }
            }
            assert forall|i: int|
                0 <= i < lis3dh_part(history).len() implies #[trigger] lis3dh_part(history)[i]
                == history[i + 5] by {}
        }
    }
}

/// A capability is registered only once both sensors have answered and every
/// transfer of their start-up has gone through, so apps never see a
/// half-initialised module. It is registered under the slot that the driver was
/// given and the module's ID.
pub proof fn law_register_only_once_both_are_up<S: Copy>(
    slot: S,
    history: Seq<Reply>,
    under: S,
    id: ModuleID,
    capability: Capability,
)
    requires
        crate::procedure::is_transcript::<DriverCreate<S>>(slot, history),
        DriverCreate::<S>::plan(slot, history) == Progress::<
            DriverRequest<S>,
            Result<(), DriverError>,
        >::Ask(DriverRequest::Register { slot: under, id, capability }),
    ensures
        under == slot,
        id == module_id(),
        8 <= history.len() <= 10,
        forall|i: int| 0 <= i < history.len() ==> (#[trigger] history[i]) is Some,
        bme280_answered(history),
        lis3dh_answered(history),
{
    law_create_outcomes(slot, history);
    law_create_runs_both_inits(slot, history);
    crate::bme280::init::law_init_outcomes(bme280_part(history));
    crate::lis3dh::law_init_outcomes(lis3dh_part(history));
}

/// The driver waits for a capability to be registered.
pub open spec fn registers<S>(progress: Progress<DriverRequest<S>, Result<(), DriverError>>) -> bool {
    progress matches Progress::Ask(DriverRequest::Register { .. })
}

/// Where bringing the module up fails, nothing has been registered.
pub proof fn law_failed_create_registers_nothing<S: Copy>(slot: S, history: Seq<Reply>, k: int)
    requires
        crate::procedure::is_transcript::<DriverCreate<S>>(slot, history),
        DriverCreate::<S>::plan(slot, history) == Progress::<
            DriverRequest<S>,
            Result<(), DriverError>,
        >::Done(Err(DriverError::InitFailed)),
        0 <= k <= history.len(),
    ensures
        !registers(DriverCreate::<S>::plan(slot, history.take(k))),
{
    match DriverCreate::<S>::plan(slot, history.take(k)) {
        Progress::Ask(DriverRequest::Register { slot: under, id, capability }) => {
            crate::procedure::lemma_transcript_prefix::<DriverCreate<S>>(slot, history, k);
            law_register_only_once_both_are_up(slot, history.take(k), under, id, capability);
            law_create_outcomes(slot, history);
            law_create_runs_both_inits(slot, history);
            assert(history.take(k)[1] == history[1]);
            assert(history.take(k)[5] == history[5]);
            assert(history.take(k)[7] == history[7]);
            assert(history[history.len() - 1] is Some) by {
                if k == history.len() {
                    assert(history.take(k) =~= history);
                }
            }
        },
        _ => {},
    }
}

/// Where bringing the module up succeeds, exactly the last three requests were
/// registrations. Under the slot that the driver was given and the module's ID
/// they registered the environmental sensor with the calibration that was read
/// from it, the accelerometer, and the LED on GPIO9, in this order.
pub proof fn law_successful_create_registers_everything<S: Copy>(slot: S, history: Seq<Reply>)
    requires
        crate::procedure::is_transcript::<DriverCreate<S>>(slot, history),
        DriverCreate::<S>::plan(slot, history) == Progress::<
            DriverRequest<S>,
            Result<(), DriverError>,
        >::Done(Ok(())),
    ensures
        history.len() == 11,
        DriverCreate::<S>::plan(slot, history.take(8)) == registration(
            slot,
            Capability::EnvSensor(
                Bme280 {
                    calibration: crate::bme280::calibration::calibration_in(
                        history[2].unwrap(),
                        history[3].unwrap(),
                    ),
                },
            ),
        ),
        DriverCreate::<S>::plan(slot, history.take(9)) == registration(
            slot,
            Capability::Accelerometer(Lis3dh),
        ),
        DriverCreate::<S>::plan(slot, history.take(10)) == registration(
            slot,
            Capability::Led { pin: Pin::Gpio9, active_low: false },
        ),
        forall|k: int|
            0 <= k <= 11 ==> (registers(
                DriverCreate::<S>::plan(slot, #[trigger] history.take(k)),
            ) <==> 8 <= k <= 10),
        DriverCreate::<S>::plan(slot, history.take(8)) == Progress::<
            DriverRequest<S>,
            Result<(), DriverError>,
        >::Ask(
            DriverRequest::Register {
                slot,
                id: ModuleID { md0: ModuleDetectResistor::R1K, md1: ModuleDetectResistor::R22K },
                capability: Capability::EnvSensor(
                    Bme280 {
                        calibration: crate::bme280::calibration::calibration_in(
                            history[2].unwrap(),
                            history[3].unwrap(),
                        ),
                    },
                ),
            },
        ),
        DriverCreate::<S>::plan(slot, history.take(9)) == Progress::<
            DriverRequest<S>,
            Result<(), DriverError>,
        >::Ask(
            DriverRequest::Register {
                slot,
                id: ModuleID { md0: ModuleDetectResistor::R1K, md1: ModuleDetectResistor::R22K },
                capability: Capability::Accelerometer(Lis3dh),
            },
        ),
        DriverCreate::<S>::plan(slot, history.take(10)) == Progress::<
            DriverRequest<S>,
            Result<(), DriverError>,
        >::Ask(
            DriverRequest::Register {
                slot,
                id: ModuleID { md0: ModuleDetectResistor::R1K, md1: ModuleDetectResistor::R22K },
                capability: Capability::Led { pin: Pin::Gpio9, active_low: false },
            },
        ),
{
    law_create_outcomes(slot, history);
    law_create_runs_both_inits(slot, history);
    crate::bme280::init::law_init_outcomes(bme280_part(history));
    crate::lis3dh::law_init_outcomes(lis3dh_part(history));
    assert forall|k: int| 8 <= k <= 10 implies {
        &&& bme280_part(#[trigger] history.take(k)) == bme280_part(history)
        &&& lis3dh_part(history.take(k)) == lis3dh_part(history)
    } by {
        assert(bme280_part(history.take(k)) =~= bme280_part(history));
        assert(lis3dh_part(history.take(k)) =~= lis3dh_part(history));
    }
    assert(bme280_part(history)[1] == history[2]);
    assert(bme280_part(history)[2] == history[3]);
    assert forall|k: int| 0 <= k <= 11 implies (registers(
        DriverCreate::<S>::plan(slot, #[trigger] history.take(k)),
    ) <==> 8 <= k <= 10) by {
        match DriverCreate::<S>::plan(slot, history.take(k)) {
            Progress::Ask(DriverRequest::Register { slot: under, id, capability }) => {
                crate::procedure::lemma_transcript_prefix::<DriverCreate<S>>(slot, history, k);
                law_register_only_once_both_are_up(slot, history.take(k), under, id, capability);
            },
            _ => {},
        }
    }
}

/// There is one bus: the driver asks for it at its start, on GPIO0 and GPIO1
/// at 100 kHz, and never again.
pub proof fn law_one_bus<S: Copy>(slot: S, history: Seq<Reply>)
    requires
        crate::procedure::is_transcript::<DriverCreate<S>>(slot, history),
    ensures
        (DriverCreate::<S>::plan(slot, history) matches Progress::Ask(
            DriverRequest::CreateI2c { .. },
        )) <==> history.len() == 0,
        history.len() == 0 ==> DriverCreate::<S>::plan(slot, history) == Progress::<
            DriverRequest<S>,
            Result<(), DriverError>,
        >::Ask(
            DriverRequest::CreateI2c { scl: Pin::Gpio0, sda: Pin::Gpio1, frequency_hz: 100_000 },
        ),
{
}

/// What goes over the bus while the module is brought up goes to the BME280
/// until it is up, and after that to the LIS3DH.
pub proof fn law_create_transfers<S: Copy>(slot: S, history: Seq<Reply>, request: BusRequest)
    requires
        crate::procedure::is_transcript::<DriverCreate<S>>(slot, history),
        DriverCreate::<S>::plan(slot, history) == Progress::<
            DriverRequest<S>,
            Result<(), DriverError>,
        >::Ask(
            DriverRequest::Bus(request),
        ),
    ensures
        1 <= history.len() < 8,
        request.is_transfer_with(crate::bme280::BME280_ADDR) <==> history.len() < 5,
        request.is_transfer_with(crate::lis3dh::LIS3DH_ADDR) <==> history.len() >= 5,
{
    law_create_runs_both_inits(slot, history);
    crate::bme280::init::law_init_outcomes(bme280_part(history));
    crate::bme280::init::law_init_is_bounded(bme280_part(history));
    if history.len() >= 5 {
        crate::lis3dh::law_init_outcomes(lis3dh_part(history));
        crate::lis3dh::law_init_is_bounded(lis3dh_part(history));
    }
}

/// A bus that is asked for comes or does not. A transfer has the replies that
/// it has anywhere. A registration always goes through.
pub proof fn law_driver_requests<S>(
    slot: S,
    id: ModuleID,
    capability: Capability,
    scl: Pin,
    sda: Pin,
    frequency_hz: u32,
    request: BusRequest,
    reply: Reply,
)
    ensures
        (DriverRequest::<S>::CreateI2c { scl, sda, frequency_hz }).answered_by(reply) <==> (
        reply is Some ==> reply.unwrap().len() == 0),
        DriverRequest::<S>::Bus(request).answered_by(reply) <==> request.answered_by(reply),
        (DriverRequest::Register { slot, id, capability }).answered_by(reply) <==> reply is Some
            && reply.unwrap().len() == 0,
{
    if reply is Some && reply.unwrap().len() == 0 {
        assert(reply.unwrap() =~= Seq::<u8>::empty());
    }
}

/// What the driver does on each reply, where those before the last brought
/// bytes. It asks for the bus, then brings up the BME280, whose chip ID must be
/// 0x60, then the LIS3DH, whose chip ID must be 0x33, and then registers the
/// environmental sensor with the calibration that it read from it, the
/// accelerometer and the LED. Whatever fails before that is a failure of the
/// whole.
pub proof fn law_create_course<S: Copy>(slot: S, history: Seq<Reply>)
    requires
        history.len() <= 11,
        forall|i: int| 0 <= i < history.len() - 1 ==> (#[trigger] history[i]) is Some,
        history.len() > 8 ==> history[history.len() - 1] is Some,
    ensures
        ({
            let n = history.len() as int;
            let plan = DriverCreate::<S>::plan(slot, history);
            let failed: Progress<DriverRequest<S>, Result<(), DriverError>> = Progress::Done(
                Err(DriverError::InitFailed),
            );
            &&& n > 0 && history[n - 1] is None ==> plan == failed
            &&& n > 1 && history[1] is Some && history[1].unwrap()[0] != 0x60 ==> plan == failed
            &&& n > 5 && history[5] is Some && history[5].unwrap()[0] != 0x33 ==> plan == failed
            &&& ({
                &&& n > 0 ==> history[n - 1] is Some
                &&& n > 1 ==> history[1].unwrap()[0] == 0x60
                &&& n > 5 ==> history[5].unwrap()[0] == 0x33
            }) ==> {
                let id = ModuleID { md0: ModuleDetectResistor::R1K, md1: ModuleDetectResistor::R22K };
                let calibration = crate::bme280::calibration::calibration_in(
                    history[2].unwrap(),
                    history[3].unwrap(),
                );
                &&& n == 0 ==> plan == Progress::<DriverRequest<S>, Result<(), DriverError>>::Ask(
                    DriverRequest::CreateI2c { scl: Pin::Gpio0, sda: Pin::Gpio1, frequency_hz: 100_000 },
                )
                &&& n == 1 ==> plan == Progress::<DriverRequest<S>, Result<(), DriverError>>::Ask(
                    DriverRequest::Bus(BusRequest::Read { address: 0x77, reg: 0xD0, len: 1 }),
                )
                &&& n == 2 ==> plan == Progress::<DriverRequest<S>, Result<(), DriverError>>::Ask(
                    DriverRequest::Bus(BusRequest::Read { address: 0x77, reg: 0x88, len: 26 }),
                )
                &&& n == 3 ==> plan == Progress::<DriverRequest<S>, Result<(), DriverError>>::Ask(
                    DriverRequest::Bus(BusRequest::Read { address: 0x77, reg: 0xE1, len: 7 }),
                )
                &&& n == 4 ==> plan == Progress::<DriverRequest<S>, Result<(), DriverError>>::Ask(
                    DriverRequest::Bus(BusRequest::Write { address: 0x77, reg: 0xF2, value: 0x01 }),
                )
                &&& n == 5 ==> plan == Progress::<DriverRequest<S>, Result<(), DriverError>>::Ask(
                    DriverRequest::Bus(BusRequest::Read { address: 0x19, reg: 0x0F, len: 1 }),
                )
                &&& n == 6 ==> plan == Progress::<DriverRequest<S>, Result<(), DriverError>>::Ask(
                    DriverRequest::Bus(BusRequest::Write { address: 0x19, reg: 0x20, value: 0x57 }),
                )
                &&& n == 7 ==> plan == Progress::<DriverRequest<S>, Result<(), DriverError>>::Ask(
                    DriverRequest::Bus(BusRequest::Write { address: 0x19, reg: 0x23, value: 0x88 }),
                )
                &&& n == 8 ==> plan == Progress::<DriverRequest<S>, Result<(), DriverError>>::Ask(
                    DriverRequest::Register { slot, id, capability: Capability::EnvSensor(Bme280 { calibration }) },
                )
                &&& n == 9 ==> plan == Progress::<DriverRequest<S>, Result<(), DriverError>>::Ask(
                    DriverRequest::Register { slot, id, capability: Capability::Accelerometer(Lis3dh) },
                )
                &&& n == 10 ==> plan == Progress::<DriverRequest<S>, Result<(), DriverError>>::Ask(
                    DriverRequest::Register {
                        slot,
                        id,
                        capability: Capability::Led { pin: Pin::Gpio9, active_low: false },
                    },
                )
                &&& n == 11 ==> plan == Progress::<DriverRequest<S>, Result<(), DriverError>>::Done(
                    Ok(()),
                )
            }
        }),
{
    let n = history.len() as int;
    if n > 0 {
        let part = bme280_part(history);
        assert forall|i: int| 0 <= i < part.len() - 1 implies (#[trigger] part[i]) is Some by {
            assert(part[i] == history[i + 1]);
        }
        assert(forall|i: int| 0 <= i < part.len() ==> #[trigger] part[i] == history[i + 1]);
        if part.len() > 0 {
            assert(part.last() == history[part.len() as int]);
        }
        crate::bme280::init::law_init_course(part);
    }
    if n >= 5 {
        let part = lis3dh_part(history);
        assert forall|i: int| 0 <= i < part.len() - 1 implies (#[trigger] part[i]) is Some by {
            assert(part[i] == history[i + 5]);
        }
        assert(forall|i: int| 0 <= i < part.len() ==> #[trigger] part[i] == history[i + 5]);
        if part.len() > 0 {
            assert(part.last() == history[part.len() as int + 4]);
        }
        crate::lis3dh::law_init_course(part);
    }
}

} // verus!
