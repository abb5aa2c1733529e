//! Bringing the BME280 up.

use crate::bme280::{
    Bme280, Bme280Calibration, BME280_ADDR, BME280_CALIB_H, BME280_CALIB_TP, BME280_CHIP_ID,
    BME280_CHIP_ID_VALUE, BME280_CTRL_HUM, BME280_CTRL_HUM_VALUE,
};
use crate::bus::BusRequest;
use crate::error::{Fault, SensorError};
use crate::procedure::{Plan, Procedure, Progress, Reply};
use vstd::prelude::*;

verus! {

/// What the procedure remembers of the replies that it has had.
enum InitState {
    /// Waiting for the chip ID.
    ChipId,
    /// The chip ID was right; waiting for the first calibration block.
    CalibTp,
    /// Waiting for the second calibration block.
    CalibH { tp: [u8; 26] },
    /// Both blocks are there; waiting for humidity oversampling to be set.
    CtrlHum { tp: [u8; 26], h: [u8; 7] },
    /// Over.
    Finished { result: Result<Bme280, SensorError> },
}

/// Checks the chip ID, loads the factory calibration and sets up humidity
/// oversampling.
pub struct Bme280Init {
    state: InitState,
    history: Ghost<Seq<Reply>>,
}

impl Plan for Bme280Init {
    type Given = ();

    type Request = BusRequest;

    type Output = Result<Bme280, SensorError>;

    open spec fn plan(given: (), history: Seq<Reply>) -> Progress<BusRequest, Result<Bme280, SensorError>> {
        if history.len() > 0 && history.last() is None {
            Progress::Done(Err(SensorError::BusError))
        } else if history.len() == 0 {
            Progress::Ask(
                BusRequest::Read { address: BME280_ADDR, reg: BME280_CHIP_ID, len: 1 },
            )
        } else if !crate::bus::reads_as(history[0], BME280_CHIP_ID_VALUE) {
            Progress::Done(Err(SensorError::NoDevice))
        } else if history.len() == 1 {
            Progress::Ask(
                BusRequest::Read { address: BME280_ADDR, reg: BME280_CALIB_TP, len: 26 },
            )
        } else if history.len() == 2 {
            Progress::Ask(
                BusRequest::Read { address: BME280_ADDR, reg: BME280_CALIB_H, len: 7 },
            )
        } else if history.len() == 3 {
            Progress::Ask(
                BusRequest::Write {
                    address: BME280_ADDR,
                    reg: BME280_CTRL_HUM,
                    value: BME280_CTRL_HUM_VALUE,
                },
            )
        } else {
            Progress::Done(
                Ok(
                    Bme280 {
                        calibration: crate::bme280::calibration::calibration_in(
                            history[1].unwrap(),
                            history[2].unwrap(),
                        ),
                    },
                ),
            )
        }
    }
}

impl Bme280Init {
    /// The state holds what the plan needs of the history.
    #[verifier::type_invariant]
    spec fn remembers(self) -> bool {
        let history = self.history@;
        &&& crate::procedure::is_transcript::<Self>((), history)
        &&& match self.state {
            InitState::ChipId => history.len() == 0,
            InitState::CalibTp => {
                &&& history.len() == 1
                &&& crate::bus::reads_as(history[0], BME280_CHIP_ID_VALUE)
            },
            InitState::CalibH { tp } => {
                &&& history.len() == 2
                &&& crate::bus::reads_as(history[0], BME280_CHIP_ID_VALUE)
                &&& history[1] == Some(tp@)
            },
            InitState::CtrlHum { tp, h } => {
                &&& history.len() == 3
                &&& crate::bus::reads_as(history[0], BME280_CHIP_ID_VALUE)
                &&& history[1] == Some(tp@)
                &&& history[2] == Some(h@)
            },
            InitState::Finished { result } => Self::plan((), history) == Progress::<
                BusRequest,
                Result<Bme280, SensorError>,
            >::Done(result),
        }
    }

    /// The procedure before its first request.
    pub(crate) fn start() -> (init: Self)
        ensures
            init.history() == Seq::<Reply>::empty(),
    {
        Bme280Init { state: InitState::ChipId, history: Ghost(Seq::empty()) }
    }
}

impl Procedure for Bme280Init {
    open spec fn given(&self) -> () {
        ()
    }

    closed spec fn history(&self) -> Seq<Reply> {
        self.history@
    }

    fn progress(&self) -> Progress<BusRequest, Result<Bme280, SensorError>> {
        proof {
            use_type_invariant(self);
        }
        match self.state {
            InitState::ChipId => Progress::Ask(
                BusRequest::Read { address: BME280_ADDR, reg: BME280_CHIP_ID, len: 1 },
            ),
            InitState::CalibTp => Progress::Ask(
                BusRequest::Read { address: BME280_ADDR, reg: BME280_CALIB_TP, len: 26 },
            ),
            InitState::CalibH { .. } => Progress::Ask(
                BusRequest::Read { address: BME280_ADDR, reg: BME280_CALIB_H, len: 7 },
            ),
            InitState::CtrlHum { .. } => Progress::Ask(
                BusRequest::Write {
                    address: BME280_ADDR,
                    reg: BME280_CTRL_HUM,
                    value: BME280_CTRL_HUM_VALUE,
                },
            ),
            InitState::Finished { result } => Progress::Done(result),
        }
    }

    fn reply(self, outcome: Result<Vec<u8>, Fault>) -> Self {
        proof {
            use_type_invariant(&self);
        }
        let history: Ghost<Seq<Reply>> = Ghost(
            self.history@.push(crate::procedure::reply_of(outcome)),
        );
        proof {
            crate::procedure::lemma_extend_transcript::<Self>(
                (),
                self.history@,
                crate::procedure::reply_of(outcome),
            );
        }
        let bytes = match outcome {
            Ok(bytes) => bytes,
            Err(fault) => {
                let result = Err(SensorError::from(fault));
                return Bme280Init { state: InitState::Finished { result }, history };
            },
        };
        let state = match self.state {
            InitState::ChipId => {
                if bytes[0] != BME280_CHIP_ID_VALUE {
                    InitState::Finished { result: Err(SensorError::NoDevice) }
                } else {
                    InitState::CalibTp
                }
            },
            InitState::CalibTp => InitState::CalibH { tp: crate::bytes::to_array(&bytes) },
            InitState::CalibH { tp } => InitState::CtrlHum { tp, h: crate::bytes::to_array(&bytes) },
            InitState::CtrlHum { tp, h } => InitState::Finished {
                result: Ok(Bme280 { calibration: Bme280Calibration::parse(&tp, &h) }),
            },
            InitState::Finished { result } => InitState::Finished { result },
        };
        Bme280Init { state, history }
    }
}

/// A start-up of the BME280 takes at most four transfers, and each of them is
/// with the BME280.
pub proof fn law_init_is_bounded(history: Seq<Reply>)
    requires
        crate::procedure::is_transcript::<Bme280Init>((), history),
    ensures
        history.len() <= 4,
        forall|i: int| 0 <= i < history.len() - 1 ==> (#[trigger] history[i]) is Some,
        history.len() > 1 ==> crate::bus::reads_as(history[0], BME280_CHIP_ID_VALUE),
        match Bme280Init::plan((), history) {
            Progress::Ask(request) => request.is_transfer_with(BME280_ADDR),
            Progress::Done(_) => true,
        },
    decreases history.len(),
{
    if history.len() > 0 {
        let before = history.drop_last();
        law_init_is_bounded(before);
        assert forall|i: int| 0 <= i < history.len() - 1 implies (#[trigger] history[i]) is Some by {
            assert(before[i] == history[i]);
        }
    }
}

/// How a start-up of the BME280 ends: with a bus error if and only if a
/// transfer failed, with a missing device if and only if the chip ID is not
/// the BME280's, and otherwise, after four transfers, with the calibration
/// that the two register blocks hold.
pub proof fn law_init_outcomes(history: Seq<Reply>)
    requires
        crate::procedure::is_transcript::<Bme280Init>((), history),
    ensures
        Bme280Init::plan((), history) == Progress::<BusRequest, Result<Bme280, SensorError>>::Done(
            Err(SensorError::BusError),
        ) <==> exists|i: int| 0 <= i < history.len() && (#[trigger] history[i]) is None,
        Bme280Init::plan((), history) == Progress::<BusRequest, Result<Bme280, SensorError>>::Done(
            Err(SensorError::NoDevice),
        ) <==> {
            &&& history.len() > 0
            &&& history[0] is Some
            &&& !crate::bus::reads_as(history[0], BME280_CHIP_ID_VALUE)
        },
        (Bme280Init::plan((), history) is Done && Bme280Init::plan((), history)->Done_0 is Ok) <==> {
            &&& history.len() == 4
            &&& crate::bus::reads_as(history[0], BME280_CHIP_ID_VALUE)
            &&& forall|i: int| 0 <= i < 4 ==> (#[trigger] history[i]) is Some
        },
        match Bme280Init::plan((), history) {
            Progress::Ask(_) => true,
            Progress::Done(Ok(bme280)) => bme280.calibration
                == crate::bme280::calibration::calibration_in(
                history[1].unwrap(),
                history[2].unwrap(),
            ),
            Progress::Done(Err(error)) => error == SensorError::BusError || error
                == SensorError::NoDevice,
        },
{
    law_init_is_bounded(history);
    if history.len() > 0 {
        assert(history.last() == history[history.len() - 1]);
    }
}

/// What the chip ID register reads decides: a start-up whose chip ID was read
/// ends with a missing device if and only if the byte is not 0x60, and one that
/// succeeds has read 0x60.
pub proof fn law_chip_id_decides(history: Seq<Reply>)
    requires
        crate::procedure::is_transcript::<Bme280Init>((), history),
        history.len() > 0,
        history[0] is Some,
    ensures
        Bme280Init::plan((), history) == Progress::<BusRequest, Result<Bme280, SensorError>>::Done(
            Err(SensorError::NoDevice),
        ) <==> history[0].unwrap()[0] != 0x60,
        (Bme280Init::plan((), history) matches Progress::Done(Ok(_))) ==> history[0].unwrap()[0]
            == 0x60,
        history.len() > 1 ==> history[0].unwrap()[0] == 0x60,
{
    law_init_is_bounded(history);
}

/// A BME280 that came up was asked, in this order, for its chip ID, for both
/// calibration blocks and to set humidity oversampling, and did all of it.
pub proof fn law_init_requests(history: Seq<Reply>, bme280: Bme280)
    requires
        crate::procedure::is_transcript::<Bme280Init>((), history),
        Bme280Init::plan((), history) == Progress::<BusRequest, Result<Bme280, SensorError>>::Done(
            Ok(bme280),
        ),
    ensures
        Bme280Init::plan((), history.take(0)) == Progress::<
            BusRequest,
            Result<Bme280, SensorError>,
        >::Ask(BusRequest::Read { address: BME280_ADDR, reg: BME280_CHIP_ID, len: 1 }),
        Bme280Init::plan((), history.take(1)) == Progress::<
            BusRequest,
            Result<Bme280, SensorError>,
        >::Ask(BusRequest::Read { address: BME280_ADDR, reg: BME280_CALIB_TP, len: 26 }),
        Bme280Init::plan((), history.take(2)) == Progress::<
            BusRequest,
            Result<Bme280, SensorError>,
        >::Ask(BusRequest::Read { address: BME280_ADDR, reg: BME280_CALIB_H, len: 7 }),
        Bme280Init::plan((), history.take(3)) == Progress::<
            BusRequest,
            Result<Bme280, SensorError>,
        >::Ask(
            BusRequest::Write {
                address: BME280_ADDR,
                reg: BME280_CTRL_HUM,
                value: BME280_CTRL_HUM_VALUE,
            },
        ),
        history[3] is Some,
{
    law_init_outcomes(history);
    assert(history.take(1).last() == history[0]);
    assert(history.take(2).last() == history[1]);
    assert(history.take(3).last() == history[2]);
}

/// What a start-up of the BME280 does on each reply, where those before the
/// last brought bytes. A failed transfer is a bus error. Any chip ID but 0x60
/// is a missing device. With 0x60 it goes on: calibration from 0x88, then from
/// 0xE1, then humidity oversampling x1, and then it has succeeded.
pub proof fn law_init_course(history: Seq<Reply>)
    requires
        forall|i: int| 0 <= i < history.len() - 1 ==> (#[trigger] history[i]) is Some,
    ensures
        history.len() == 0 ==> Bme280Init::plan((), history) == Progress::<BusRequest, Result<Bme280, SensorError>>::Ask(
            BusRequest::Read { address: 0x77, reg: 0xD0, len: 1 },
        ),
        history.len() > 0 && history.last() is None ==> Bme280Init::plan((), history)
            == Progress::<BusRequest, Result<Bme280, SensorError>>::Done(Err(SensorError::BusError)),
        history.len() > 0 && history.last() is Some && history[0].unwrap()[0] != 0x60
            ==> Bme280Init::plan((), history) == Progress::<BusRequest, Result<Bme280, SensorError>>::Done(
            Err(SensorError::NoDevice),
        ),
        history.len() > 0 && history.last() is Some && history[0].unwrap()[0] == 0x60 ==> {
            &&& history.len() == 1 ==> Bme280Init::plan((), history) == Progress::<BusRequest, Result<Bme280, SensorError>>::Ask(
                BusRequest::Read { address: 0x77, reg: 0x88, len: 26 },
            )
            &&& history.len() == 2 ==> Bme280Init::plan((), history) == Progress::<BusRequest, Result<Bme280, SensorError>>::Ask(
                BusRequest::Read { address: 0x77, reg: 0xE1, len: 7 },
            )
            &&& history.len() == 3 ==> Bme280Init::plan((), history) == Progress::<BusRequest, Result<Bme280, SensorError>>::Ask(
                BusRequest::Write { address: 0x77, reg: 0xF2, value: 0x01 },
            )
            &&& history.len() >= 4 ==> Bme280Init::plan((), history) == Progress::<
                BusRequest,
                Result<Bme280, SensorError>,
            >::Done(
                Ok(
                    Bme280 {
                        calibration: crate::bme280::calibration::calibration_in(
                            history[1].unwrap(),
                            history[2].unwrap(),
                        ),
                    },
                ),
            )
        },
{
}

} // verus!
