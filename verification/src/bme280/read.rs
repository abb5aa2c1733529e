//! Taking a measurement with the BME280.

use crate::bme280::{
    Bme280, Measurement, RawSample, BME280_ADDR, BME280_CTRL_MEAS, BME280_CTRL_MEAS_FORCED, BME280_DATA,
    BME280_MAX_POLLS, BME280_POLL_INTERVAL_MS, BME280_STATUS, BME280_STATUS_MEASURING,
};
use crate::bus::BusRequest;
use crate::error::{Fault, SensorError};
use crate::procedure::{Plan, Procedure, Progress, Reply};
use vstd::prelude::*;

verus! {

/// What the procedure remembers of the replies that it has had.
enum ReadState {
    /// Waiting for the conversion to be started.
    Trigger,
    /// `polls` polls have found the sensor busy; letting it get on.
    Wait { polls: u32 },
    /// Waiting for the status.
    Poll { polls: u32 },
    /// The conversion is over; waiting for the ADC values.
    Data,
    /// Over.
    Finished { result: Result<Measurement, SensorError> },
}

/// Starts one conversion, polls until it is over, and fetches the ADC values,
/// which go with the calibration of the sensor they come from.
pub struct Bme280Read {
    sensor: Bme280,
    state: ReadState,
    history: Ghost<Seq<Reply>>,
}

/// Where a read stands.
pub type ReadProgress = Progress<BusRequest, Result<Measurement, SensorError>>;

/// The reply holds a status with the measuring bit set.
pub open spec fn is_measuring(reply: Reply) -> bool {
    reply.unwrap()[0] & BME280_STATUS_MEASURING != 0
}

impl Plan for Bme280Read {
    type Given = Bme280;

    type Request = BusRequest;

    type Output = Result<Measurement, SensorError>;

    /// The first reply is to the write that starts the conversion. After it
    /// come pairs of replies, to a wait and to a poll, until a poll finds the
    /// sensor done or the polls are used up. The last reply holds the data.
    open spec fn plan(sensor: Bme280, history: Seq<Reply>) -> ReadProgress {
        let n = history.len() as int;
        if n == 0 {
            Progress::Ask(
                BusRequest::Write {
                    address: BME280_ADDR,
                    reg: BME280_CTRL_MEAS,
                    value: BME280_CTRL_MEAS_FORCED,
                },
            )
        } else if history.last() is None {
            Progress::Done(Err(SensorError::BusError))
        } else if n % 2 == 1 {
            if n > 1 && !is_measuring(history[n - 1]) {
                Progress::Ask(BusRequest::Read { address: BME280_ADDR, reg: BME280_DATA, len: 8 })
            } else if n == 1 + 2 * BME280_MAX_POLLS {
                Progress::Done(Err(SensorError::Timeout))
            } else {
                Progress::Ask(BusRequest::Wait { ms: BME280_POLL_INTERVAL_MS })
            }
        } else if n > 2 && !is_measuring(history[n - 2]) {
            Progress::Done(
                Ok(
                    Measurement {
                        calibration: sensor.calibration,
                        sample: crate::bme280::sample::sample_in(history[n - 1].unwrap()),
                    },
                ),
            )
        } else {
            Progress::Ask(BusRequest::Read { address: BME280_ADDR, reg: BME280_STATUS, len: 1 })
        }
    }
}

impl Bme280Read {
    /// The state holds what the plan needs of the history.
    #[verifier::type_invariant]
    spec fn remembers(self) -> bool {
        let history = self.history@;
        &&& crate::procedure::is_transcript::<Self>(self.sensor, history)
        &&& match self.state {
            ReadState::Trigger => history.len() == 0,
            ReadState::Wait { polls } => {
                &&& polls < BME280_MAX_POLLS
                &&& history.len() == 1 + 2 * polls
                &&& history.last() is Some
                &&& polls > 0 ==> is_measuring(history.last())
            },
            ReadState::Poll { polls } => {
                &&& polls < BME280_MAX_POLLS
                &&& history.len() == 2 + 2 * polls
                &&& history.last() is Some
                &&& polls > 0 ==> is_measuring(history[2 * polls as int])
            },
            ReadState::Data => {
                &&& history.len() > 1
                &&& history.len() as int % 2 == 1
                &&& history.last() is Some
                &&& !is_measuring(history.last())
            },
            ReadState::Finished { result } => Self::plan(self.sensor, history) == ReadProgress::Done(result),
        }
    }

    /// The procedure before its first request.
    pub(crate) fn start(sensor: Bme280) -> (read: Self)
        ensures
            read.given() == sensor,
            read.history() == Seq::<Reply>::empty(),
    {
        Bme280Read { sensor, state: ReadState::Trigger, history: Ghost(Seq::empty()) }
    }
}

impl Procedure for Bme280Read {
    closed spec fn given(&self) -> Bme280 {
        self.sensor
    }

    closed spec fn history(&self) -> Seq<Reply> {
        self.history@
    }

    fn progress(&self) -> ReadProgress {
        proof {
            use_type_invariant(self);
        }
        match self.state {
            ReadState::Trigger => Progress::Ask(
                BusRequest::Write {
                    address: BME280_ADDR,
                    reg: BME280_CTRL_MEAS,
                    value: BME280_CTRL_MEAS_FORCED,
                },
            ),
            ReadState::Wait { .. } => Progress::Ask(BusRequest::Wait { ms: BME280_POLL_INTERVAL_MS }),
            ReadState::Poll { .. } => Progress::Ask(
                BusRequest::Read { address: BME280_ADDR, reg: BME280_STATUS, len: 1 },
            ),
            ReadState::Data => Progress::Ask(
                BusRequest::Read { address: BME280_ADDR, reg: BME280_DATA, len: 8 },
            ),
            ReadState::Finished { result } => Progress::Done(result),
        }
    }

    fn reply(self, outcome: Result<Vec<u8>, Fault>) -> Self {
        proof {
            use_type_invariant(&self);
            crate::procedure::lemma_extend_transcript::<Self>(
                self.sensor,
                self.history@,
                crate::procedure::reply_of(outcome),
            );
        }
        let history: Ghost<Seq<Reply>> = Ghost(
            self.history@.push(crate::procedure::reply_of(outcome)),
        );
        let bytes = match outcome {
            Ok(bytes) => bytes,
            Err(fault) => {
                let result = Err(SensorError::from(fault));
                return Bme280Read {
                    sensor: self.sensor,
                    state: ReadState::Finished { result },
                    history,
                };
            },
        };
        let state = match self.state {
            ReadState::Trigger => ReadState::Wait { polls: 0 },
            ReadState::Wait { polls } => ReadState::Poll { polls },
            ReadState::Poll { polls } => {
                if bytes[0] & BME280_STATUS_MEASURING == 0 {
                    ReadState::Data
                } else if polls + 1 == BME280_MAX_POLLS {
                    ReadState::Finished { result: Err(SensorError::Timeout) }
                } else {
                    ReadState::Wait { polls: polls + 1 }
                }
            },
            ReadState::Data => ReadState::Finished {
                result: Ok(
                    Measurement {
                        calibration: self.sensor.calibration,
                        sample: RawSample::unpack(&crate::bytes::to_array(&bytes)),
                    },
                ),
            },
            ReadState::Finished { result } => ReadState::Finished { result },
        };
        Bme280Read { sensor: self.sensor, state, history }
    }
}

/// The first `k` polls found the sensor measuring. The reply to poll `k` is at
/// index `2 * k`.
pub open spec fn busy_polls(history: Seq<Reply>, k: int) -> bool {
    forall|i: int|
        2 <= i <= 2 * k && i % 2 == 0 ==> is_measuring(#[trigger] history[i])
}

/// No request has failed.
pub open spec fn all_carried_out(history: Seq<Reply>) -> bool {
    forall|i: int| 0 <= i < history.len() ==> (#[trigger] history[i]) is Some
}

/// How long the procedure has waited between transfers, in milliseconds.
pub open spec fn time_waited(sensor: Bme280, history: Seq<Reply>) -> int
    decreases history.len(),
{
    if history.len() == 0 {
        0
    } else {
        let before = history.drop_last();
        time_waited(sensor, before) + match Bme280Read::plan(sensor, before) {
            Progress::Ask(BusRequest::Wait { ms }) => ms as int,
            _ => 0,
        }
    }
}

/// A read has had at most 22 replies, none but the last of which can be a
/// failure, and it polls again only while the sensor is measuring.
pub proof fn law_read_is_bounded(sensor: Bme280, history: Seq<Reply>)
    requires
        crate::procedure::is_transcript::<Bme280Read>(sensor, history),
    ensures
        history.len() <= 22,
        forall|i: int| 0 <= i < history.len() - 1 ==> (#[trigger] history[i]) is Some,
        busy_polls(history, (history.len() - 3) / 2),
        history.len() == 22 ==> !is_measuring(history[20]),
    decreases history.len(),
{
    if history.len() > 0 {
        let before = history.drop_last();
        law_read_is_bounded(sensor, before);
        assert forall|i: int| 0 <= i < history.len() - 1 implies (#[trigger] history[i]) is Some by {
            assert(before[i] == history[i]);
        }
        assert forall|i: int|
            2 <= i <= 2 * ((history.len() - 3) / 2) && i % 2 == 0 implies is_measuring(
            #[trigger] history[i],
        ) by {
            assert(before[i] == history[i]);
        }
    }
}

/// How a read ends: with a bus error if and only if a transfer failed; with a
/// timeout if and only if all ten polls found the sensor measuring; with a
/// sample if and only if a poll found the sensor done and the data registers
/// were read, and then all polls before found it measuring, the sample is what
/// the registers hold, and it goes with the sensor's own calibration.
pub proof fn law_read_outcomes(sensor: Bme280, history: Seq<Reply>)
    requires
        crate::procedure::is_transcript::<Bme280Read>(sensor, history),
    ensures
        Bme280Read::plan(sensor, history) == ReadProgress::Done(
            Err(SensorError::BusError),
        ) <==> !all_carried_out(history),
        Bme280Read::plan(sensor, history) == ReadProgress::Done(
            Err(SensorError::Timeout),
        ) <==> history.len() == 21 && all_carried_out(history) && busy_polls(history, 10),
        (Bme280Read::plan(sensor, history) matches Progress::Done(Ok(_))) <==> {
            &&& all_carried_out(history)
            &&& history.len() > 2
            &&& history.len() % 2 == 0
            &&& !is_measuring(history[history.len() - 2])
        },
        match Bme280Read::plan(sensor, history) {
            Progress::Ask(_) => true,
            Progress::Done(Ok(measurement)) => {
                let polls = (history.len() - 2) / 2;
                &&& all_carried_out(history)
                &&& history.len() == 2 + 2 * polls
                &&& 1 <= polls <= 10
                &&& busy_polls(history, polls - 1)
                &&& !is_measuring(history[2 * polls])
                &&& measurement.calibration == sensor.calibration
                &&& measurement.sample == crate::bme280::sample::sample_in(
                    history[2 * polls + 1].unwrap(),
                )
            },
            Progress::Done(Err(error)) => error == SensorError::BusError || error
                == SensorError::Timeout,
        },
{
    law_read_is_bounded(sensor, history);
    if history.len() > 0 && history.last() is None {
        assert(!all_carried_out(history)) by {
            assert(history[history.len() - 1] is None);
        }
    } else {
        assert(all_carried_out(history));
    }
    if history.len() == 21 && all_carried_out(history) {
        assert(busy_polls(history, 10) <==> is_measuring(history[20])) by {
            assert(busy_polls(history, 9));
        }
    }
}

/// The request that starts one conversion.
pub open spec fn trigger_request() -> BusRequest {
    BusRequest::Write {
        address: BME280_ADDR,
        reg: BME280_CTRL_MEAS,
        value: BME280_CTRL_MEAS_FORCED,
    }
}

/// The request that lets time pass before a poll.
pub open spec fn wait_request() -> BusRequest {
    BusRequest::Wait { ms: BME280_POLL_INTERVAL_MS }
}

/// The request that polls the sensor.
pub open spec fn status_request() -> BusRequest {
    BusRequest::Read { address: BME280_ADDR, reg: BME280_STATUS, len: 1 }
}

/// The request for the ADC values.
pub open spec fn data_request() -> BusRequest {
    BusRequest::Read { address: BME280_ADDR, reg: BME280_DATA, len: 8 }
}

/// A read asks for nothing but its four kinds of requests: transfers with the
/// BME280 and the 2 ms between polls. It writes exactly at its start, where it
/// starts the conversion. It asks for the status exactly right after a wait,
/// and for the data exactly right after a status without the measuring bit.
pub proof fn law_read_requests(sensor: Bme280, history: Seq<Reply>, request: BusRequest)
    requires
        crate::procedure::is_transcript::<Bme280Read>(sensor, history),
        Bme280Read::plan(sensor, history) == ReadProgress::Ask(request),
    ensures
        request == trigger_request() || request == wait_request() || request == status_request()
            || request == data_request(),
        request.is_transfer_with(BME280_ADDR) || request == (BusRequest::Wait { ms: 2 }),
        request is Write <==> history.len() == 0,
        request == trigger_request() <==> history.len() == 0,
        request == status_request() <==> {
            &&& history.len() > 0
            &&& Bme280Read::plan(sensor, history.drop_last()) == ReadProgress::Ask(wait_request())
        },
        request == data_request() <==> {
            &&& history.len() > 0
            &&& Bme280Read::plan(sensor, history.drop_last()) == ReadProgress::Ask(status_request())
            &&& !is_measuring(history.last())
        },
{
    if history.len() > 0 {
        let before = history.drop_last();
        law_read_is_bounded(sensor, history);
        law_read_is_bounded(sensor, before);
        assert(before.len() > 0 ==> before.last() == history[history.len() - 2]);
        assert(history.len() > 2 ==> before[history.len() - 3] == history[history.len() - 3]);
    }
}

/// How many times a read has asked for `request`, from its start up to the
/// point where it stands after `history`.
pub open spec fn times_asked(sensor: Bme280, history: Seq<Reply>, request: BusRequest) -> int
    decreases history.len(),
{
    let now: int = if Bme280Read::plan(sensor, history) == ReadProgress::Ask(request) {
        1
    } else {
        0
    };
    if history.len() == 0 {
        now
    } else {
        times_asked(sensor, history.drop_last(), request) + now
    }
}

/// How many transfers a read has asked for, from its start up to the point
/// where it stands after `history`.
pub open spec fn transfers_asked(sensor: Bme280, history: Seq<Reply>) -> int
    decreases history.len(),
{
    let now: int = match Bme280Read::plan(sensor, history) {
        Progress::Ask(request) => if request is Wait {
            0
        } else {
            1
        },
        Progress::Done(_) => 0,
    };
    if history.len() == 0 {
        now
    } else {
        transfers_asked(sensor, history.drop_last()) + now
    }
}

/// In its whole course a read starts one conversion, polls at most ten times,
/// and fetches the data at most once: at most twelve transfers.
pub proof fn law_read_request_counts(sensor: Bme280, history: Seq<Reply>)
    requires
        crate::procedure::is_transcript::<Bme280Read>(sensor, history),
    ensures
        times_asked(sensor, history, trigger_request()) == 1,
        times_asked(sensor, history, status_request()) <= 10,
        times_asked(sensor, history, data_request()) <= 1,
        transfers_asked(sensor, history) == times_asked(sensor, history, trigger_request())
            + times_asked(sensor, history, status_request()) + times_asked(
            sensor,
            history,
            data_request(),
        ),
        transfers_asked(sensor, history) <= 12,
{
    law_read_is_bounded(sensor, history);
    lemma_request_counts(sensor, history);
}

/// The ADC values have been asked for and the request was answered.
spec fn data_was_asked_for(history: Seq<Reply>) -> bool {
    let n = history.len() as int;
    n > 2 && n % 2 == 0 && !is_measuring(history[n - 2])
}

/// How often each request has been asked for, by the number of replies.
proof fn lemma_request_counts(sensor: Bme280, history: Seq<Reply>)
    requires
        crate::procedure::is_transcript::<Bme280Read>(sensor, history),
    ensures
        times_asked(sensor, history, trigger_request()) == 1,
        times_asked(sensor, history, status_request()) == if data_was_asked_for(history) {
            history.len() as int / 2 - 1
        } else {
            history.len() as int / 2
        },
        times_asked(sensor, history, data_request()) == if data_was_asked_for(history)
            || Bme280Read::plan(sensor, history) == ReadProgress::Ask(data_request()) {
            1int
        } else {
            0
        },
        transfers_asked(sensor, history) == times_asked(sensor, history, trigger_request())
            + times_asked(sensor, history, status_request()) + times_asked(
            sensor,
            history,
            data_request(),
        ),
    decreases history.len(),
{
    law_read_is_bounded(sensor, history);
    if history.len() > 0 {
        let before = history.drop_last();
        lemma_request_counts(sensor, before);
        if before.len() > 0 {
            assert(before.last() == history[history.len() - 2]);
        }
        if before.len() > 1 {
            assert(before[before.len() - 2] == history[before.len() - 2]);
        }
    }
}

/// A read waits 2 ms before each poll, so 20 ms in all before it gives up.
pub proof fn law_time_waited(sensor: Bme280, history: Seq<Reply>)
    requires
        crate::procedure::is_transcript::<Bme280Read>(sensor, history),
    ensures
        time_waited(sensor, history) <= 20,
        Bme280Read::plan(sensor, history) == ReadProgress::Done(
            Err(SensorError::Timeout),
        ) ==> time_waited(sensor, history) == 20,
{
    lemma_time_waited(sensor, history);
    law_read_outcomes(sensor, history);
}

/// Up to the reply to the last poll, every other reply is to a wait.
proof fn lemma_time_waited(sensor: Bme280, history: Seq<Reply>)
    requires
        crate::procedure::is_transcript::<Bme280Read>(sensor, history),
    ensures
        time_waited(sensor, history) <= 20,
        history.len() % 2 == 1 ==> time_waited(sensor, history) == history.len() - 1,
        history.len() % 2 == 0 && history.len() > 0 ==> {
            ||| time_waited(sensor, history) == history.len()
            ||| {
                &&& time_waited(sensor, history) == history.len() - 2
                &&& Bme280Read::plan(sensor, history) is Done
            }
        },
    decreases history.len(),
{
    if history.len() > 0 {
        law_read_is_bounded(sensor, history);
        let before = history.drop_last();
        lemma_time_waited(sensor, before);
        if before.len() > 0 {
            assert(before.last() == history[history.len() - 2]);
        }
    }
}

/// A status says that the sensor is measuring if and only if its bit 3 is set.
pub proof fn law_measuring_is_bit_3(reply: Reply)
    requires
        reply is Some,
    ensures
        is_measuring(reply) <==> (reply.unwrap()[0] as int / 8) % 2 == 1,
{
    let status = reply.unwrap()[0];
    assert((status & 0x08 != 0) <==> (status / 8) % 2 == 1) by (bit_vector);
}

/// What a read does on each reply, where those before the last brought bytes
/// and bit 3 of a status tells that the sensor is measuring. It starts one
/// forced conversion. It lets 2 ms pass before each poll. When a poll finds bit
/// 3 clear it fetches the eight data bytes, and they, with the calibration of
/// the sensor itself, are the result. When the tenth poll still finds it set,
/// it gives up. A failed transfer is a bus error.
pub proof fn law_read_course(sensor: Bme280, history: Seq<Reply>)
    requires
        forall|i: int| 0 <= i < history.len() - 1 ==> (#[trigger] history[i]) is Some,
    ensures
        ({
            let n = history.len() as int;
            let plan = Bme280Read::plan(sensor, history);
            &&& n == 0 ==> plan == ReadProgress::Ask(
                BusRequest::Write { address: 0x77, reg: 0xF4, value: 0x25 },
            )
            &&& n > 0 && history[n - 1] is None ==> plan == ReadProgress::Done(
                Err(SensorError::BusError),
            )
            &&& n == 1 && history[0] is Some ==> plan == ReadProgress::Ask(
                BusRequest::Wait { ms: 2 },
            )
            &&& n == 2 && history[1] is Some ==> plan == ReadProgress::Ask(
                BusRequest::Read { address: 0x77, reg: 0xF3, len: 1 },
            )
            &&& n > 2 && n % 2 == 1 && history[n - 1] is Some ==> {
                let busy = (history[n - 1].unwrap()[0] as int / 8) % 2 == 1;
                &&& !busy ==> plan == ReadProgress::Ask(
                    BusRequest::Read { address: 0x77, reg: 0xF7, len: 8 },
                )
                &&& busy && n == 21 ==> plan == ReadProgress::Done(Err(SensorError::Timeout))
                &&& busy && n != 21 ==> plan == ReadProgress::Ask(BusRequest::Wait { ms: 2 })
            }
            &&& n > 2 && n % 2 == 0 && history[n - 1] is Some ==> {
                let busy = (history[n - 2].unwrap()[0] as int / 8) % 2 == 1;
                let raw = history[n - 1].unwrap();
                &&& busy ==> plan == ReadProgress::Ask(
                    BusRequest::Read { address: 0x77, reg: 0xF3, len: 1 },
                )
                &&& !busy ==> (plan matches Progress::Done(Ok(measurement)) && {
                    &&& measurement.calibration == sensor.calibration
                    &&& measurement.sample.adc_p == 4096 * raw[0] + 16 * raw[1] + raw[2] as int
                        / 16
                    &&& measurement.sample.adc_t == 4096 * raw[3] + 16 * raw[4] + raw[5] as int
                        / 16
                    &&& measurement.sample.adc_h == 256 * raw[6] + raw[7]
                })
            }
        }),
{
    let n = history.len() as int;
    if n > 0 && history[n - 1] is Some {
        law_measuring_is_bit_3(history[n - 1]);
        crate::bme280::sample::law_sample_fields(history[n - 1].unwrap());
    }
    if n > 1 {
        law_measuring_is_bit_3(history[n - 2]);
    }
}

} // verus!
