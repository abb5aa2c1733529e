//! The LIS3DH 3-axis accelerometer.

use crate::bus::BusRequest;
use crate::bytes::i16_from_le;
use crate::error::{Fault, SensorError};
use crate::procedure::{Plan, Procedure, Progress, Reply};
use vstd::prelude::*;

verus! {

/// LIS3DH address with SDO/SA0 tied to 3V3.
pub const LIS3DH_ADDR: u8 = 0x19;

pub const LIS3DH_WHO_AM_I: u8 = 0x0F;

pub const LIS3DH_WHO_AM_I_VALUE: u8 = 0x33;

pub const LIS3DH_CTRL_REG1: u8 = 0x20;

pub const LIS3DH_CTRL_REG4: u8 = 0x23;

pub const LIS3DH_OUT_X_L: u8 = 0x28;

/// Setting the sub-address MSB makes the LIS3DH auto-increment on multi-byte reads.
pub const LIS3DH_AUTO_INCREMENT: u8 = 0x80;

/// 100 Hz output data rate, normal mode, X/Y/Z enabled.
pub const LIS3DH_CTRL_REG1_VALUE: u8 = 0x57;

/// Block data update, ±2 g full scale, high-resolution (12-bit) mode.
pub const LIS3DH_CTRL_REG4_VALUE: u8 = 0x88;

/// A LIS3DH that has been brought up.
#[derive(Debug, Clone, Copy, PartialEq, Eq, Structural)]
pub struct Lis3dh;

impl Lis3dh {
    /// Check the chip ID and start continuous sampling.
    pub fn init() -> (init: Lis3dhInit)
        ensures
            init.history() == Seq::<Reply>::empty(),
    {
        Lis3dhInit { state: InitState::WhoAmI, history: Ghost(Seq::empty()) }
    }

    /// Fetch the most recent acceleration sample.
    pub fn read(&self) -> (read: Lis3dhRead)
        ensures
            read.history() == Seq::<Reply>::empty(),
    {
        Lis3dhRead { state: ReadState::Sample, history: Ghost(Seq::empty()) }
    }
}

/// What the start-up procedure remembers of the replies that it has had.
enum InitState {
    /// Waiting for the chip ID.
    WhoAmI,
    /// The chip ID was right; waiting for sampling to be started.
    CtrlReg1,
    /// Waiting for range and resolution to be set.
    CtrlReg4,
    /// Over.
    Finished { result: Result<Lis3dh, SensorError> },
}

/// Checks the chip ID and starts continuous sampling.
pub struct Lis3dhInit {
    state: InitState,
    history: Ghost<Seq<Reply>>,
}

impl Plan for Lis3dhInit {
    type Given = ();

    type Request = BusRequest;

    type Output = Result<Lis3dh, SensorError>;

    open spec fn plan(given: (), history: Seq<Reply>) -> Progress<BusRequest, Result<Lis3dh, SensorError>> {
        if history.len() > 0 && history.last() is None {
            Progress::Done(Err(SensorError::BusError))
        } else if history.len() == 0 {
            Progress::Ask(
                BusRequest::Read { address: LIS3DH_ADDR, reg: LIS3DH_WHO_AM_I, len: 1 },
            )
        } else if !crate::bus::reads_as(history[0], LIS3DH_WHO_AM_I_VALUE) {
            Progress::Done(Err(SensorError::NoDevice))
        } else if history.len() == 1 {
            Progress::Ask(
                BusRequest::Write {
                    address: LIS3DH_ADDR,
                    reg: LIS3DH_CTRL_REG1,
                    value: LIS3DH_CTRL_REG1_VALUE,
                },
            )
        } else if history.len() == 2 {
            Progress::Ask(
                BusRequest::Write {
                    address: LIS3DH_ADDR,
                    reg: LIS3DH_CTRL_REG4,
                    value: LIS3DH_CTRL_REG4_VALUE,
                },
            )
        } else {
            Progress::Done(Ok(Lis3dh))
        }
    }
}

impl Lis3dhInit {
    /// The state holds what the plan needs of the history.
    #[verifier::type_invariant]
    spec fn remembers(self) -> bool {
        let history = self.history@;
        &&& crate::procedure::is_transcript::<Self>((), history)
        &&& match self.state {
            InitState::WhoAmI => history.len() == 0,
            InitState::CtrlReg1 => {
                &&& history.len() == 1
                &&& crate::bus::reads_as(history[0], LIS3DH_WHO_AM_I_VALUE)
            },
            InitState::CtrlReg4 => {
                &&& history.len() == 2
                &&& crate::bus::reads_as(history[0], LIS3DH_WHO_AM_I_VALUE)
                &&& history[1] is Some
            },
            InitState::Finished { result } => Self::plan((), history) == Progress::<
                BusRequest,
                Result<Lis3dh, SensorError>,
            >::Done(result),
        }
    }
}

impl Procedure for Lis3dhInit {
    open spec fn given(&self) -> () {
        ()
    }

    closed spec fn history(&self) -> Seq<Reply> {
        self.history@
    }

    fn progress(&self) -> Progress<BusRequest, Result<Lis3dh, SensorError>> {
        proof {
            use_type_invariant(self);
        }
        match self.state {
            InitState::WhoAmI => Progress::Ask(
                BusRequest::Read { address: LIS3DH_ADDR, reg: LIS3DH_WHO_AM_I, len: 1 },
            ),
            InitState::CtrlReg1 => Progress::Ask(
                BusRequest::Write {
                    address: LIS3DH_ADDR,
                    reg: LIS3DH_CTRL_REG1,
                    value: LIS3DH_CTRL_REG1_VALUE,
                },
            ),
            InitState::CtrlReg4 => Progress::Ask(
                BusRequest::Write {
                    address: LIS3DH_ADDR,
                    reg: LIS3DH_CTRL_REG4,
                    value: LIS3DH_CTRL_REG4_VALUE,
                },
            ),
            InitState::Finished { result } => Progress::Done(result),
        }
    }

    fn reply(self, outcome: Result<Vec<u8>, Fault>) -> Self {
        proof {
            use_type_invariant(&self);
            crate::procedure::lemma_extend_transcript::<Self>(
                (),
                self.history@,
                crate::procedure::reply_of(outcome),
            );
        }
        let history: Ghost<Seq<Reply>> = Ghost(
            self.history@.push(crate::procedure::reply_of(outcome)),
        );
        let bytes = match outcome {
            Ok(bytes) => bytes,
            Err(fault) => {
                let result = Err(SensorError::from(fault));
                return Lis3dhInit { state: InitState::Finished { result }, history };
            },
        };
        let state = match self.state {
            InitState::WhoAmI => {
                if bytes[0] != LIS3DH_WHO_AM_I_VALUE {
                    InitState::Finished { result: Err(SensorError::NoDevice) }
                } else {
                    InitState::CtrlReg1
                }
            },
            InitState::CtrlReg1 => InitState::CtrlReg4,
            InitState::CtrlReg4 => InitState::Finished { result: Ok(Lis3dh) },
            InitState::Finished { result } => InitState::Finished { result },
        };
        Lis3dhInit { state, history }
    }
}

/// A sample of the acceleration on each axis, in digits of 1 mg.
#[derive(Debug, Clone, Copy, PartialEq, Eq, Structural)]
pub struct RawAcceleration {
    pub x: i16,
    pub y: i16,
    pub z: i16,
}

/// The value of an axis: 12 bits, left-justified in a little-endian 16-bit
/// word.
pub open spec fn digits_in(lo: u8, hi: u8) -> int {
    crate::bytes::le_signed_word(lo, hi) / 16
}

/// The sample that the output registers `raw` hold.
pub open spec fn acceleration_in(raw: Seq<u8>) -> RawAcceleration {
    RawAcceleration {
        x: digits_in(raw[0], raw[1]) as i16,
        y: digits_in(raw[2], raw[3]) as i16,
        z: digits_in(raw[4], raw[5]) as i16,
    }
}

/// The value of an axis from the two bytes of its word.
fn axis(lo: u8, hi: u8) -> (digits: i16)
    ensures
        digits == digits_in(lo, hi),
        -2048 <= digits < 2048,
        (digits - (16 * hi + lo as int / 16)) % 0x1000 == 0,
{
    proof {
        law_digits(lo, hi);
    }
    let word: i16 = i16_from_le(lo, hi);
    assert((word >> 4) == word / 16) by (bit_vector);
    word >> 4
}

impl RawAcceleration {
    /// Reads the sample out of the output registers.
    pub fn unpack(raw: &[u8; 6]) -> (sample: Self)
        ensures
            sample == acceleration_in(raw@),
            sample.x == digits_in(raw@[0], raw@[1]),
            sample.y == digits_in(raw@[2], raw@[3]),
            sample.z == digits_in(raw@[4], raw@[5]),
            -2048 <= sample.x < 2048,
            -2048 <= sample.y < 2048,
            -2048 <= sample.z < 2048,
            (sample.x - (16 * raw@[1] + raw@[0] as int / 16)) % 0x1000 == 0,
            (sample.y - (16 * raw@[3] + raw@[2] as int / 16)) % 0x1000 == 0,
            (sample.z - (16 * raw@[5] + raw@[4] as int / 16)) % 0x1000 == 0,
    {
        RawAcceleration {
            x: axis(raw[0], raw[1]),
            y: axis(raw[2], raw[3]),
            z: axis(raw[4], raw[5]),
        }
    }
}

/// What the read procedure remembers of the replies that it has had.
enum ReadState {
    /// Waiting for the output registers.
    Sample,
    /// Over.
    Finished { result: Result<RawAcceleration, SensorError> },
}

/// Fetches the most recent acceleration sample.
pub struct Lis3dhRead {
    state: ReadState,
    history: Ghost<Seq<Reply>>,
}

impl Plan for Lis3dhRead {
    type Given = ();

    type Request = BusRequest;

    type Output = Result<RawAcceleration, SensorError>;

    open spec fn plan(given: (), history: Seq<Reply>) -> Progress<
        BusRequest,
        Result<RawAcceleration, SensorError>,
    > {
        if history.len() == 0 {
            Progress::Ask(
                BusRequest::Read {
                    address: LIS3DH_ADDR,
                    reg: LIS3DH_OUT_X_L | LIS3DH_AUTO_INCREMENT,
                    len: 6,
                },
            )
        } else {
            match history[0] {
                Some(raw) => Progress::Done(Ok(acceleration_in(raw))),
                None => Progress::Done(Err(SensorError::BusError)),
            }
        }
    }
}

impl Lis3dhRead {
    /// The state holds what the plan needs of the history.
    #[verifier::type_invariant]
    spec fn remembers(self) -> bool {
        let history = self.history@;
        &&& crate::procedure::is_transcript::<Self>((), history)
        &&& match self.state {
            ReadState::Sample => history.len() == 0,
            ReadState::Finished { result } => Self::plan((), history) == Progress::<
                BusRequest,
                Result<RawAcceleration, SensorError>,
            >::Done(result),
        }
    }
}

impl Procedure for Lis3dhRead {
    open spec fn given(&self) -> () {
        ()
    }

    closed spec fn history(&self) -> Seq<Reply> {
        self.history@
    }

    fn progress(&self) -> Progress<BusRequest, Result<RawAcceleration, SensorError>> {
        proof {
            use_type_invariant(self);
        }
        match self.state {
            ReadState::Sample => Progress::Ask(
                BusRequest::Read {
                    address: LIS3DH_ADDR,
                    reg: LIS3DH_OUT_X_L | LIS3DH_AUTO_INCREMENT,
                    len: 6,
                },
            ),
            ReadState::Finished { result } => Progress::Done(result),
        }
    }

    fn reply(self, outcome: Result<Vec<u8>, Fault>) -> Self {
        proof {
            use_type_invariant(&self);
            crate::procedure::lemma_extend_transcript::<Self>(
                (),
                self.history@,
                crate::procedure::reply_of(outcome),
            );
        }
        let history: Ghost<Seq<Reply>> = Ghost(
            self.history@.push(crate::procedure::reply_of(outcome)),
        );
        let result = match outcome {
            Ok(bytes) => Ok(RawAcceleration::unpack(&crate::bytes::to_array(&bytes))),
            Err(fault) => Err(SensorError::from(fault)),
        };
        Lis3dhRead { state: ReadState::Finished { result }, history }
    }
}

/// A start-up of the LIS3DH takes at most three transfers, and each of them is
/// with the LIS3DH.
pub proof fn law_init_is_bounded(history: Seq<Reply>)
    requires
        crate::procedure::is_transcript::<Lis3dhInit>((), history),
    ensures
        history.len() <= 3,
        forall|i: int| 0 <= i < history.len() - 1 ==> (#[trigger] history[i]) is Some,
        history.len() > 1 ==> crate::bus::reads_as(history[0], LIS3DH_WHO_AM_I_VALUE),
        match Lis3dhInit::plan((), history) {
            Progress::Ask(request) => request.is_transfer_with(LIS3DH_ADDR),
            Progress::Done(_) => true,
        },
    decreases history.len(),
{
    if history.len() > 0 {
        let before = history.drop_last();
        law_init_is_bounded(before);
        assert forall|i: int| 0 <= i < history.len() - 1 implies (#[trigger] history[i]) is Some by {
            assert(before[i] == history[i]);
        }
    }
}

/// How a start-up of the LIS3DH ends: with a bus error if and only if a
/// transfer failed, with a missing device if and only if the chip ID is not
/// the LIS3DH's, and otherwise, after three transfers, with success.
pub proof fn law_init_outcomes(history: Seq<Reply>)
    requires
        crate::procedure::is_transcript::<Lis3dhInit>((), history),
    ensures
        Lis3dhInit::plan((), history) == Progress::<BusRequest, Result<Lis3dh, SensorError>>::Done(
            Err(SensorError::BusError),
        ) <==> exists|i: int| 0 <= i < history.len() && (#[trigger] history[i]) is None,
        Lis3dhInit::plan((), history) == Progress::<BusRequest, Result<Lis3dh, SensorError>>::Done(
            Err(SensorError::NoDevice),
        ) <==> {
            &&& history.len() > 0
            &&& history[0] is Some
            &&& !crate::bus::reads_as(history[0], LIS3DH_WHO_AM_I_VALUE)
        },
        Lis3dhInit::plan((), history) == Progress::<BusRequest, Result<Lis3dh, SensorError>>::Done(
            Ok(Lis3dh),
        ) <==> {
            &&& history.len() == 3
            &&& crate::bus::reads_as(history[0], LIS3DH_WHO_AM_I_VALUE)
            &&& forall|i: int| 0 <= i < 3 ==> (#[trigger] history[i]) is Some
        },
        match Lis3dhInit::plan((), history) {
            Progress::Done(Err(error)) => error == SensorError::BusError || error
                == SensorError::NoDevice,
            _ => true,
        },
{
    law_init_is_bounded(history);
    if history.len() > 0 {
        assert(history.last() == history[history.len() - 1]);
    }
}

/// A LIS3DH that came up was asked, in this order, for its chip ID, to start
/// sampling, and to use its range and resolution, and did all of it.
pub proof fn law_init_requests(history: Seq<Reply>)
    requires
        crate::procedure::is_transcript::<Lis3dhInit>((), history),
        Lis3dhInit::plan((), history) == Progress::<BusRequest, Result<Lis3dh, SensorError>>::Done(
            Ok(Lis3dh),
        ),
    ensures
        Lis3dhInit::plan((), history.take(0)) == Progress::<
            BusRequest,
            Result<Lis3dh, SensorError>,
        >::Ask(BusRequest::Read { address: LIS3DH_ADDR, reg: LIS3DH_WHO_AM_I, len: 1 }),
        Lis3dhInit::plan((), history.take(1)) == Progress::<
            BusRequest,
            Result<Lis3dh, SensorError>,
        >::Ask(
            BusRequest::Write {
                address: LIS3DH_ADDR,
                reg: LIS3DH_CTRL_REG1,
                value: LIS3DH_CTRL_REG1_VALUE,
            },
        ),
        Lis3dhInit::plan((), history.take(2)) == Progress::<
            BusRequest,
            Result<Lis3dh, SensorError>,
        >::Ask(
            BusRequest::Write {
                address: LIS3DH_ADDR,
                reg: LIS3DH_CTRL_REG4,
                value: LIS3DH_CTRL_REG4_VALUE,
            },
        ),
        history[2] is Some,
{
    law_init_outcomes(history);
    assert(history.take(1).last() == history[0]);
    assert(history.take(2).last() == history[1]);
}

/// A read is a single transfer, of six bytes from the first output register
/// with the auto-increment bit set. It ends with a bus error if and only if
/// that transfer failed, and otherwise with the sample that the bytes hold.
pub proof fn law_read_outcomes(history: Seq<Reply>)
    requires
        crate::procedure::is_transcript::<Lis3dhRead>((), history),
    ensures
        history.len() <= 1,
        match Lis3dhRead::plan((), history) {
            Progress::Ask(request) => {
                &&& history.len() == 0
                &&& request == (BusRequest::Read { address: 0x19, reg: 0xA8, len: 6 })
            },
            Progress::Done(Ok(sample)) => {
                &&& history.len() == 1
                &&& history[0] is Some
                &&& sample == acceleration_in(history[0].unwrap())
            },
            Progress::Done(Err(error)) => {
                &&& history.len() == 1
                &&& history[0] is None
                &&& error == SensorError::BusError
            },
        },
{
    assert(0x28u8 | 0x80u8 == 0xA8u8) by (bit_vector);
    if history.len() > 1 {
        assert(Lis3dhRead::plan((), history.drop_last()) is Ask);
    }
}

/// The sample holds all that the output registers hold but the low nibbles of
/// the low bytes: two images give the same sample if and only if they agree on
/// the upper twelve bits of each word.
pub proof fn law_acceleration_is_faithful(raw1: Seq<u8>, raw2: Seq<u8>)
    requires
        raw1.len() == 6,
        raw2.len() == 6,
    ensures
        acceleration_in(raw1) == acceleration_in(raw2) <==> {
            &&& raw1[0] as int / 16 == raw2[0] as int / 16
            &&& raw1[1] == raw2[1]
            &&& raw1[2] as int / 16 == raw2[2] as int / 16
            &&& raw1[3] == raw2[3]
            &&& raw1[4] as int / 16 == raw2[4] as int / 16
            &&& raw1[5] == raw2[5]
        },
{
    lemma_digits(raw1[0], raw1[1]);
    lemma_digits(raw1[2], raw1[3]);
    lemma_digits(raw1[4], raw1[5]);
    lemma_digits(raw2[0], raw2[1]);
    lemma_digits(raw2[2], raw2[3]);
    lemma_digits(raw2[4], raw2[5]);
}

/// The value of an axis is a signed 12-bit number: the high byte of its word,
/// followed by the high nibble of the low byte.
proof fn lemma_digits(lo: u8, hi: u8)
    ensures
        digits_in(lo, hi) == crate::bytes::signed_12_bit(hi, lo as int / 16),
        -2048 <= digits_in(lo, hi) < 2048,
{
}

/// The value of an axis is the signed 16-bit word of its bytes, divided by 16
/// and rounded down. Equally, it is the one number of the 12-bit range that is
/// congruent to the upper twelve bits of the word.
pub proof fn law_digits(lo: u8, hi: u8)
    ensures
        -2048 <= digits_in(lo, hi) < 2048,
        (digits_in(lo, hi) - (16 * hi + lo as int / 16)) % 0x1000 == 0,
        forall|word: int|
            -0x8000 <= word < 0x8000 && #[trigger] ((word - (lo + 256 * hi)) % 0x1_0000) == 0
                ==> 16 * digits_in(lo, hi) <= word < 16 * digits_in(lo, hi) + 16,
{
}

/// Each axis comes from its own two bytes, low byte first: x, then y, then z.
pub proof fn law_acceleration_fields(raw: Seq<u8>)
    ensures
        -2048 <= acceleration_in(raw).x < 2048,
        -2048 <= acceleration_in(raw).y < 2048,
        -2048 <= acceleration_in(raw).z < 2048,
        (acceleration_in(raw).x - (16 * raw[1] + raw[0] as int / 16)) % 0x1000 == 0,
        (acceleration_in(raw).y - (16 * raw[3] + raw[2] as int / 16)) % 0x1000 == 0,
        (acceleration_in(raw).z - (16 * raw[5] + raw[4] as int / 16)) % 0x1000 == 0,
{
    law_digits(raw[0], raw[1]);
    law_digits(raw[2], raw[3]);
    law_digits(raw[4], raw[5]);
}

/// What a start-up of the LIS3DH does on each reply, where those before the
/// last brought bytes. A failed transfer is a bus error. Any chip ID but 0x33
/// is a missing device. With 0x33 it goes on: sampling at 100 Hz, then range
/// and resolution, and then it has succeeded.
pub proof fn law_init_course(history: Seq<Reply>)
    requires
        forall|i: int| 0 <= i < history.len() - 1 ==> (#[trigger] history[i]) is Some,
    ensures
        history.len() == 0 ==> Lis3dhInit::plan((), history) == Progress::<BusRequest, Result<Lis3dh, SensorError>>::Ask(
            BusRequest::Read { address: 0x19, reg: 0x0F, len: 1 },
        ),
        history.len() > 0 && history.last() is None ==> Lis3dhInit::plan((), history)
            == Progress::<BusRequest, Result<Lis3dh, SensorError>>::Done(Err(SensorError::BusError)),
        history.len() > 0 && history.last() is Some && history[0].unwrap()[0] != 0x33
            ==> Lis3dhInit::plan((), history) == Progress::<BusRequest, Result<Lis3dh, SensorError>>::Done(
            Err(SensorError::NoDevice),
        ),
        history.len() > 0 && history.last() is Some && history[0].unwrap()[0] == 0x33 ==> {
            &&& history.len() == 1 ==> Lis3dhInit::plan((), history) == Progress::<BusRequest, Result<Lis3dh, SensorError>>::Ask(
                BusRequest::Write { address: 0x19, reg: 0x20, value: 0x57 },
            )
            &&& history.len() == 2 ==> Lis3dhInit::plan((), history) == Progress::<BusRequest, Result<Lis3dh, SensorError>>::Ask(
                BusRequest::Write { address: 0x19, reg: 0x23, value: 0x88 },
            )
            &&& history.len() >= 3 ==> Lis3dhInit::plan((), history) == Progress::<
                BusRequest,
                Result<Lis3dh, SensorError>,
            >::Done(Ok(Lis3dh))
        },
{
}

/// What the chip ID register reads decides: a start-up whose chip ID was read
/// ends with a missing device if and only if the byte is not 0x33, and one that
/// succeeds has read 0x33.
pub proof fn law_chip_id_decides(history: Seq<Reply>)
    requires
        crate::procedure::is_transcript::<Lis3dhInit>((), history),
        history.len() > 0,
        history[0] is Some,
    ensures
        Lis3dhInit::plan((), history) == Progress::<BusRequest, Result<Lis3dh, SensorError>>::Done(
            Err(SensorError::NoDevice),
        ) <==> history[0].unwrap()[0] != 0x33,
        (Lis3dhInit::plan((), history) matches Progress::Done(Ok(_))) ==> history[0].unwrap()[0]
            == 0x33,
        history.len() > 1 ==> history[0].unwrap()[0] == 0x33,
{
    law_init_is_bounded(history);
}

/// What a read of the LIS3DH does: one transfer of the six output registers,
/// and on its reply a bus error or the three axes, each from its own two bytes.
pub proof fn law_read_course(history: Seq<Reply>)
    ensures
        history.len() == 0 ==> Lis3dhRead::plan((), history) == Progress::<
            BusRequest,
            Result<RawAcceleration, SensorError>,
        >::Ask(BusRequest::Read { address: 0x19, reg: 0xA8, len: 6 }),
        history.len() > 0 && history[0] is None ==> Lis3dhRead::plan((), history) == Progress::<
            BusRequest,
            Result<RawAcceleration, SensorError>,
        >::Done(Err(SensorError::BusError)),
        history.len() > 0 && history[0] is Some ==> {
            let raw = history[0].unwrap();
            Lis3dhRead::plan((), history) matches Progress::Done(Ok(sample)) && {
                &&& -2048 <= sample.x < 2048
                &&& -2048 <= sample.y < 2048
                &&& -2048 <= sample.z < 2048
                &&& (sample.x - (16 * raw[1] + raw[0] as int / 16)) % 0x1000 == 0
                &&& (sample.y - (16 * raw[3] + raw[2] as int / 16)) % 0x1000 == 0
                &&& (sample.z - (16 * raw[5] + raw[4] as int / 16)) % 0x1000 == 0
            }
        },
{
    assert(0x28u8 | 0x80u8 == 0xA8u8) by (bit_vector);
    if history.len() > 0 && history[0] is Some {
        law_acceleration_fields(history[0].unwrap());
    }
}

} // verus!
