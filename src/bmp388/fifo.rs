//! Decoding of the BMP388 FIFO stream.
//!
//! A frame starts with a header byte, read on its own from the FIFO data
//! register. The header decides what is read next: a discarded word for
//! control and empty frames, or the queue length followed by one block read
//! whose size depends on the samples that the header announces and on
//! whether a sensor time frame trails it.
use crate::error::SensorError;
use crate::fields::{assemble_le24, le24};
use vstd::prelude::*;

verus! {

/// Header bit of a control frame.
pub const FIFO_CONTROL_FRAME_BIT: u8 = 0x80;

/// Header bit of a sensor frame.
pub const FIFO_SENSOR_FRAME_BIT: u8 = 0x40;

/// Control frame flag: the FIFO configuration is in error.
pub const FIFO_CONFIG_ERROR_BIT: u8 = 0x04;

/// Control frame flag: the FIFO configuration was changed.
pub const FIFO_CONFIG_CHANGE_BIT: u8 = 0x08;

/// Sensor frame flag: a temperature sample follows.
pub const FIFO_TEMPERATURE_BIT: u8 = 0x10;

/// Sensor frame flag: a pressure sample follows.
pub const FIFO_PRESSURE_BIT: u8 = 0x04;

/// One decoded FIFO record.
#[derive(Clone, Copy, Debug, PartialEq, Eq, Structural)]
pub struct FifoData {
    pub pressure_raw: Option<u32>,
    pub temperature_raw: Option<u32>,
    pub sensor_time: Option<u32>,
    pub config_change: bool,
}

/// What the decoder does after reading a frame header.
#[derive(Clone, Copy, Debug, PartialEq, Eq, Structural)]
pub enum FifoHeaderAction {
    /// Control frame reporting a configuration error: read one word, discard
    /// it, and fail.
    DiscardThenFail,
    /// Control frame reporting a configuration change: read one word,
    /// discard it, and report the change.
    DiscardThenConfigChange,
    /// Sensor frame without samples: read one word, discard it, and report
    /// an empty record.
    DiscardThenEmpty,
    /// Sensor frame with samples: read the queue length, then the frame's
    /// block.
    ReadLengthThenBlock,
    /// A header that is not understood: fail without reading more.
    Reject,
}

pub open spec fn has_bit(header: u8, bit: u8) -> bool {
    header & bit != 0
}

/// The action that a header calls for.
pub open spec fn header_action(header: u8) -> FifoHeaderAction {
    if has_bit(header, FIFO_CONTROL_FRAME_BIT) {
        if has_bit(header, FIFO_CONFIG_ERROR_BIT) {
            FifoHeaderAction::DiscardThenFail
        } else if has_bit(header, FIFO_CONFIG_CHANGE_BIT) {
            FifoHeaderAction::DiscardThenConfigChange
        } else {
            FifoHeaderAction::Reject
        }
    } else if has_bit(header, FIFO_SENSOR_FRAME_BIT) {
        if has_bit(header, FIFO_TEMPERATURE_BIT) || has_bit(header, FIFO_PRESSURE_BIT) {
            FifoHeaderAction::ReadLengthThenBlock
        } else {
            FifoHeaderAction::DiscardThenEmpty
        }
    } else {
        FifoHeaderAction::Reject
    }
}

/// A record in which nothing is present.
pub open spec fn empty_record(config_change: bool) -> FifoData {
    FifoData { pressure_raw: None, temperature_raw: None, sensor_time: None, config_change }
}

/// The result of a frame whose header needs no block read.
pub open spec fn header_only_result(header: u8) -> Result<FifoData, SensorError> {
    match header_action(header) {
        FifoHeaderAction::DiscardThenFail => Err(SensorError::FifoConfigError),
        FifoHeaderAction::DiscardThenConfigChange => Ok(empty_record(true)),
        FifoHeaderAction::DiscardThenEmpty => Ok(empty_record(false)),
        _ => Err(SensorError::UnknownFifoHeader(header)),
    }
}

/// Classifies a frame header.
pub fn classify_fifo_header(header: u8) -> (r: FifoHeaderAction)
    ensures
        r == header_action(header),
{
    if header & FIFO_CONTROL_FRAME_BIT != 0 {
        if header & FIFO_CONFIG_ERROR_BIT != 0 {
            FifoHeaderAction::DiscardThenFail
        } else if header & FIFO_CONFIG_CHANGE_BIT != 0 {
            FifoHeaderAction::DiscardThenConfigChange
        } else {
            FifoHeaderAction::Reject
        }
    } else if header & FIFO_SENSOR_FRAME_BIT != 0 {
        if header & FIFO_TEMPERATURE_BIT != 0 || header & FIFO_PRESSURE_BIT != 0 {
            FifoHeaderAction::ReadLengthThenBlock
        } else {
            FifoHeaderAction::DiscardThenEmpty
        }
    } else {
        FifoHeaderAction::Reject
    }
}

/// The outcome of a frame whose header calls for no block read: a control
/// frame, an empty frame or a header that is not understood.
pub fn header_only_outcome(header: u8) -> (r: Result<FifoData, SensorError>)
    requires
        header_action(header) != FifoHeaderAction::ReadLengthThenBlock,
    ensures
        r == header_only_result(header),
{
    match classify_fifo_header(header) {
        FifoHeaderAction::DiscardThenFail => Err(SensorError::FifoConfigError),
        FifoHeaderAction::DiscardThenConfigChange => Ok(
            FifoData {
                pressure_raw: None,
                temperature_raw: None,
                sensor_time: None,
                config_change: true,
            },
        ),
        FifoHeaderAction::DiscardThenEmpty => Ok(
            FifoData {
                pressure_raw: None,
                temperature_raw: None,
                sensor_time: None,
                config_change: false,
            },
        ),
        _ => Err(SensorError::UnknownFifoHeader(header)),
    }
}

/// The layout of a sensor frame's block: which samples it holds and whether
/// a sensor time frame trails it.
#[derive(Clone, Copy, Debug, PartialEq, Eq, Structural)]
pub struct FifoFrameShape {
    pub pressure: bool,
    pub temperature: bool,
    pub sensor_time: bool,
}

impl FifoFrameShape {
    /// Bytes of the block: the repeated header, three per sample, and four
    /// for a trailing sensor time frame (its header and three bytes).
    pub open spec fn len(&self) -> int {
        1 + (if self.temperature { 3int } else { 0 }) + (if self.pressure { 3int } else { 0 }) + (
        if self.sensor_time { 4int } else { 0 })
    }

    /// Offset of the pressure sample, which follows the temperature sample.
    pub open spec fn pressure_at(&self) -> int {
        if self.temperature { 4 } else { 1 }
    }

    /// Offset of the sensor time frame's header.
    pub open spec fn time_at(&self) -> int {
        self.len() - 4
    }

    pub fn block_len(&self) -> (r: usize)
        ensures
            r == self.len(),
    {
        let mut n: usize = 1;
        if self.temperature {
            n = n + 3;
        }
        if self.pressure {
            n = n + 3;
        }
        if self.sensor_time {
            n = n + 4;
        }
        n
    }
}

/// Block size of a frame with the samples that `header` announces.
pub open spec fn samples_len(header: u8) -> int {
    FifoFrameShape {
        pressure: has_bit(header, FIFO_PRESSURE_BIT),
        temperature: has_bit(header, FIFO_TEMPERATURE_BIT),
        sensor_time: false,
    }.len()
}

/// The shape of the frame that `header` opens. A sensor time frame is taken
/// to trail it only where sensor time was enabled when the FIFO was
/// configured and the queue length just read is exactly the size of the
/// frame together with the sensor time frame.
pub open spec fn frame_shape(header: u8, with_sensor_time: bool, queue_len: u16) -> FifoFrameShape {
    FifoFrameShape {
        pressure: has_bit(header, FIFO_PRESSURE_BIT),
        temperature: has_bit(header, FIFO_TEMPERATURE_BIT),
        sensor_time: with_sensor_time && queue_len == samples_len(header) + 4,
    }
}

pub fn fifo_frame_shape(header: u8, with_sensor_time: bool, queue_len: u16) -> (r: FifoFrameShape)
    ensures
        r == frame_shape(header, with_sensor_time, queue_len),
{
    let pressure = header & FIFO_PRESSURE_BIT != 0;
    let temperature = header & FIFO_TEMPERATURE_BIT != 0;
    let bare = FifoFrameShape { pressure, temperature, sensor_time: false };
    let n = bare.block_len();
    let sensor_time = with_sensor_time && queue_len as usize == n + 4;
    FifoFrameShape { pressure, temperature, sensor_time }
}

/// Whether a field that ends at `end` of a block of `len` bytes arrived,
/// `read` bytes having been read. The field that closes the block needs the
/// whole block.
pub open spec fn arrived(end: int, len: int, read: int) -> bool {
    if end == len {
        read == len
    } else {
        read >= end
    }
}

/// The 24-bit value at `at`, least significant byte first.
pub open spec fn sample_at(block: Seq<u8>, at: int) -> u32 {
    le24(block[at], block[at + 1], block[at + 2]) as u32
}

/// The record that a block of the given shape yields, `read` of its bytes
/// having arrived. The header alone decides the layout: a sample is present
/// exactly when its bytes arrived, and the sensor time exactly when the
/// whole block arrived.
pub open spec fn decoded_frame(shape: FifoFrameShape, block: Seq<u8>, read: int) -> FifoData {
    let len = shape.len();
    FifoData {
        temperature_raw: if shape.temperature && arrived(4, len, read) {
            Some(sample_at(block, 1))
        } else {
            None
        },
        pressure_raw: if shape.pressure && arrived(shape.pressure_at() + 3, len, read) {
            Some(sample_at(block, shape.pressure_at()))
        } else {
            None
        },
        sensor_time: if shape.sensor_time && read == len {
            Some(sample_at(block, shape.time_at() + 1))
        } else {
            None
        },
        config_change: false,
    }
}

fn field_arrived(end: usize, len: usize, read: usize) -> (r: bool)
    ensures
        r == arrived(end as int, len as int, read as int),
{
    if end == len {
        read == len
    } else {
        read >= end
    }
}

fn sample_in(block: &[u8], at: usize) -> (r: u32)
    requires
        at + 3 <= block@.len(),
    ensures
        r == sample_at(block@, at as int),
{
    let _n = block.len();
    assemble_le24(block[at], block[at + 1], block[at + 2])
}

/// Decodes the block of a sensor frame, of which `read` bytes arrived.
/// Samples whose bytes did not all arrive are absent.
pub fn decode_fifo_frame(shape: FifoFrameShape, block: &[u8], read: usize) -> (r: FifoData)
    requires
        block@.len() == shape.len(),
    ensures
        r == decoded_frame(shape, block@, read as int),
{
    let len = shape.block_len();
    let temperature_raw = if shape.temperature && field_arrived(4, len, read) {
        Some(sample_in(block, 1))
    } else {
        None
    };
    let pressure_at: usize = if shape.temperature {
        4
    } else {
        1
    };
    let pressure_raw = if shape.pressure && field_arrived(pressure_at + 3, len, read) {
        Some(sample_in(block, pressure_at))
    } else {
        None
    };
    let sensor_time = if shape.sensor_time && read == len {
        Some(sample_in(block, len - 3))
    } else {
        None
    };
    FifoData { pressure_raw, temperature_raw, sensor_time, config_change: false }
}

/// Progress of draining the FIFO. Each round reads one frame and then the
/// queue length; a queue length of zero ends the drain. The count of frames
/// read stops at `u64::MAX` rather than wrapping.
#[derive(Clone, Copy, Debug, PartialEq, Eq, Structural)]
pub struct FifoDrain {
    pub frames_read: u64,
    pub finished: bool,
}

impl FifoDrain {
    /// The state after a frame was read and then the queue length `len`.
    pub open spec fn after_frame(self, len: u16) -> FifoDrain {
        FifoDrain {
            frames_read: if self.frames_read < u64::MAX {
                (self.frames_read + 1) as u64
            } else {
                u64::MAX
            },
            finished: len == 0,
        }
    }

    pub fn new() -> (r: FifoDrain)
        ensures
            r.frames_read == 0,
            !r.finished,
    {
        FifoDrain { frames_read: 0, finished: false }
    }

    /// Whether another frame is to be read.
    pub fn wants_frame(&self) -> (r: bool)
        ensures
            r == !self.finished,
    {
        !self.finished
    }

    /// Records one frame read, followed by the queue length `len`.
    pub fn frame_read(&mut self, len: u16)
        ensures
            *final(self) == old(self).after_frame(len),
    {
        self.frames_read = self.frames_read.saturating_add(1);
        self.finished = len == 0;
    }
}

/// The drain state after feeding it the queue lengths `lens`, one after each
/// frame, for as long as it asks for frames.
pub open spec fn drain_run(s: FifoDrain, lens: Seq<u16>) -> FifoDrain
    decreases lens.len(),
{
    if s.finished || lens.len() == 0 {
        s
    } else {
        drain_run(s.after_frame(lens[0]), lens.drop_first())
    }
}

/// How many frames a drain in state `s` reads when the queue lengths `lens`
/// are reported after its frames, one by one.
pub open spec fn drain_frames(s: FifoDrain, lens: Seq<u16>) -> nat
    decreases lens.len(),
{
    if s.finished || lens.len() == 0 {
        0
    } else {
        1 + drain_frames(s.after_frame(lens[0]), lens.drop_first())
    }
}

/// Draining ends after exactly as many frame reads as there were rounds up
/// to the first queue length of zero: when the lengths reported after the
/// first `k` frames are not zero and the one after frame `k + 1` is, the
/// drain reads `k + 1` frames and then finishes.
pub proof fn lemma_drain_stops_at_first_empty_queue(lens: Seq<u16>, k: int)
    requires
        0 <= k < lens.len(),
        lens[k] == 0,
        forall|i: int| 0 <= i < k ==> lens[i] != 0,
    ensures
        drain_frames(FifoDrain { frames_read: 0, finished: false }, lens) == k + 1,
        drain_run(FifoDrain { frames_read: 0, finished: false }, lens).finished,
{
    lemma_drain_from(lens, k, FifoDrain { frames_read: 0, finished: false });
}

proof fn lemma_drain_from(lens: Seq<u16>, k: int, s: FifoDrain)
    requires
        0 <= k < lens.len(),
        !s.finished,
        lens[k] == 0,
        forall|i: int| 0 <= i < k ==> lens[i] != 0,
    ensures
        drain_frames(s, lens) == k + 1,
        drain_run(s, lens).finished,
    decreases lens.len(),
{
    let next = s.after_frame(lens[0]);
    let rest = lens.drop_first();
    if k == 0 {
        assert(next.finished);
        assert(drain_frames(next, rest) == 0);
        assert(drain_run(next, rest) == next);
    } else {
        assert(lens[0] != 0);
        assert forall|i: int| 0 <= i < k - 1 implies rest[i] != 0 by {
            assert(rest[i] == lens[i + 1]);
        }
        lemma_drain_from(rest, k - 1, next);
    }
}

/// Where the reading of one frame stands.
#[derive(Clone, Copy, Debug, PartialEq, Eq)]
pub enum FifoStage {
    AwaitHeader,
    /// A word is to be read and discarded after the header; then the frame
    /// completes with the outcome held here.
    AwaitDiscard(Result<FifoData, SensorError>),
    /// The queue length is to be read after the header.
    AwaitLength(u8),
    /// The frame's block is to be read.
    AwaitBlock(FifoFrameShape),
    Complete(Result<FifoData, SensorError>),
}

/// A read from the FIFO that the frame reader asks for.
#[derive(Clone, Copy, Debug, PartialEq, Eq, Structural)]
pub enum FifoRead {
    /// One byte from the FIFO data register: the frame header.
    Header,
    /// One word from the FIFO data register, to be discarded.
    DiscardWord,
    /// The FIFO length register.
    QueueLength,
    /// A block of this many bytes from the FIFO data register.
    Block(usize),
}

/// What the frame reader asks for next.
#[derive(Clone, Copy, Debug, PartialEq, Eq)]
pub enum FifoStep {
    Read(FifoRead),
    Complete(Result<FifoData, SensorError>),
}

/// Reads one FIFO frame. The caller performs the read that `request` names
/// and hands its result to the matching method, until the frame is
/// complete.
#[derive(Clone, Copy, Debug, PartialEq, Eq)]
pub struct FifoFrameReader {
    /// Whether sensor time was enabled when the FIFO was configured.
    pub with_sensor_time: bool,
    pub stage: FifoStage,
}

/// The step that a stage asks for.
pub open spec fn step_of(stage: FifoStage) -> FifoStep {
    match stage {
        FifoStage::AwaitHeader => FifoStep::Read(FifoRead::Header),
        FifoStage::AwaitDiscard(_) => FifoStep::Read(FifoRead::DiscardWord),
        FifoStage::AwaitLength(_) => FifoStep::Read(FifoRead::QueueLength),
        FifoStage::AwaitBlock(shape) => FifoStep::Read(FifoRead::Block(shape.len() as usize)),
        FifoStage::Complete(r) => FifoStep::Complete(r),
    }
}

/// The stage after the header was read.
pub open spec fn stage_after_header(header: u8) -> FifoStage {
    match header_action(header) {
        FifoHeaderAction::ReadLengthThenBlock => FifoStage::AwaitLength(header),
        FifoHeaderAction::Reject => FifoStage::Complete(header_only_result(header)),
        _ => FifoStage::AwaitDiscard(header_only_result(header)),
    }
}

impl FifoFrameReader {
    pub open spec fn after_header(self, header: u8) -> FifoFrameReader {
        match self.stage {
            FifoStage::AwaitHeader => FifoFrameReader { stage: stage_after_header(header), ..self },
            _ => self,
        }
    }

    pub open spec fn after_word(self) -> FifoFrameReader {
        match self.stage {
            FifoStage::AwaitDiscard(outcome) => FifoFrameReader {
                stage: FifoStage::Complete(outcome),
                ..self
            },
            _ => self,
        }
    }

    pub open spec fn after_length(self, queue_len: u16) -> FifoFrameReader {
        match self.stage {
            FifoStage::AwaitLength(header) => FifoFrameReader {
                stage: FifoStage::AwaitBlock(frame_shape(header, self.with_sensor_time, queue_len)),
                ..self
            },
            _ => self,
        }
    }

    pub open spec fn after_block(self, block: Seq<u8>, read: int) -> FifoFrameReader {
        match self.stage {
            FifoStage::AwaitBlock(shape) => FifoFrameReader {
                stage: FifoStage::Complete(Ok(decoded_frame(shape, block, read))),
                ..self
            },
            _ => self,
        }
    }

    /// Block length that the reader waits for, if it waits for a block.
    pub open spec fn expects_block(self, len: int) -> bool {
        match self.stage {
            FifoStage::AwaitBlock(shape) => shape.len() == len,
            _ => true,
        }
    }

    pub fn new(with_sensor_time: bool) -> (r: FifoFrameReader)
        ensures
            r.with_sensor_time == with_sensor_time,
            r.stage == FifoStage::AwaitHeader,
    {
        FifoFrameReader { with_sensor_time, stage: FifoStage::AwaitHeader }
    }

    /// The read to perform next, or the frame's outcome.
    pub fn request(&self) -> (r: FifoStep)
        ensures
            r == step_of(self.stage),
    {
        match self.stage {
            FifoStage::AwaitHeader => FifoStep::Read(FifoRead::Header),
            FifoStage::AwaitDiscard(_) => FifoStep::Read(FifoRead::DiscardWord),
            FifoStage::AwaitLength(_) => FifoStep::Read(FifoRead::QueueLength),
            FifoStage::AwaitBlock(shape) => FifoStep::Read(FifoRead::Block(shape.block_len())),
            FifoStage::Complete(r) => FifoStep::Complete(r),
        }
    }

    /// Takes in the header byte. Ignored unless a header was asked for.
    pub fn header_read(&mut self, header: u8)
        ensures
            *final(self) == old(self).after_header(header),
    {
        if let FifoStage::AwaitHeader = self.stage {
            self.stage = match classify_fifo_header(header) {
                FifoHeaderAction::ReadLengthThenBlock => FifoStage::AwaitLength(header),
                FifoHeaderAction::Reject => FifoStage::Complete(header_only_outcome(header)),
                _ => FifoStage::AwaitDiscard(header_only_outcome(header)),
            };
        }
    }

    /// Notes that the discarded word was read. Ignored unless it was asked
    /// for.
    pub fn word_read(&mut self)
        ensures
            *final(self) == old(self).after_word(),
    {
        if let FifoStage::AwaitDiscard(outcome) = self.stage {
            self.stage = FifoStage::Complete(outcome);
        }
    }

    /// Takes in the queue length. Ignored unless it was asked for.
    pub fn length_read(&mut self, queue_len: u16)
        ensures
            *final(self) == old(self).after_length(queue_len),
    {
        if let FifoStage::AwaitLength(header) = self.stage {
            self.stage = FifoStage::AwaitBlock(
                fifo_frame_shape(header, self.with_sensor_time, queue_len),
            );
        }
    }

    /// Takes in the block, of which `read` bytes arrived. Ignored unless a
    /// block was asked for.
    pub fn block_read(&mut self, block: &[u8], read: usize)
        requires
            old(self).expects_block(block@.len() as int),
        ensures
            *final(self) == old(self).after_block(block@, read as int),
    {
        if let FifoStage::AwaitBlock(shape) = self.stage {
            self.stage = FifoStage::Complete(Ok(decode_fifo_frame(shape, block, read)));
        }
    }
}

/// A sensor frame announcing a pressure sample and no temperature sample,
/// read with sensor time disabled: after the header the reader asks for the
/// queue length and then for exactly one block of four bytes; when that
/// block arrives whole, the frame is complete and holds the pressure sample
/// and nothing else.
pub proof fn lemma_pressure_only_frame(header: u8, queue_len: u16, block: Seq<u8>)
    requires
        header_action(header) == FifoHeaderAction::ReadLengthThenBlock,
        has_bit(header, FIFO_PRESSURE_BIT),
        !has_bit(header, FIFO_TEMPERATURE_BIT),
        block.len() == 4,
    ensures
        ({
            let r0 = FifoFrameReader { with_sensor_time: false, stage: FifoStage::AwaitHeader };
            let r1 = r0.after_header(header);
            let r2 = r1.after_length(queue_len);
            let r3 = r2.after_block(block, 4);
            &&& step_of(r1.stage) == FifoStep::Read(FifoRead::QueueLength)
            &&& step_of(r2.stage) == FifoStep::Read(FifoRead::Block(4))
            &&& step_of(r3.stage) == FifoStep::Complete(
                Ok(
                    FifoData {
                        pressure_raw: Some(sample_at(block, 1)),
                        temperature_raw: None,
                        sensor_time: None,
                        config_change: false,
                    },
                ),
            )
        }),
{
}

/// A control frame flagging a configuration change (and no configuration
/// error): after the header the reader asks for exactly one word to discard,
/// and then completes with a record that has the change flag set and every
/// field absent.
pub proof fn lemma_config_change_frame(with_sensor_time: bool, header: u8)
    requires
        has_bit(header, FIFO_CONTROL_FRAME_BIT),
        has_bit(header, FIFO_CONFIG_CHANGE_BIT),
        !has_bit(header, FIFO_CONFIG_ERROR_BIT),
    ensures
        ({
            let r0 = FifoFrameReader { with_sensor_time, stage: FifoStage::AwaitHeader };
            let r1 = r0.after_header(header);
            let r2 = r1.after_word();
            &&& step_of(r1.stage) == FifoStep::Read(FifoRead::DiscardWord)
            &&& step_of(r2.stage) == FifoStep::Complete(
                Ok(
                    FifoData {
                        pressure_raw: None,
                        temperature_raw: None,
                        sensor_time: None,
                        config_change: true,
                    },
                ),
            )
        }),
{
}

} // verus!
