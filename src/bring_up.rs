//! Bringing a chip from power-on to a known state: check its identity,
//! soft-reset it, and wait for it to settle.
//!
//! The sequence is a state machine. The caller asks it which bus operation
//! comes next, performs that operation, and reports back; a failure of the
//! bus itself is the caller's and ends the sequence there.
use crate::error::SensorError;
use vstd::prelude::*;

verus! {

/// What differs between chips in the bring-up sequence.
#[derive(Clone, Copy, Debug, PartialEq, Eq, Structural)]
pub struct ChipProfile {
    /// Register that holds the chip id.
    pub id_register: u8,
    /// The id that the chip must report.
    pub chip_id: u8,
    /// Register that takes the reset command.
    pub reset_register: u8,
    /// The soft reset command.
    pub reset_command: u8,
    /// Time to wait after the reset, in milliseconds. Register reads during
    /// that time return undefined values.
    pub settle_ms: u32,
}

/// Where the sequence stands.
#[derive(Clone, Copy, Debug, PartialEq, Eq, Structural)]
pub enum BringUpPhase {
    ReadingChipId,
    Resetting,
    Settling,
    /// Reset and settled: the chip is in sleep mode with its default
    /// oversampling, ready for its calibration to be read.
    Ready,
    Failed(SensorError),
}

/// The bus operation that the sequence asks for next.
#[derive(Clone, Copy, Debug, PartialEq, Eq, Structural)]
pub enum BusRequest {
    /// Read one byte from the register.
    ReadByte(u8),
    /// Write the value to the register.
    WriteByte(u8, u8),
    /// Block for this many milliseconds.
    WaitMs(u32),
    /// Nothing more: the chip is ready.
    Finished,
    /// Nothing more: the sequence failed.
    Fail(SensorError),
}

/// What the caller reports after performing a request.
#[derive(Clone, Copy, Debug, PartialEq, Eq, Structural)]
pub enum BringUpEvent {
    /// The byte that a `ReadByte` returned.
    ByteRead(u8),
    /// A `WriteByte` or `WaitMs` was carried out.
    Done,
}

#[derive(Clone, Copy, Debug, PartialEq, Eq, Structural)]
pub struct BringUp {
    pub profile: ChipProfile,
    pub phase: BringUpPhase,
}

/// The request that a phase stands for.
pub open spec fn request_of(profile: ChipProfile, phase: BringUpPhase) -> BusRequest {
    match phase {
        BringUpPhase::ReadingChipId => BusRequest::ReadByte(profile.id_register),
        BringUpPhase::Resetting => BusRequest::WriteByte(
            profile.reset_register,
            profile.reset_command,
        ),
        BringUpPhase::Settling => BusRequest::WaitMs(profile.settle_ms),
        BringUpPhase::Ready => BusRequest::Finished,
        BringUpPhase::Failed(e) => BusRequest::Fail(e),
    }
}

/// The phase that follows `phase` on `event`. An event that does not answer
/// the pending request changes nothing, and neither does any event once the
/// sequence is over.
pub open spec fn next_phase(profile: ChipProfile, phase: BringUpPhase, event: BringUpEvent) -> BringUpPhase {
    match (phase, event) {
        (BringUpPhase::ReadingChipId, BringUpEvent::ByteRead(id)) => if id == profile.chip_id {
            BringUpPhase::Resetting
        } else {
            BringUpPhase::Failed(SensorError::UnexpectedChipId(id))
        },
        (BringUpPhase::Resetting, BringUpEvent::Done) => BringUpPhase::Settling,
        (BringUpPhase::Settling, BringUpEvent::Done) => BringUpPhase::Ready,
        _ => phase,
    }
}

impl BringUp {
    pub fn new(profile: ChipProfile) -> (r: BringUp)
        ensures
            r.profile == profile,
            r.phase == BringUpPhase::ReadingChipId,
    {
        BringUp { profile, phase: BringUpPhase::ReadingChipId }
    }

    /// The bus operation to perform next.
    pub fn request(&self) -> (r: BusRequest)
        ensures
            r == request_of(self.profile, self.phase),
    {
        match self.phase {
            BringUpPhase::ReadingChipId => BusRequest::ReadByte(self.profile.id_register),
            BringUpPhase::Resetting => BusRequest::WriteByte(
                self.profile.reset_register,
                self.profile.reset_command,
            ),
            BringUpPhase::Settling => BusRequest::WaitMs(self.profile.settle_ms),
            BringUpPhase::Ready => BusRequest::Finished,
            BringUpPhase::Failed(e) => BusRequest::Fail(e),
        }
    }

    /// Takes in the outcome of the last request.
    pub fn advance(&mut self, event: BringUpEvent)
        ensures
            final(self).profile == old(self).profile,
            final(self).phase == next_phase(old(self).profile, old(self).phase, event),
    {
        let next = match (self.phase, event) {
            (BringUpPhase::ReadingChipId, BringUpEvent::ByteRead(id)) => {
                if id == self.profile.chip_id {
                    BringUpPhase::Resetting
                } else {
                    BringUpPhase::Failed(SensorError::UnexpectedChipId(id))
                }
            },
            (BringUpPhase::Resetting, BringUpEvent::Done) => BringUpPhase::Settling,
            (BringUpPhase::Settling, BringUpEvent::Done) => BringUpPhase::Ready,
            _ => self.phase,
        };
        self.phase = next;
    }
}

/// A chip reporting the expected id is reset with the profile's command,
/// then waited on for the settle time, and is then ready. A chip reporting
/// any other byte fails the sequence with that byte, and no event after that
/// leads to another request: in particular no register is written.
pub proof fn lemma_bring_up_outcome(profile: ChipProfile, id: u8)
    ensures
        ({
            let s1 = next_phase(profile, BringUpPhase::ReadingChipId, BringUpEvent::ByteRead(id));
            let s2 = next_phase(profile, s1, BringUpEvent::Done);
            let s3 = next_phase(profile, s2, BringUpEvent::Done);
            &&& request_of(profile, BringUpPhase::ReadingChipId) == BusRequest::ReadByte(
                profile.id_register,
            )
            &&& id == profile.chip_id ==> {
                &&& request_of(profile, s1) == BusRequest::WriteByte(
                    profile.reset_register,
                    profile.reset_command,
                )
                &&& request_of(profile, s2) == BusRequest::WaitMs(profile.settle_ms)
                &&& s3 == BringUpPhase::Ready
                &&& request_of(profile, s3) == BusRequest::Finished
            }
            &&& id != profile.chip_id ==> {
                &&& s1 == BringUpPhase::Failed(SensorError::UnexpectedChipId(id))
                &&& request_of(profile, s1) == BusRequest::Fail(SensorError::UnexpectedChipId(id))
                &&& forall|e: BringUpEvent| #[trigger] next_phase(profile, s1, e) == s1
            }
        }),
{
}

} // verus!
