//! Failures that the register logic itself can detect. A failure of the bus
//! transport is the caller's own error and never passes through here.
use vstd::prelude::*;

verus! {

#[derive(Clone, Copy, Debug, PartialEq, Eq, Structural)]
pub enum SensorError {
    /// The identity register did not hold the expected chip id; the byte
    /// that was found.
    UnexpectedChipId(u8),
    /// The FIFO reported a configuration error in a control frame.
    FifoConfigError,
    /// A FIFO frame header that is neither a known control frame nor a
    /// sensor frame.
    UnknownFifoHeader(u8),
}

} // verus!
