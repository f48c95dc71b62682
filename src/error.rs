use vstd::prelude::*;

verus! {

/// What a configuration call, a transfer start or a wait can report.
#[derive(Clone, Copy, Debug, PartialEq, Eq, Structural)]
pub enum Error {
    /// Too few descriptor slots, a line mode without its pins, a zero-sized
    /// buffer where a direction is required, or an unreachable clock rate.
    ConfigurationError,
    /// The channel or bus already carries an unfinished transfer.
    ResourceBusy,
    /// The FIFO path was handed more bytes than the FIFO holds.
    FifoOverflow,
    /// The hardware did not signal completion before the deadline.
    Timeout,
}

} // verus!
