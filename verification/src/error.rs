//! The conditions that stop a core.
use vstd::prelude::*;

verus! {

/// A condition that is fatal to the core that meets it.
///
/// The first four are raised by the engine itself; in each case the core is
/// left exactly as it was before the failing operation. The last two belong
/// to the transport that feeds the core and are raised by its owner.
#[derive(Clone, Copy, Debug, PartialEq, Eq, Structural)]
pub enum CoreError {
    /// A value was to be taken from an empty data stack.
    StackUnderflow,
    /// A return was attempted with no frame on the call stack.
    CallStackUnderflow,
    /// A stack position that reaches to the bottom of the data stack or below.
    IndexOutOfRange,
    /// A peer or the inception channel is gone.
    ChannelClosed,
    /// The byte source of an inception failed while it was read.
    StreamReadFailure,
    /// A memory access outside the bounds of the memory.
    AddressOutOfRange,
}

} // verus!
