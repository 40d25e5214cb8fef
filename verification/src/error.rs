use vstd::prelude::*;

verus! {

/// The error kinds the driver distinguishes.
///
/// `Io` is a failed bus transaction reported by the register backend.
/// `Decode` is a register byte that does not correspond to any defined
/// bit-field combination of the register type it was read as.
/// `VerifyMismatch` is a write-validate readback that differs from the
/// written value, signalling miswiring or an unresponsive device.
/// `OutOfRange` is a frequency, rate or power argument outside the
/// representable register range, rejected before any register write.
/// `TimedOut` is a bounded interrupt wait that expired.
#[derive(Clone, Copy, Debug, PartialEq, Eq, Structural)]
pub enum RfmError {
    Io,
    Decode,
    VerifyMismatch,
    OutOfRange,
    TimedOut,
}

} // verus!
