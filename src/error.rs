use vstd::prelude::*;

verus! {

/// Failures that a sensor read or a driver construction can report.
#[derive(Clone, Copy, Debug, PartialEq, Eq, Structural)]
pub enum SensorError {
    /// A bus or pin operation failed, or a bus transaction timed out.
    Transport,
    /// The humidity sensor did not change its line level within the wait budget.
    ProtocolTimeout,
    /// The humidity payload's checksum byte does not match its data bytes.
    Checksum,
    /// Driver construction failed.
    Init,
    /// A compensation intermediate left the signed 64-bit range; calibration data
    /// of a working chip never leads here.
    OutOfRange,
}

} // verus!
