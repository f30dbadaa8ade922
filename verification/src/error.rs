use vstd::prelude::*;

verus! {

/// Why an encryption gave no ciphertext, or a run no report.
#[derive(Debug, Clone, Copy, PartialEq, Eq, Structural)]
pub enum BenchError {
    /// The key, the initialisation vector or the nonce is not as long as the
    /// cipher takes it. No run ends on this: a run is given 16 bytes of each.
    InvalidLength,
    /// The padded ciphertext does not fit the buffer it is written to.
    BufferTooSmall,
    /// The message is longer than the authenticated mode seals.
    MessageTooLong,
}

} // verus!
