use vstd::prelude::*;

verus! {

/// What can keep a credential from being issued.
#[derive(Debug, Clone, Copy, PartialEq, Eq, Structural)]
pub enum TokenError {
    /// The host's wall clock reads a time before the Unix epoch.
    ClockBeforeEpoch,
    /// The signed-token encoder rejected the header, the claims or the key.
    Encoder,
    /// Adding a lifetime to the current instant left the representable range.
    Overflow,
}

} // verus!
