use vstd::prelude::*;

verus! {

/// A field that a ceremony cannot go without.
#[derive(Debug, Clone, Copy, PartialEq, Eq, Structural)]
pub enum RequiredField {
    RelyingPartyId,
    Challenge,
}

/// Every way a ceremony can fail.
#[derive(Debug, Clone, PartialEq)]
pub enum CeremonyError {
    /// A required field is missing or malformed; no native call was made.
    InvalidArgument(RequiredField),
    /// The native authenticator provider does not exist on this OS version.
    Unavailable,
    /// The platform has no authenticator adapter at all.
    Unsupported,
    /// The native layer reported an error, kept as its code and message.
    NativeFailure { code: i64, message: String },
    /// The ceiling elapsed before the native layer completed.
    Timeout,
}

} // verus!
