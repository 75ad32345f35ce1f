//! The ways an operation on the session can fail.
use vstd::prelude::*;

verus! {

/// Why an operation did not produce what was asked for. Every failure is
/// recoverable by retrying the operation.
#[derive(Clone, Copy, Debug, PartialEq, Eq, Structural)]
pub enum SessionError {
    /// No profile came back, or it lists no usable account.
    ProfileUnavailable,
    /// A fetch or a mutation failed in transport, at the broker, or in
    /// decoding its answer.
    GatewayError,
    /// A view that needs the margin figures was asked for on a cash account.
    MissingMargin,
}

} // verus!
