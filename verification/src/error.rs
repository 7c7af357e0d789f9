//! The errors that the claim engine and the mint coordinator return.

use vstd::prelude::*;

verus! {

/// Everything that can go wrong for a caller of the service.
///
/// Every failure is reported to the caller as a typed value; nothing is
/// swallowed. `TooEarlyToClaim`, `UserNotFound` and `NotEnoughBadges` are
/// recoverable; `NftAlreadyClaimed` marks an account whose one-time token
/// was already issued; `MintError` reports that the issuance service
/// refused the mint call, with no local state touched.
#[derive(Clone, Copy, PartialEq, Eq, Debug)]
pub enum Error {
    /// A claim was attempted before the current era had elapsed.
    TooEarlyToClaim,
    /// The caller has no profile; `start` was never called.
    UserNotFound,
    /// A mint was attempted before the badge quota was met.
    NotEnoughBadges,
    /// A mint was attempted for an account that already holds its token.
    NftAlreadyClaimed,
    /// The issuance service returned an application-level failure.
    MintError,
}

} // verus!
