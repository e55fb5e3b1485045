//! The error taxonomy.  Every error is returned synchronously as part of the
//! command's result; a failed command leaves all state unchanged.

use vstd::prelude::*;

verus! {

/// Why a command or query was refused.
#[derive(Clone, Copy, Debug, PartialEq, Eq, Structural)]
pub enum ContractError {
    /// The name has no valid record, or the queried entity does not exist.
    NotFound,
    /// A fresh registration was attempted over a still-valid lease.
    AlreadyExists,
    /// The caller fails the relevant authorization check: wrong owner,
    /// expired or absent approval or operator grant, or a non-admin caller of
    /// an admin-only command.
    Unauthorized,
    /// The attached funds do not cover the required quote.
    InsufficientPayment,
    /// A malformed argument: an invalid recipient address, an approval or
    /// operator expiration already in the past, an undecodable opaque
    /// payload, or a requested duration whose expiry would not fit the
    /// clock's range.
    InvalidArgument,
}

} // verus!
