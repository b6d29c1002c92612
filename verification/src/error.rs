//! The failure kinds of the client, one variant per protocol-level cause.

use vstd::prelude::*;

verus! {

/// Every operation of the client either fully succeeds or fails with one of
/// these kinds; no failure is retried or recovered locally.
#[derive(Debug, Clone, PartialEq, Eq)]
pub enum GymError {
    /// The underlying request/response exchange failed.
    Transport { detail: String },
    /// A space description from the service is missing a field, ill-typed,
    /// or names an unrecognized variant; `detail` names the offending field
    /// or the unrecognized variant name.
    Schema { detail: String },
    /// The operation needs the wire encoding of a Tuple space, which is
    /// deliberately not implemented.
    UnsupportedSpace,
    /// The creation request returned no instance identifier for the
    /// requested symbolic environment id.
    UnknownEnvironment { env_id: String },
    /// The caller-supplied action does not match the arity required by the
    /// resolved action space; raised before any request is issued.
    InvalidAction { expected: u64, got: u64 },
    /// A reset or step response is missing or mistyping the named field; the
    /// remote service broke the protocol contract.
    Protocol { field: String },
}

} // verus!
