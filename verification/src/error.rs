//! Why an operation was refused.

use vstd::prelude::*;

verus! {

/// The kinds of refusal. The transport turns each into a status of its own;
/// nothing here knows of status codes.
#[derive(Clone, Copy, Debug, PartialEq, Eq, Structural)]
pub enum Rejection {
    /// No session, or one that is unknown or expired; also a wrong password.
    Unauthenticated,
    /// A valid session whose user may not do this to this resource.
    Unauthorized,
    /// A user, group or message that the request names does not exist.
    NotFound,
    /// A unique key is taken already.
    Conflict,
    /// The data store failed, or answered something other than was asked.
    StoreError,
}

} // verus!
