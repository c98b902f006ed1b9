use vstd::prelude::*;

verus! {

/// Status for any authentication or identity failure.
pub const STATUS_UNAUTHORIZED: u16 = 401;

/// Status for a request that was handled and answered with a payload.
pub const STATUS_OK: u16 = 200;

/// Status when the downstream domain service failed; the failure is
/// reported in the error envelope, never silently swallowed.
pub const STATUS_INTERNAL_ERROR: u16 = 500;

/// Terminal failure outcome of the authentication / identity layer: a
/// human-readable message and the status classification it maps to.
/// A rejection is built at the point of failure and turned into a
/// protocol-level reply at once; it is never retried or stored.
#[derive(Debug)]
pub struct Rejection {
    pub message: String,
    pub status: u16,
}

impl Rejection {
    /// The protocol-level reply for this rejection: its status code and
    /// its message as the response body.
    pub fn into_response(self) -> (r: (u16, String))
        ensures
            r.0 == self.status,
            r.1 == self.message,
    {
        (self.status, self.message)
    }
}

} // verus!
