use vstd::prelude::*;

use crate::rejection::Rejection;
use crate::rejection::STATUS_UNAUTHORIZED;

verus! {

/// Opaque identifier of an authenticated caller, stable for the lifetime
/// of its key. It only ever exists attached to a request after a
/// successful key-store lookup for that request: it is never fabricated,
/// defaulted, or inherited from another request.
#[derive(Clone, Copy, PartialEq, Eq, Structural, Debug, Hash)]
pub struct ServiceId(pub u64);

/// A key record as the key store returns it: the identity the looked-up
/// key maps to. Auxiliary key metadata is outside this layer.
#[derive(Clone, Copy, PartialEq, Eq, Structural, Debug)]
pub struct Key {
    pub service_id: ServiceId,
}

/// Per-request store for the resolved identity: created empty for each
/// inbound request, filled at most once by the authentication stage, and
/// only read afterwards. It is owned by its request alone and discarded
/// with it, so an identity cannot leak across requests.
pub struct RequestContext {
    service_id: Option<ServiceId>,
}

impl RequestContext {
    /// The identity attached to this request, if authentication attached one.
    pub closed spec fn id(&self) -> Option<ServiceId> {
        self.service_id
    }

    /// A fresh context carrying no identity: what every request starts from.
    pub fn empty() -> (ctx: RequestContext)
        ensures
            ctx.id() is None,
    {
        RequestContext { service_id: None }
    }

    /// The authentication stage's single write: a context carrying the
    /// identity resolved for this request.
    pub fn with_service_id(id: ServiceId) -> (ctx: RequestContext)
        ensures
            ctx.id() == Some(id),
    {
        RequestContext { service_id: Some(id) }
    }

    /// Read the attached identity.
    pub fn service_id(&self) -> (r: Option<ServiceId>)
        ensures
            r == self.id(),
    {
        self.service_id
    }
}

/// Outcome of the first authentication stage: either the key value that
/// must now be looked up in the key store, or a terminal rejection.
pub enum AuthStep {
    NeedLookup(String),
    Rejected(Rejection),
}

/// First authentication stage: read the `api-key` header. A request
/// without the header is rejected with 401 before any key-store work, so
/// no lookup and no domain call ever happens for it.
pub fn begin_auth(api_key: Option<String>) -> (step: AuthStep)
    ensures
        match api_key {
            Some(k) => step matches AuthStep::NeedLookup(key) && key == k,
            None => step matches AuthStep::Rejected(r) && r.status == STATUS_UNAUTHORIZED
                && r.message@ == "missing API key"@,
        },
{
    match api_key {
        Some(k) => AuthStep::NeedLookup(k),
        None => AuthStep::Rejected(
            Rejection { message: "missing API key".to_owned(), status: STATUS_UNAUTHORIZED },
        ),
    }
}

/// Second authentication stage: judge the key store's reply. On success
/// the returned context carries exactly the identity on record for the
/// key. Any lookup failure is terminal and answered with one generic 401
/// message: the raw store error is for operator logs only and is never
/// echoed to the caller, whatever it says.
pub fn finish_auth(lookup: Result<Key, String>) -> (r: Result<RequestContext, Rejection>)
    ensures
        match lookup {
            Ok(key) => r matches Ok(ctx) && ctx.id() == Some(key.service_id),
            Err(_) => r matches Err(rej) && rej.status == STATUS_UNAUTHORIZED
                && rej.message@ == "failed to authorize"@,
        },
{
    match lookup {
        Ok(key) => Ok(RequestContext::with_service_id(key.service_id)),
        Err(_) => Err(
            Rejection { message: "failed to authorize".to_owned(), status: STATUS_UNAUTHORIZED },
        ),
    }
}

/// Handler-side identity binding: the one contract between "an identity
/// was resolved" and "a handler consumes it". It is independent of the
/// authentication stage, so a route wired without that stage fails closed
/// instead of proceeding with no identity.
pub struct IdExtractor(pub ServiceId);

impl IdExtractor {
    /// Pull the resolved identity out of the request's context; a request
    /// that reaches a handler without one is rejected with 401.
    pub fn from_request(ctx: &RequestContext) -> (r: Result<IdExtractor, Rejection>)
        ensures
            match ctx.id() {
                Some(id) => r matches Ok(e) && e.0 == id,
                None => r matches Err(rej) && rej.status == STATUS_UNAUTHORIZED
                    && rej.message@ == "service id not found"@,
            },
    {
        match ctx.service_id() {
            Some(id) => Ok(IdExtractor(id)),
            None => Err(
                Rejection {
                    message: "service id not found".to_owned(),
                    status: STATUS_UNAUTHORIZED,
                },
            ),
        }
    }
}

} // verus!
