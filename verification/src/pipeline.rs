use vstd::prelude::*;
use vstd::pervasive::unreached;

use crate::auth::AuthStep;
use crate::auth::IdExtractor;
use crate::auth::Key;
use crate::auth::ServiceId;
use crate::auth::begin_auth;
use crate::auth::finish_auth;
use crate::handlers::DomainCall;
use crate::handlers::address_bytes;
use crate::handlers::call_scope;
use crate::handlers::get_address_balance;
use crate::handlers::get_address_info;
use crate::handlers::get_token_address_balance;
use crate::handlers::post_add_account_subscription;
use crate::handlers::post_address_check;
use crate::handlers::post_address_create;
use crate::handlers::subscription_key_of;
use crate::rejection::Rejection;
use crate::rejection::STATUS_INTERNAL_ERROR;
use crate::rejection::STATUS_OK;
use crate::rejection::STATUS_UNAUTHORIZED;
use crate::requests::Address;
use crate::requests::AddressCheckRequest;
use crate::requests::CreateAddressRequest;
use crate::responses::AddressBalanceDataResponse;
use crate::responses::AddressInfoDataResponse;
use crate::responses::AddressValidResponse;
use crate::responses::Envelope;
use crate::responses::TokenBalanceDataResponse;
use crate::responses::envelope;
use crate::responses::envelope_rel;
use crate::responses::token_balance_rows;
use crate::responses::token_rows_rel;

verus! {

/// One endpoint's parsed input, as routing hands it to the pipeline.
pub enum HandlerRequest {
    Create(CreateAddressRequest),
    Check(AddressCheckRequest),
    AddSubscription(AddressCheckRequest),
    Balance(Address),
    Info(Address),
    TokenBalance(Address),
}

/// An inbound request as the authentication layer sees it: the value of
/// the `api-key` header, if the caller sent one, and the routed input.
pub struct ApiRequest {
    pub api_key: Option<String>,
    pub handler: HandlerRequest,
}

/// The domain service's reply, shaped per operation; an `Err` carries the
/// service's failure descriptor.
pub enum DomainReply {
    Created(Result<String, String>),
    Checked(Result<bool, String>),
    Balance(Result<(u64, String), String>),
    Info(Result<String, String>),
    Tokens(Result<Vec<(String, u64)>, String>),
}

/// What the external collaborators answer this request: the key store's
/// reply to the single lookup the pipeline may make (an `Err` is the raw
/// store error, destined for operator logs only), and the domain
/// service's reply to the single call the pipeline may plan, were it
/// performed.
pub struct World {
    pub lookup: Result<Key, String>,
    pub domain: DomainReply,
}

/// The world on offer is shaped for this request: the domain reply
/// matches the operation its endpoint performs.
pub open spec fn reply_matches(h: HandlerRequest, d: DomainReply) -> bool {
    match h {
        HandlerRequest::Create(_) => d is Created,
        HandlerRequest::Check(_) => d is Checked,
        HandlerRequest::AddSubscription(_) => d is Checked,
        HandlerRequest::Balance(_) => d is Balance,
        HandlerRequest::Info(_) => d is Info,
        HandlerRequest::TokenBalance(_) => d is Tokens,
    }
}

/// Response bodies across the whole surface: the authentication layer's
/// bare rejection text, or one envelope per endpoint.
pub enum ResponseBody {
    Rejected(String),
    Created(Envelope<String>),
    Checked(Envelope<AddressValidResponse>),
    Balance(Envelope<AddressBalanceDataResponse>),
    Info(Envelope<AddressInfoDataResponse>),
    Tokens(Envelope<Vec<TokenBalanceDataResponse>>),
}

/// The protocol-level reply to one request.
pub struct ApiResponse {
    pub status: u16,
    pub body: ResponseBody,
}

/// The pipeline's verdict on one request: the reply sent, and the domain
/// call issued while handling it, if any was issued at all.
pub struct ProcessOutcome {
    pub response: ApiResponse,
    pub domain_call: Option<DomainCall>,
}

/// The status a handled request is answered with: success carries the
/// payload, a domain-service failure is reported as an internal error.
pub open spec fn reply_status<T>(rep: Result<T, String>) -> u16 {
    if rep is Ok {
        STATUS_OK
    } else {
        STATUS_INTERNAL_ERROR
    }
}

/// The request ended in the authentication / identity layer: no domain
/// call was issued and the reply is a 401 carrying exactly `message`.
pub open spec fn rejected_rel(out: ProcessOutcome, message: Seq<char>) -> bool {
    &&& out.domain_call is None
    &&& out.response.status == STATUS_UNAUTHORIZED
    &&& out.response.body matches ResponseBody::Rejected(m) && m@ == message
}

/// The reply rendered for a creation outcome.
pub open spec fn created_rel(rep: Result<String, String>, resp: ApiResponse) -> bool {
    &&& resp.status == reply_status(rep)
    &&& resp.body matches ResponseBody::Created(env) && envelope_rel(rep, env)
}

/// The reply rendered for a validation outcome.
pub open spec fn checked_rel(rep: Result<bool, String>, resp: ApiResponse) -> bool {
    &&& resp.status == reply_status(rep)
    &&& resp.body matches ResponseBody::Checked(env) && match rep {
        Ok(v) => env matches Envelope::Success(p) && p.valid == v,
        Err(m) => env matches Envelope::Error(msg) && msg == m,
    }
}

/// The reply rendered for a balance outcome.
pub open spec fn balance_rel(rep: Result<(u64, String), String>, resp: ApiResponse) -> bool {
    &&& resp.status == reply_status(rep)
    &&& resp.body matches ResponseBody::Balance(env) && match rep {
        Ok(pair) => env matches Envelope::Success(p) && p.amount == pair.0 && p.unit == pair.1,
        Err(m) => env matches Envelope::Error(msg) && msg == m,
    }
}

/// The reply rendered for a metadata outcome.
pub open spec fn info_rel(rep: Result<String, String>, resp: ApiResponse) -> bool {
    &&& resp.status == reply_status(rep)
    &&& resp.body matches ResponseBody::Info(env) && match rep {
        Ok(v) => env matches Envelope::Success(p) && p.info == v,
        Err(m) => env matches Envelope::Error(msg) && msg == m,
    }
}

/// The reply rendered for a token-balance outcome: one row per balance,
/// in the domain service's order.
pub open spec fn tokens_rel(rep: Result<Vec<(String, u64)>, String>, resp: ApiResponse) -> bool {
    &&& resp.status == reply_status(rep)
    &&& resp.body matches ResponseBody::Tokens(env) && match rep {
        Ok(pairs) => env matches Envelope::Success(rows) && token_rows_rel(pairs@, rows@),
        Err(m) => env matches Envelope::Error(msg) && msg == m,
    }
}

/// An authenticated request was handled: exactly one domain call was
/// issued; every scoped call carries `sid`, the identity resolved for
/// this request; and the reply renders the domain's answer to that call.
pub open spec fn handled_rel(
    sid: ServiceId,
    h: HandlerRequest,
    d: DomainReply,
    out: ProcessOutcome,
) -> bool {
    match h {
        HandlerRequest::Create(r) => {
            &&& out.domain_call matches Some(
                DomainCall::CreateAddress { service_id, request },
            ) && service_id == sid && request == r
            &&& d matches DomainReply::Created(rep) ==> created_rel(rep, out.response)
        },
        HandlerRequest::Check(r) => {
            &&& out.domain_call matches Some(DomainCall::CheckAddress { address }) && address
                == r.address
            &&& d matches DomainReply::Checked(rep) ==> checked_rel(rep, out.response)
        },
        HandlerRequest::AddSubscription(r) => {
            &&& out.domain_call matches Some(
                DomainCall::AddSubscription { address, subscription_key },
            ) && address == r.address && subscription_key@ == subscription_key_of(
                address_bytes(r.address),
            )
            &&& d matches DomainReply::Checked(rep) ==> checked_rel(rep, out.response)
        },
        HandlerRequest::Balance(a) => {
            &&& out.domain_call matches Some(
                DomainCall::GetBalance { service_id, address },
            ) && service_id == sid && address == a
            &&& d matches DomainReply::Balance(rep) ==> balance_rel(rep, out.response)
        },
        HandlerRequest::Info(a) => {
            &&& out.domain_call matches Some(
                DomainCall::GetInfo { service_id, address },
            ) && service_id == sid && address == a
            &&& d matches DomainReply::Info(rep) ==> info_rel(rep, out.response)
        },
        HandlerRequest::TokenBalance(a) => {
            &&& out.domain_call matches Some(
                DomainCall::GetTokenBalance { service_id, address },
            ) && service_id == sid && address == a
            &&& d matches DomainReply::Tokens(rep) ==> tokens_rel(rep, out.response)
        },
    }
}

/// Everything the pipeline decides about one request, relating the
/// request and the collaborators' replies to the outcome. A request
/// without the header, and a request whose lookup failed, end with a 401
/// and no domain call; the 401 for a failed lookup carries one fixed
/// message whatever the store error said. An authenticated request is
/// handled as `handled_rel` states.
pub open spec fn process_rel(req: ApiRequest, world: World, out: ProcessOutcome) -> bool {
    match req.api_key {
        None => rejected_rel(out, "missing API key"@),
        Some(_) => match world.lookup {
            Err(_) => rejected_rel(out, "failed to authorize"@),
            Ok(key) => handled_rel(key.service_id, req.handler, world.domain, out),
        },
    }
}

/// The validity flag carried by a check reply, when the check succeeded.
pub open spec fn checked_valid_flag(body: ResponseBody) -> Option<bool> {
    match body {
        ResponseBody::Checked(env) => match env {
            Envelope::Success(p) => Some(p.valid),
            Envelope::Error(_) => None,
        },
        _ => None,
    }
}

/// Law: a request without the authentication header is answered with a
/// 401 and the domain service is never invoked on its behalf.
pub proof fn lemma_missing_key_never_reaches_domain(
    req: ApiRequest,
    world: World,
    out: ProcessOutcome,
)
    requires
        req.api_key is None,
        process_rel(req, world, out),
    ensures
        out.domain_call is None,
        out.response.status == STATUS_UNAUTHORIZED,
{
}

/// Law: a request whose key-store lookup failed is answered with a 401
/// carrying the one generic message, whatever the store error said, and
/// the domain service is never invoked on its behalf.
pub proof fn lemma_failed_lookup_never_reaches_domain(
    req: ApiRequest,
    world: World,
    out: ProcessOutcome,
)
    requires
        req.api_key is Some,
        world.lookup is Err,
        process_rel(req, world, out),
    ensures
        out.domain_call is None,
        out.response.status == STATUS_UNAUTHORIZED,
        out.response.body matches ResponseBody::Rejected(m) && m@ == "failed to authorize"@,
{
}

/// Law: every scoped domain call issued while handling a request carries
/// exactly the identity on record for that request's key at lookup time.
pub proof fn lemma_identity_matches_key_record(
    req: ApiRequest,
    world: World,
    out: ProcessOutcome,
    key: Key,
    call: DomainCall,
)
    requires
        req.api_key is Some,
        world.lookup == Ok::<Key, String>(key),
        process_rel(req, world, out),
        out.domain_call == Some(call),
    ensures
        call_scope(call) is Some ==> call_scope(call) == Some(key.service_id),
{
}

/// Law: no cross-request leakage. Two requests resolved to different
/// identities never observe each other's identity: each one's scoped
/// domain call carries its own key's identity, so the two calls are
/// scoped differently.
pub proof fn lemma_no_cross_request_leakage(
    req1: ApiRequest,
    world1: World,
    out1: ProcessOutcome,
    key1: Key,
    call1: DomainCall,
    req2: ApiRequest,
    world2: World,
    out2: ProcessOutcome,
    key2: Key,
    call2: DomainCall,
)
    requires
        req1.api_key is Some,
        req2.api_key is Some,
        world1.lookup == Ok::<Key, String>(key1),
        world2.lookup == Ok::<Key, String>(key2),
        key1.service_id != key2.service_id,
        process_rel(req1, world1, out1),
        process_rel(req2, world2, out2),
        out1.domain_call == Some(call1),
        out2.domain_call == Some(call2),
        call_scope(call1) is Some,
        call_scope(call2) is Some,
    ensures
        call_scope(call1) == Some(key1.service_id),
        call_scope(call2) == Some(key2.service_id),
        call_scope(call1) != call_scope(call2),
{
    lemma_identity_matches_key_record(req1, world1, out1, key1, call1);
    lemma_identity_matches_key_record(req2, world2, out2, key2, call2);
}

/// Law: checking an address is idempotent. Two check requests for the
/// same address, with the domain verdict unchanged between them, are
/// answered with the same status and the same validity result, whichever
/// valid keys authenticate them.
pub proof fn lemma_check_idempotent(
    req1: ApiRequest,
    world1: World,
    out1: ProcessOutcome,
    req2: ApiRequest,
    world2: World,
    out2: ProcessOutcome,
)
    requires
        req1.api_key is Some,
        req2.api_key is Some,
        world1.lookup is Ok,
        world2.lookup is Ok,
        req1.handler matches HandlerRequest::Check(r1) && req2.handler
            matches HandlerRequest::Check(r2) && r1.address.0@ == r2.address.0@,
        world1.domain is Checked,
        world1.domain == world2.domain,
        process_rel(req1, world1, out1),
        process_rel(req2, world2, out2),
    ensures
        out1.response.status == out2.response.status,
        checked_valid_flag(out1.response.body) == checked_valid_flag(out2.response.body),
{
}

/// Render a creation outcome as the protocol reply.
pub fn render_created(rep: Result<String, String>) -> (resp: ApiResponse)
    ensures
        created_rel(rep, resp),
{
    let status: u16 = if rep.is_ok() {
        STATUS_OK
    } else {
        STATUS_INTERNAL_ERROR
    };
    ApiResponse { status, body: ResponseBody::Created(envelope(rep)) }
}

/// Render a validation outcome as the protocol reply.
pub fn render_checked(rep: Result<bool, String>) -> (resp: ApiResponse)
    ensures
        checked_rel(rep, resp),
{
    let status: u16 = if rep.is_ok() {
        STATUS_OK
    } else {
        STATUS_INTERNAL_ERROR
    };
    let verdict: Result<AddressValidResponse, String> = match rep {
        Ok(v) => Ok(AddressValidResponse::new(v)),
        Err(m) => Err(m),
    };
    ApiResponse { status, body: ResponseBody::Checked(envelope(verdict)) }
}

/// Render a balance outcome as the protocol reply.
pub fn render_balance(rep: Result<(u64, String), String>) -> (resp: ApiResponse)
    ensures
        balance_rel(rep, resp),
{
    let status: u16 = if rep.is_ok() {
        STATUS_OK
    } else {
        STATUS_INTERNAL_ERROR
    };
    let data: Result<AddressBalanceDataResponse, String> = match rep {
        Ok(pair) => Ok(AddressBalanceDataResponse::new(pair.0, pair.1)),
        Err(m) => Err(m),
    };
    ApiResponse { status, body: ResponseBody::Balance(envelope(data)) }
}

/// Render a metadata outcome as the protocol reply.
pub fn render_info(rep: Result<String, String>) -> (resp: ApiResponse)
    ensures
        info_rel(rep, resp),
{
    let status: u16 = if rep.is_ok() {
        STATUS_OK
    } else {
        STATUS_INTERNAL_ERROR
    };
    let data: Result<AddressInfoDataResponse, String> = match rep {
        Ok(v) => Ok(AddressInfoDataResponse::new(v)),
        Err(m) => Err(m),
    };
    ApiResponse { status, body: ResponseBody::Info(envelope(data)) }
}

/// Render a token-balance outcome as the protocol reply.
pub fn render_tokens(rep: Result<Vec<(String, u64)>, String>) -> (resp: ApiResponse)
    ensures
        tokens_rel(rep, resp),
{
    let status: u16 = if rep.is_ok() {
        STATUS_OK
    } else {
        STATUS_INTERNAL_ERROR
    };
    let rows: Result<Vec<TokenBalanceDataResponse>, String> = match rep {
        Ok(pairs) => Ok(token_balance_rows(&pairs)),
        Err(m) => Err(m),
    };
    ApiResponse { status, body: ResponseBody::Tokens(envelope(rows)) }
}

/// Turn a terminal rejection into the request's outcome: its status, its
/// message as the body, and no domain call.
fn reject_outcome(rej: Rejection) -> (out: ProcessOutcome)
    ensures
        out.domain_call is None,
        out.response.status == rej.status,
        out.response.body matches ResponseBody::Rejected(m) && m == rej.message,
{
    let (status, message) = rej.into_response();
    ProcessOutcome {
        response: ApiResponse { status, body: ResponseBody::Rejected(message) },
        domain_call: None,
    }
}

/// Run one request through the whole pipeline: authentication, identity
/// extraction, handler dispatch, and response mapping. The collaborators'
/// replies are taken as the `world` argument; the caller performs the
/// planned domain call (returned in the outcome) and must hand back that
/// call's reply.
pub fn process(req: ApiRequest, world: World) -> (out: ProcessOutcome)
    requires
        reply_matches(req.handler, world.domain),
    ensures
        process_rel(req, world, out),
{
    // The key value itself is consumed by the key store, whose reply for
    // this request stands in `world.lookup`.
    match begin_auth(req.api_key) {
        AuthStep::NeedLookup(_) => {},
        AuthStep::Rejected(rej) => {
            return reject_outcome(rej);
        },
    }
    let ctx = match finish_auth(world.lookup) {
        Ok(ctx) => ctx,
        Err(rej) => {
            return reject_outcome(rej);
        },
    };
    match req.handler {
        HandlerRequest::Create(r) => {
            let id = match IdExtractor::from_request(&ctx) {
                Ok(id) => id,
                Err(rej) => {
                    return reject_outcome(rej);
                },
            };
            let call = post_address_create(&id, r);
            let rep = match world.domain {
                DomainReply::Created(rep) => rep,
                _ => unreached(),
            };
            ProcessOutcome { response: render_created(rep), domain_call: Some(call) }
        },
        HandlerRequest::Check(r) => {
            let call = post_address_check(r);
            let rep = match world.domain {
                DomainReply::Checked(rep) => rep,
                _ => unreached(),
            };
            ProcessOutcome { response: render_checked(rep), domain_call: Some(call) }
        },
        HandlerRequest::AddSubscription(r) => {
            let call = post_add_account_subscription(r);
            let rep = match world.domain {
                DomainReply::Checked(rep) => rep,
                _ => unreached(),
            };
            ProcessOutcome { response: render_checked(rep), domain_call: Some(call) }
        },
        HandlerRequest::Balance(a) => {
            let id = match IdExtractor::from_request(&ctx) {
                Ok(id) => id,
                Err(rej) => {
                    return reject_outcome(rej);
                },
            };
            let call = get_address_balance(&id, a);
            let rep = match world.domain {
                DomainReply::Balance(rep) => rep,
                _ => unreached(),
            };
            ProcessOutcome { response: render_balance(rep), domain_call: Some(call) }
        },
        HandlerRequest::Info(a) => {
            let id = match IdExtractor::from_request(&ctx) {
                Ok(id) => id,
                Err(rej) => {
                    return reject_outcome(rej);
                },
            };
            let call = get_address_info(&id, a);
            let rep = match world.domain {
                DomainReply::Info(rep) => rep,
                _ => unreached(),
            };
            ProcessOutcome { response: render_info(rep), domain_call: Some(call) }
        },
        HandlerRequest::TokenBalance(a) => {
            let id = match IdExtractor::from_request(&ctx) {
                Ok(id) => id,
                Err(rej) => {
                    return reject_outcome(rej);
                },
            };
            let call = get_token_address_balance(&id, a);
            let rep = match world.domain {
                DomainReply::Tokens(rep) => rep,
                _ => unreached(),
            };
            ProcessOutcome { response: render_tokens(rep), domain_call: Some(call) }
        },
    }
}

} // verus!
