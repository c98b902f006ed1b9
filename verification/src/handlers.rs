use vstd::prelude::*;
use vstd::string::StringSliceAdditionalSpecFns;

use crate::auth::IdExtractor;
use crate::auth::ServiceId;
use crate::requests::Address;
use crate::requests::AddressCheckRequest;
use crate::requests::CreateAddressRequest;

verus! {

/// A fully determined domain-service invocation, as a handler plans it.
/// Identity-scoped operations carry the ServiceId resolved for this very
/// request; the surrounding application only performs the call and hands
/// the reply back, so it cannot substitute another request's identity.
pub enum DomainCall {
    CreateAddress { service_id: ServiceId, request: CreateAddressRequest },
    CheckAddress { address: Address },
    AddSubscription { address: Address, subscription_key: Vec<u8> },
    GetBalance { service_id: ServiceId, address: Address },
    GetInfo { service_id: ServiceId, address: Address },
    GetTokenBalance { service_id: ServiceId, address: Address },
}

/// The identity a planned call is scoped by, if its operation is scoped.
/// Address checking and subscription registration are the two unscoped
/// operations.
pub open spec fn call_scope(call: DomainCall) -> Option<ServiceId> {
    match call {
        DomainCall::CreateAddress { service_id, .. } => Some(service_id),
        DomainCall::CheckAddress { .. } => None,
        DomainCall::AddSubscription { .. } => None,
        DomainCall::GetBalance { service_id, .. } => Some(service_id),
        DomainCall::GetInfo { service_id, .. } => Some(service_id),
        DomainCall::GetTokenBalance { service_id, .. } => Some(service_id),
    }
}

/// The raw bytes of an address's text form, from which its subscription
/// key is derived.
pub open spec fn address_bytes(address: Address) -> Seq<u8> {
    vstd::utf8::encode_utf8(address.0@)
}

/// The number of bytes in a subscription key.
pub const SUBSCRIPTION_KEY_LEN: usize = 32;

/// The subscription key derived from an address's raw bytes: the bytes
/// laid big-endian into a 32-byte word. Input shorter than 32 bytes is
/// right-aligned behind leading zeros; longer input contributes exactly
/// its leading 32 bytes, so the derivation is total and the registration
/// can never be skipped for want of a key.
pub open spec fn subscription_key_of(data: Seq<u8>) -> Seq<u8> {
    if data.len() <= SUBSCRIPTION_KEY_LEN {
        Seq::new(
            SUBSCRIPTION_KEY_LEN as nat,
            |i: int|
                if i < SUBSCRIPTION_KEY_LEN - data.len() {
                    0u8
                } else {
                    data[i - (SUBSCRIPTION_KEY_LEN - data.len())]
                },
        )
    } else {
        data.subrange(0, SUBSCRIPTION_KEY_LEN as int)
    }
}

/// Compute the subscription key for an address from the raw bytes of its
/// text form.
pub fn subscription_key(address: &Address) -> (key: Vec<u8>)
    ensures
        key@ == subscription_key_of(address_bytes(*address)),
{
    let bytes: &[u8] = address.0.as_str().as_bytes();
    let n: usize = bytes.len();
    let mut key: Vec<u8> = Vec::new();
    if n <= SUBSCRIPTION_KEY_LEN {
        let pad: usize = SUBSCRIPTION_KEY_LEN - n;
        let mut i: usize = 0;
        while i < pad
            invariant
                i <= pad,
                pad == SUBSCRIPTION_KEY_LEN - n,
                n == bytes@.len(),
                key@.len() == i,
                forall|j: int| 0 <= j < i ==> key@[j] == 0u8,
            decreases pad - i,
        {
            key.push(0u8);
            i = i + 1;
        }
        let mut j: usize = 0;
        while j < n
            invariant
                j <= n,
                pad == SUBSCRIPTION_KEY_LEN - n,
                n == bytes@.len(),
                key@.len() == pad + j,
                forall|k: int| 0 <= k < pad ==> key@[k] == 0u8,
                forall|k: int| 0 <= k < j ==> key@[pad + k] == bytes@[k],
            decreases n - j,
        {
            key.push(bytes[j]);
            j = j + 1;
        }
        proof {
            assert(key@ =~= subscription_key_of(bytes@));
        }
    } else {
        let mut i: usize = 0;
        while i < SUBSCRIPTION_KEY_LEN
            invariant
                i <= SUBSCRIPTION_KEY_LEN,
                bytes@.len() > SUBSCRIPTION_KEY_LEN,
                key@.len() == i,
                forall|j: int| 0 <= j < i ==> key@[j] == bytes@[j],
            decreases SUBSCRIPTION_KEY_LEN - i,
        {
            key.push(bytes[i]);
            i = i + 1;
        }
        proof {
            assert(key@ =~= subscription_key_of(bytes@));
        }
    }
    key
}

/// POST /address/create: plan the creation call, scoped by the identity
/// extracted for this request, with the caller's parameters unchanged.
pub fn post_address_create(id: &IdExtractor, req: CreateAddressRequest) -> (call: DomainCall)
    ensures
        call matches DomainCall::CreateAddress { service_id, request } && service_id == id.0
            && request == req,
{
    DomainCall::CreateAddress { service_id: id.0, request: req }
}

/// POST /address/check: plan the (unscoped) validation of the submitted
/// address; the domain service owns the address grammar.
pub fn post_address_check(req: AddressCheckRequest) -> (call: DomainCall)
    ensures
        call matches DomainCall::CheckAddress { address } && address == req.address,
{
    DomainCall::CheckAddress { address: req.address }
}

/// POST /address/add: plan the validation of the submitted address
/// together with the subscription registration keyed by that address.
/// Carrying the registration inside the planned call makes it part of the
/// request's one domain invocation: the application that performs it must
/// surface its failure to operators rather than drop it.
pub fn post_add_account_subscription(req: AddressCheckRequest) -> (call: DomainCall)
    ensures
        call matches DomainCall::AddSubscription { address, subscription_key } && address
            == req.address && subscription_key@ == subscription_key_of(
            address_bytes(req.address),
        ),
{
    let key = subscription_key(&req.address);
    DomainCall::AddSubscription { address: req.address, subscription_key: key }
}

/// GET /address/{address}: plan the balance lookup for (identity, address).
pub fn get_address_balance(id: &IdExtractor, address: Address) -> (call: DomainCall)
    ensures
        call matches DomainCall::GetBalance { service_id, address: a } && service_id == id.0 && a
            == address,
{
    DomainCall::GetBalance { service_id: id.0, address }
}

/// GET /address/{address}/info: plan the metadata lookup for
/// (identity, address).
pub fn get_address_info(id: &IdExtractor, address: Address) -> (call: DomainCall)
    ensures
        call matches DomainCall::GetInfo { service_id, address: a } && service_id == id.0 && a
            == address,
{
    DomainCall::GetInfo { service_id: id.0, address }
}

/// GET /address/{address}/token-balance: plan the token-balance listing
/// for (identity, address).
pub fn get_token_address_balance(id: &IdExtractor, address: Address) -> (call: DomainCall)
    ensures
        call matches DomainCall::GetTokenBalance { service_id, address: a } && service_id == id.0
            && a == address,
{
    DomainCall::GetTokenBalance { service_id: id.0, address }
}

} // verus!
