use vstd::prelude::*;

verus! {

/// A target blockchain address as the caller supplied it: an opaque
/// string whose grammar belongs to the domain service, not to this layer.
#[derive(Clone, Debug)]
pub struct Address(pub String);

/// Parameters of an address-creation request. This layer forwards them to
/// the domain service unchanged; only the workchain the address is to be
/// created in is visible here.
#[derive(Clone, Copy, PartialEq, Eq, Structural, Debug)]
pub struct CreateAddressRequest {
    pub workchain_id: i32,
}

/// Body of the address-check and subscription endpoints: the address to
/// validate.
#[derive(Clone, Debug)]
pub struct AddressCheckRequest {
    pub address: Address,
}

} // verus!
