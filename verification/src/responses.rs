use vstd::prelude::*;

verus! {

/// Uniform response envelope: every handler answers with either its
/// payload or an error descriptor, so callers parse one shape whatever
/// the endpoint.
pub enum Envelope<T> {
    Success(T),
    Error(String),
}

/// Relates a domain-service outcome to the envelope rendered for it:
/// the payload on success, the failure descriptor otherwise.
pub open spec fn envelope_rel<T>(outcome: Result<T, String>, e: Envelope<T>) -> bool {
    match outcome {
        Ok(v) => e matches Envelope::Success(p) && p == v,
        Err(m) => e matches Envelope::Error(msg) && msg == m,
    }
}

/// Wrap a domain-service outcome in the uniform envelope. A failure is
/// carried into the envelope's error descriptor, never dropped.
pub fn envelope<T>(outcome: Result<T, String>) -> (e: Envelope<T>)
    ensures
        envelope_rel(outcome, e),
{
    match outcome {
        Ok(v) => Envelope::Success(v),
        Err(m) => Envelope::Error(m),
    }
}

/// Validity verdict for a checked address.
#[derive(Clone, Copy, PartialEq, Eq, Structural, Debug)]
pub struct AddressValidResponse {
    pub valid: bool,
}

impl AddressValidResponse {
    pub fn new(valid: bool) -> (r: AddressValidResponse)
        ensures
            r.valid == valid,
    {
        AddressValidResponse { valid }
    }
}

/// Balance of one address: the amount and its currency unit, exactly as
/// the domain service reported them.
#[derive(Clone, Debug)]
pub struct AddressBalanceDataResponse {
    pub amount: u64,
    pub unit: String,
}

impl AddressBalanceDataResponse {
    pub fn new(amount: u64, unit: String) -> (r: AddressBalanceDataResponse)
        ensures
            r.amount == amount,
            r.unit == unit,
    {
        AddressBalanceDataResponse { amount, unit }
    }
}

/// Metadata descriptor for one address, forwarded verbatim from the
/// domain service.
#[derive(Clone, Debug)]
pub struct AddressInfoDataResponse {
    pub info: String,
}

impl AddressInfoDataResponse {
    pub fn new(info: String) -> (r: AddressInfoDataResponse)
        ensures
            r.info == info,
    {
        AddressInfoDataResponse { info }
    }
}

/// One token's balance on an address.
#[derive(Clone, Debug)]
pub struct TokenBalanceDataResponse {
    pub token: String,
    pub amount: u64,
}

impl TokenBalanceDataResponse {
    pub fn new(token: String, amount: u64) -> (r: TokenBalanceDataResponse)
        ensures
            r.token == token,
            r.amount == amount,
    {
        TokenBalanceDataResponse { token, amount }
    }
}

/// Relates the domain service's token balances to the rendered rows:
/// one row per balance, same token, same amount, same order.
pub open spec fn token_rows_rel(pairs: Seq<(String, u64)>, rows: Seq<TokenBalanceDataResponse>) -> bool {
    &&& rows.len() == pairs.len()
    &&& forall|i: int|
        0 <= i < pairs.len() ==> rows[i].token == pairs[i].0 && rows[i].amount == pairs[i].1
}

/// Render the domain service's token balances as response rows, keeping
/// the order the domain service reported.
pub fn token_balance_rows(pairs: &Vec<(String, u64)>) -> (rows: Vec<TokenBalanceDataResponse>)
    ensures
        token_rows_rel(pairs@, rows@),
{
    let mut rows: Vec<TokenBalanceDataResponse> = Vec::new();
    let mut i: usize = 0;
    while i < pairs.len()
        invariant
            i <= pairs@.len(),
            rows@.len() == i,
            forall|j: int|
                0 <= j < i ==> rows@[j].token == pairs@[j].0 && rows@[j].amount == pairs@[j].1,
        decreases pairs@.len() - i,
    {
        let token = pairs[i].0.clone();
        let amount = pairs[i].1;
        rows.push(TokenBalanceDataResponse::new(token, amount));
        i = i + 1;
    }
    rows
}

} // verus!
