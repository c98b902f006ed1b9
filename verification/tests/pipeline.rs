use ton_wallet_api::auth::{Key, ServiceId};
use ton_wallet_api::handlers::DomainCall;
use ton_wallet_api::pipeline::{
    process, ApiRequest, DomainReply, HandlerRequest, ProcessOutcome, ResponseBody, World,
};
use ton_wallet_api::requests::{Address, AddressCheckRequest, CreateAddressRequest};
use ton_wallet_api::responses::Envelope;

fn check_request(api_key: Option<&str>, address: &str) -> ApiRequest {
    ApiRequest {
        api_key: api_key.map(|k| k.to_string()),
        handler: HandlerRequest::Check(AddressCheckRequest {
            address: Address(address.to_string()),
        }),
    }
}

fn world(lookup: Result<Key, &str>, domain: DomainReply) -> World {
    World { lookup: lookup.map_err(|e| e.to_string()), domain }
}

#[test]
fn check_without_api_key_is_401_and_domain_untouched() {
    let out: ProcessOutcome = process(
        check_request(None, "0:abc"),
        world(Ok(Key { service_id: ServiceId(1) }), DomainReply::Checked(Ok(true))),
    );
    assert_eq!(out.response.status, 401);
    assert!(out.domain_call.is_none(), "no domain call may be made");
    match out.response.body {
        ResponseBody::Rejected(m) => assert_eq!(m, "missing API key"),
        _ => panic!("an unauthenticated request gets the bare rejection body"),
    }
}

#[test]
fn check_with_valid_key_and_accepted_address_is_200_valid_true() {
    let out = process(
        check_request(Some("test-api-key"), "0:abc"),
        world(Ok(Key { service_id: ServiceId(1) }), DomainReply::Checked(Ok(true))),
    );
    assert_eq!(out.response.status, 200);
    match out.response.body {
        ResponseBody::Checked(Envelope::Success(v)) => assert!(v.valid),
        _ => panic!("an accepted address yields a success envelope"),
    }
    match out.domain_call {
        Some(DomainCall::CheckAddress { address }) => assert_eq!(address.0, "0:abc"),
        _ => panic!("the check call must carry the submitted address"),
    }
}

#[test]
fn balance_is_scoped_by_the_key_on_record() {
    let req = ApiRequest {
        api_key: Some("test-api-key".to_string()),
        handler: HandlerRequest::Balance(Address("0xDEAD".to_string())),
    };
    let out = process(
        req,
        world(
            Ok(Key { service_id: ServiceId(1) }),
            DomainReply::Balance(Ok((100, "nano".to_string()))),
        ),
    );
    assert_eq!(out.response.status, 200);
    match out.response.body {
        ResponseBody::Balance(Envelope::Success(data)) => {
            assert_eq!(data.amount, 100);
            assert_eq!(data.unit, "nano");
        }
        _ => panic!("a recorded balance yields a success envelope"),
    }
    match out.domain_call {
        Some(DomainCall::GetBalance { service_id, address }) => {
            assert_eq!(service_id, ServiceId(1));
            assert_eq!(address.0, "0xDEAD");
        }
        _ => panic!("the balance call must be scoped by this request's identity"),
    }
}

#[test]
fn balance_for_another_identity_does_not_return_the_first_ones() {
    // The same path asked with a key mapping to another identity, for
    // which the domain service has no record: the reply must not carry
    // the first identity's balance.
    let req = ApiRequest {
        api_key: Some("test-api-key".to_string()),
        handler: HandlerRequest::Balance(Address("0xDEAD".to_string())),
    };
    let out = process(
        req,
        world(
            Ok(Key { service_id: ServiceId(2) }),
            DomainReply::Balance(Err("address not found".to_string())),
        ),
    );
    assert_eq!(out.response.status, 500);
    match out.response.body {
        ResponseBody::Balance(Envelope::Error(m)) => assert_eq!(m, "address not found"),
        _ => panic!("a missing record yields an error envelope, never a payload"),
    }
    match out.domain_call {
        Some(DomainCall::GetBalance { service_id, .. }) => assert_eq!(service_id, ServiceId(2)),
        _ => panic!("the call must be scoped by the second identity"),
    }
}

#[test]
fn failed_lookup_is_401_with_generic_message() {
    let out = process(
        check_request(Some("test-api-key"), "0:abc"),
        world(Err("key store unreachable at shard 3"), DomainReply::Checked(Ok(true))),
    );
    assert_eq!(out.response.status, 401);
    assert!(out.domain_call.is_none());
    match out.response.body {
        ResponseBody::Rejected(m) => {
            assert_eq!(m, "failed to authorize");
            assert!(!m.contains("shard"), "the store error must stay out of the body");
        }
        _ => panic!("a failed lookup gets the bare rejection body"),
    }
}

#[test]
fn repeated_check_returns_the_same_validity() {
    let run = || {
        process(
            check_request(Some("test-api-key"), "0:abc"),
            world(Ok(Key { service_id: ServiceId(5) }), DomainReply::Checked(Ok(false))),
        )
    };
    let first = run();
    let second = run();
    assert_eq!(first.response.status, second.response.status);
    let flag = |out: ProcessOutcome| match out.response.body {
        ResponseBody::Checked(Envelope::Success(v)) => v.valid,
        _ => panic!("both replies carry a verdict"),
    };
    assert_eq!(flag(first), flag(second));
}

#[test]
fn concurrent_requests_keep_their_own_identities() {
    let req = |key: &str| ApiRequest {
        api_key: Some(key.to_string()),
        handler: HandlerRequest::Info(Address("0:abc".to_string())),
    };
    let out1 = process(
        req("first-api-key"),
        world(Ok(Key { service_id: ServiceId(1) }), DomainReply::Info(Ok("a".to_string()))),
    );
    let out2 = process(
        req("second-api-key"),
        world(Ok(Key { service_id: ServiceId(2) }), DomainReply::Info(Ok("b".to_string()))),
    );
    let scope = |out: ProcessOutcome| match out.domain_call {
        Some(DomainCall::GetInfo { service_id, .. }) => service_id,
        _ => panic!("each request issues its own scoped call"),
    };
    let s1 = scope(out1);
    let s2 = scope(out2);
    assert_eq!(s1, ServiceId(1));
    assert_eq!(s2, ServiceId(2));
    assert_ne!(s1, s2);
}

#[test]
fn create_forwards_the_request_under_the_resolved_identity() {
    let req = ApiRequest {
        api_key: Some("test-api-key".to_string()),
        handler: HandlerRequest::Create(CreateAddressRequest { workchain_id: -1 }),
    };
    let out = process(
        req,
        world(
            Ok(Key { service_id: ServiceId(9) }),
            DomainReply::Created(Ok("0:created".to_string())),
        ),
    );
    assert_eq!(out.response.status, 200);
    match out.response.body {
        ResponseBody::Created(Envelope::Success(d)) => assert_eq!(d, "0:created"),
        _ => panic!("creation yields the created descriptor"),
    }
    match out.domain_call {
        Some(DomainCall::CreateAddress { service_id, request }) => {
            assert_eq!(service_id, ServiceId(9));
            assert_eq!(request.workchain_id, -1);
        }
        _ => panic!("the creation call carries the parameters unchanged"),
    }
}

#[test]
fn domain_failure_is_surfaced_in_the_error_envelope() {
    let req = ApiRequest {
        api_key: Some("test-api-key".to_string()),
        handler: HandlerRequest::Create(CreateAddressRequest { workchain_id: 0 }),
    };
    let out = process(
        req,
        world(
            Ok(Key { service_id: ServiceId(9) }),
            DomainReply::Created(Err("out of gas".to_string())),
        ),
    );
    assert_eq!(out.response.status, 500);
    match out.response.body {
        ResponseBody::Created(Envelope::Error(m)) => assert_eq!(m, "out of gas"),
        _ => panic!("a domain failure must not be swallowed"),
    }
}

#[test]
fn token_balances_keep_the_domain_order() {
    let req = ApiRequest {
        api_key: Some("test-api-key".to_string()),
        handler: HandlerRequest::TokenBalance(Address("0:abc".to_string())),
    };
    let pairs = vec![
        ("USDT".to_string(), 31u64),
        ("WTON".to_string(), 7u64),
        ("USDT".to_string(), 2u64),
    ];
    let out = process(
        req,
        world(Ok(Key { service_id: ServiceId(3) }), DomainReply::Tokens(Ok(pairs))),
    );
    assert_eq!(out.response.status, 200);
    match out.response.body {
        ResponseBody::Tokens(Envelope::Success(rows)) => {
            assert_eq!(rows.len(), 3);
            assert_eq!(rows[0].token, "USDT");
            assert_eq!(rows[0].amount, 31);
            assert_eq!(rows[1].token, "WTON");
            assert_eq!(rows[1].amount, 7);
            assert_eq!(rows[2].token, "USDT");
            assert_eq!(rows[2].amount, 2);
        }
        _ => panic!("token balances yield the row list"),
    }
}

#[test]
fn info_reply_is_forwarded_verbatim() {
    let req = ApiRequest {
        api_key: Some("test-api-key".to_string()),
        handler: HandlerRequest::Info(Address("0:abc".to_string())),
    };
    let out = process(
        req,
        world(
            Ok(Key { service_id: ServiceId(4) }),
            DomainReply::Info(Ok("active, deployed".to_string())),
        ),
    );
    assert_eq!(out.response.status, 200);
    match out.response.body {
        ResponseBody::Info(Envelope::Success(d)) => assert_eq!(d.info, "active, deployed"),
        _ => panic!("the info descriptor is forwarded verbatim"),
    }
}
