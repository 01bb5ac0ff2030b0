use std::cell::RefCell;

use stripe::client::{respond, ApiError, Client, Error, Method, Request, TransportError};
use stripe::decode::{DecodeError, FromJson, KeyedValues};
use stripe::encode::ToJson;
use stripe::json::Json;
use stripe::list::List;
use stripe::resources::account::{Account, AccountParams, DeclineChargeDetails, TOSAcceptanceDetails};
use stripe::resources::balance::Balance;
use stripe::resources::source::{Source, SourceParams};
use stripe::resources::transfer::{Transfer, TransferParams, TransferReversal, TransferReversalParams};

fn s(x: &str) -> Json {
    Json::Str(x.to_string())
}

fn obj(entries: Vec<(&str, Json)>) -> Json {
    Json::Obj(entries.into_iter().map(|(k, v)| (k.to_string(), v)).collect())
}

fn keys(j: &Json) -> Vec<String> {
    match j {
        Json::Obj(es) => es.iter().map(|(k, _)| k.clone()).collect(),
        _ => panic!("not an object"),
    }
}

struct Canned {
    answer: RefCell<Option<Result<Json, TransportError>>>,
    seen: RefCell<Vec<String>>,
}

impl Canned {
    fn new(answer: Result<Json, TransportError>) -> Canned {
        Canned { answer: RefCell::new(Some(answer)), seen: RefCell::new(Vec::new()) }
    }
}

impl Client for Canned {
    fn send(&self, req: &Request) -> Result<Json, TransportError> {
        self.seen.borrow_mut().push(format!("{:?}", req));
        self.answer.borrow_mut().take().expect("one call only")
    }
}

fn transfer_params() -> TransferParams {
    TransferParams {
        amount: 2000,
        currency: "usd".to_string(),
        destination: "acct_123".to_string(),
        description: None,
        metadata: None,
        source_transaction: None,
        source_type: None,
        transfer_group: None,
    }
}

fn reversal_json() -> Json {
    obj(vec![
        ("id", s("trr_1")),
        ("object", s("transfer_reversal")),
        ("amount", Json::Num(100)),
        ("balance_transaction", Json::Null),
        ("created", Json::Num(1500000000)),
        ("currency", s("usd")),
        ("metadata", obj(vec![])),
        ("transfer", s("tr_1")),
    ])
}

fn transfer_json(with_id: bool) -> Json {
    let mut es = vec![
        ("object", s("transfer")),
        ("amount", Json::Num(2000)),
        ("amount_reversed", Json::Num(0)),
        ("balance_transaction", s("txn_1")),
        ("created", Json::Num(1500000000)),
        ("currency", s("usd")),
        ("destination", s("acct_123")),
        ("destination_payment", s("py_1")),
        ("livemode", Json::Bool(false)),
        ("metadata", obj(vec![("order", s("42"))])),
        (
            "reversals",
            obj(vec![
                ("object", s("list")),
                ("data", Json::Arr(vec![reversal_json()])),
                ("has_more", Json::Bool(false)),
                ("url", s("/v1/transfers/tr_1/reversals")),
            ]),
        ),
        ("reversed", Json::Bool(false)),
        ("source_transaction", Json::Null),
        ("source_type", s("card")),
    ];
    if with_id {
        es.insert(0, ("id", s("tr_1")));
    }
    obj(es)
}

#[test]
fn transfer_create_sends_exactly_the_required_fields() {
    let req = Transfer::create_request(&transfer_params());
    assert_eq!(req.method, Method::Post);
    assert_eq!(req.path, "/transfers");
    let expected = obj(vec![("amount", Json::Num(2000)), ("currency", s("usd")), ("destination", s("acct_123"))]);
    assert_eq!(req.body, Some(expected));

    let client = Canned::new(Ok(transfer_json(true)));
    let t = Transfer::create(&client, transfer_params()).expect("a transfer");
    assert_eq!(t.id, "tr_1");
    assert_eq!(client.seen.borrow()[0], format!("{:?}", Transfer::create_request(&transfer_params())));
}

#[test]
fn error_report_gives_api_error() {
    let body = obj(vec![(
        "error",
        obj(vec![("type", s("invalid_request_error")), ("message", s("No such destination"))]),
    )]);
    let client = Canned::new(Ok(body));
    match Transfer::create(&client, transfer_params()) {
        Err(Error::Api(ApiError { error_type, message, code, param })) => {
            assert_eq!(error_type, "invalid_request_error");
            assert_eq!(message.as_deref(), Some("No such destination"));
            assert!(code.is_none());
            assert!(param.is_none());
        },
        other => panic!("expected an API error, got {:?}", other),
    }
}

#[test]
fn malformed_error_report_is_a_decode_error() {
    let body = obj(vec![("error", obj(vec![("message", s("no type"))]))]);
    let r: Result<Transfer, Error> = respond(Ok(body));
    assert!(matches!(r, Err(Error::Decode(DecodeError::Malformed))));
}

#[test]
fn transport_error_passes_through() {
    let client = Canned::new(Err(TransportError { message: "timed out".to_string() }));
    match Balance::retrieve(&client) {
        Err(Error::Transport(t)) => assert_eq!(t.message, "timed out"),
        other => panic!("expected a transport error, got {:?}", other),
    }
    assert_eq!(client.seen.borrow()[0], "Request { method: Get, path: \"/balance\", body: None }");
}

#[test]
fn list_keeps_server_order() {
    let j = obj(vec![
        ("object", s("list")),
        ("data", Json::Arr(vec![s("e1"), s("e2")])),
        ("has_more", Json::Bool(false)),
        ("url", s("/v1/x")),
    ]);
    let l: List<String> = List::from_json(&j).expect("a list");
    assert_eq!(l.data, vec!["e1".to_string(), "e2".to_string()]);
    assert!(!l.has_more);
    assert_eq!(l.total_count, None);
    assert_eq!(l.url, "/v1/x");
}

#[test]
fn list_with_other_tag_is_rejected() {
    let j = obj(vec![
        ("object", s("page")),
        ("data", Json::Arr(vec![])),
        ("has_more", Json::Bool(true)),
        ("url", s("/v1/x")),
    ]);
    assert!(List::<String>::from_json(&j).is_err());
}

#[test]
fn list_with_bad_element_is_rejected() {
    let j = obj(vec![
        ("object", s("list")),
        ("data", Json::Arr(vec![s("e1"), Json::Num(2)])),
        ("has_more", Json::Bool(false)),
        ("total_count", Json::Num(2)),
        ("url", s("/v1/x")),
    ]);
    assert_eq!(List::<String>::from_json(&j).err(), Some(DecodeError::Malformed));
}

fn card_fields() -> Vec<(&'static str, Json)> {
    vec![
        ("brand", s("Visa")),
        ("country", s("US")),
        ("exp_month", Json::Num(8)),
        ("exp_year", Json::Num(2030)),
        ("fingerprint", s("fp")),
        ("funding", s("credit")),
        ("last4", s("4242")),
    ]
}

#[test]
fn source_dispatches_on_object() {
    let mut card = card_fields();
    card.push(("object", s("card")));
    card.push(("id", s("card_1")));
    match Source::decode(&obj(card)) {
        Ok(Source::Card(c)) => {
            assert_eq!(c.id, "card_1");
            assert_eq!(c.exp_year, 2030);
            assert!(c.cvc_check.is_none());
        },
        other => panic!("expected a card, got {:?}", other),
    }

    let owner = obj(vec![("address", obj(vec![("city", s("Paris"))])), ("email", Json::Null)]);
    let generic = obj(vec![
        ("object", s("source")),
        ("id", s("src_1")),
        ("amount", Json::Num(500)),
        ("created", Json::Num(1)),
        ("flow", s("none")),
        ("livemode", Json::Bool(true)),
        ("metadata", obj(vec![])),
        ("owner", owner),
        ("status", s("chargeable")),
        ("type", s("card")),
        ("usage", s("reusable")),
        ("card", obj(card_fields())),
    ]);
    match Source::decode(&generic) {
        Ok(Source::Source(t)) => {
            assert_eq!(t.id, "src_1");
            assert_eq!(t.source_type, "card");
            assert_eq!(t.owner.address.city.as_deref(), Some("Paris"));
            assert!(t.owner.email.is_none());
            assert_eq!(t.card.expect("card details").last4, "4242");
        },
        other => panic!("expected a generic source, got {:?}", other),
    }

    let unknown = obj(vec![("object", s("unknown_future_type")), ("id", s("x"))]);
    assert_eq!(Source::decode(&unknown).err(), Some(DecodeError::UnknownVariant));
    let untagged = obj(vec![("id", s("x"))]);
    assert_eq!(Source::decode(&untagged).err(), Some(DecodeError::Malformed));
    let mut broken = card_fields();
    broken.push(("object", s("card")));
    assert_eq!(Source::decode(&obj(broken)).err(), Some(DecodeError::Malformed));
}

#[test]
fn missing_required_field_fails() {
    assert_eq!(Transfer::from_json(&transfer_json(false)).err(), Some(DecodeError::Malformed));
    let t = Transfer::from_json(&transfer_json(true)).expect("a transfer");
    assert!(t.description.is_none());
    assert!(t.transfer_group.is_none());
    assert!(t.source_transaction.is_none());
    assert_eq!(t.metadata.entries, vec![("order".to_string(), "42".to_string())]);
    assert_eq!(t.reversals.data.len(), 1);
    assert!(t.reversals.data[0].balance_transaction.is_none());
}

#[test]
fn wrong_type_fails() {
    let j = obj(vec![("avs_failure", s("yes"))]);
    assert_eq!(DeclineChargeDetails::from_json(&j).err(), Some(DecodeError::Malformed));
    assert!(DeclineChargeDetails::from_json(&Json::Num(3)).is_err());
    let ok = DeclineChargeDetails::from_json(&obj(vec![("cvc_failure", Json::Bool(true))])).expect("details");
    assert_eq!(ok.cvc_failure, Some(true));
    assert_eq!(ok.avs_failure, None);
}

#[test]
fn u32_out_of_range_fails() {
    assert_eq!(u32::from_json(&Json::Num(4294967295)), Ok(4294967295));
    assert_eq!(u32::from_json(&Json::Num(4294967296)).err(), Some(DecodeError::Malformed));
}

#[test]
fn unset_optionals_are_omitted() {
    let p = AccountParams {
        country: None,
        email: None,
        account_type: None,
        external_account: None,
        metadata: None,
        tos_acceptance: None,
    };
    assert_eq!(p.to_json(), Json::Obj(vec![]));
    let r = TransferReversalParams {
        id: "tr_1".to_string(),
        amount: None,
        description: None,
        metadata: None,
        refund_application_fee: None,
    };
    assert_eq!(keys(&r.to_json()), vec!["id".to_string()]);
}

#[test]
fn set_optional_is_present() {
    let mut p = transfer_params();
    p.transfer_group = Some("g1".to_string());
    let j = p.to_json();
    assert_eq!(keys(&j), vec!["amount", "currency", "destination", "transfer_group"]);
    p.description = Some("rent".to_string());
    let j = p.to_json();
    assert_eq!(
        j,
        obj(vec![
            ("amount", Json::Num(2000)),
            ("currency", s("usd")),
            ("destination", s("acct_123")),
            ("description", s("rent")),
            ("transfer_group", s("g1")),
        ])
    );
}

#[test]
fn nested_struct_omits_its_own_unset_members() {
    let p = AccountParams {
        country: Some("US".to_string()),
        email: None,
        account_type: Some("custom".to_string()),
        external_account: None,
        metadata: Some(KeyedValues { entries: vec![] }),
        tos_acceptance: Some(TOSAcceptanceDetails { date: Some(1500000000), ip: None, user_agent: None }),
    };
    assert_eq!(
        p.to_json(),
        obj(vec![
            ("country", s("US")),
            ("type", s("custom")),
            ("metadata", obj(vec![])),
            ("tos_acceptance", obj(vec![("date", Json::Num(1500000000))])),
        ])
    );
}

#[test]
fn paths_carry_identifiers() {
    let r = Account::retrieve_request("acct_9");
    assert_eq!(r.method, Method::Get);
    assert_eq!(r.path, "/accounts/acct_9");
    assert!(r.body.is_none());
    let p = SourceParams {
        source_type: None,
        amount: Some(10),
        currency: None,
        flow: None,
        metadata: None,
        owner: None,
        redirect: None,
        token: None,
        usage: None,
    };
    let u = Source::update_request("src_1", &p);
    assert_eq!(u.path, "/sources/src_1");
    assert_eq!(u.body, Some(obj(vec![("amount", Json::Num(10))])));
    let rev = TransferReversalParams {
        id: "tr_1".to_string(),
        amount: Some(100),
        description: None,
        metadata: None,
        refund_application_fee: Some(false),
    };
    let req = Transfer::reverse_request("tr_1", &rev);
    assert_eq!(req.path, "/transfers/tr_1/reversals");
    assert_eq!(
        req.body,
        Some(obj(vec![("id", s("tr_1")), ("amount", Json::Num(100)), ("refund_application_fee", Json::Bool(false))]))
    );
    let client = Canned::new(Ok(reversal_json()));
    let got: TransferReversal = Transfer::reverse(&client, "tr_1", rev).expect("a reversal");
    assert_eq!(got.transfer, "tr_1");
}

#[test]
fn carried_values_are_copied() {
    let v = obj(vec![("a", Json::Arr(vec![Json::Null, Json::Bool(true)]))]);
    assert_eq!(Json::from_json(&v), Ok(obj(vec![("a", Json::Arr(vec![Json::Null, Json::Bool(true)]))])));
    assert_eq!(v.copy(), v);
}

#[test]
fn later_duplicate_key_wins() {
    let j = obj(vec![("k", s("first")), ("k", s("second"))]);
    assert_eq!(j.get("k"), Some(&s("second")));
    assert_eq!(j.get("missing"), None);
    assert!(j.str_member_is("k", "second"));
}
