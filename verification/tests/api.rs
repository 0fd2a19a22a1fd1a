//! Exercises the query-shaping core end to end: ledger pinning, cursor
//! echoing, and exact round-trip decoding of token records.

use xrpl_api::account_nfts::{AccountNftsRequest, AccountNftsResponse};
use xrpl_api::body::{BodyEntry, BodyValue, ResponseBody};
use xrpl_api::error::DecodeError;
use xrpl_api::ledger::{LedgerShortcut, RetrieveLedgerSpec};
use xrpl_api::pagination::decode_response_pagination;
use xrpl_api::request::{Request, WithLedgerSpec, WithRequestPagination, WithResponsePagination};
use xrpl_api::token::NFToken;
use xrpl_api::wire::{Field, WireEntry, WireObject, WireValue};

fn sample_token(uri: Option<&str>) -> NFToken {
    NFToken {
        flags: 8,
        issuer: "rIssuerAccountExample".to_owned(),
        nftoken_id: "000813886377BBDA772433D7FCF16A9710D9D958D9F7129F376D5FCA".to_owned(),
        nftoken_taxon: 3_294_109_630,
        uri: uri.map(|u| u.to_owned()),
        nft_serial: 12,
    }
}

fn token_entries(id: Option<&str>, uri: Option<&str>) -> Vec<WireEntry> {
    let mut entries = vec![
        WireEntry {
            key: Field::Flags,
            value: WireValue::Num(8),
        },
        WireEntry {
            key: Field::Issuer,
            value: WireValue::Text("rIssuerAccountExample".to_owned()),
        },
    ];
    if let Some(id) = id {
        entries.push(WireEntry {
            key: Field::NftokenId,
            value: WireValue::Text(id.to_owned()),
        });
    }
    entries.push(WireEntry {
        key: Field::NftokenTaxon,
        value: WireValue::Num(3_294_109_630),
    });
    if let Some(u) = uri {
        entries.push(WireEntry {
            key: Field::Uri,
            value: WireValue::Text(u.to_owned()),
        });
    }
    entries.push(WireEntry {
        key: Field::NftSerial,
        value: WireValue::Num(12),
    });
    entries
}

fn assert_tokens_equal(a: &NFToken, b: &NFToken) {
    assert_eq!(a.flags, b.flags);
    assert_eq!(a.issuer, b.issuer);
    assert_eq!(a.nftoken_id, b.nftoken_id);
    assert_eq!(a.nftoken_taxon, b.nftoken_taxon);
    assert_eq!(a.uri, b.uri);
    assert_eq!(a.nft_serial, b.nft_serial);
}

#[test]
fn token_round_trip_with_uri() {
    let token = sample_token(Some("697066733A2F2F"));
    let decoded = NFToken::decode(&token.encode()).expect("round trip must decode");
    assert_tokens_equal(&token, &decoded);
}

#[test]
fn token_round_trip_without_uri() {
    let token = sample_token(None);
    let decoded = NFToken::decode(&token.encode()).expect("round trip must decode");
    assert_tokens_equal(&token, &decoded);
    assert!(decoded.uri.is_none());
}

#[test]
fn token_round_trip_keeps_empty_uri_distinct_from_absent() {
    let with_empty = sample_token(Some(""));
    let decoded = NFToken::decode(&with_empty.encode()).expect("round trip must decode");
    assert_eq!(decoded.uri, Some(String::new()));

    let without = sample_token(None);
    let decoded = NFToken::decode(&without.encode()).expect("round trip must decode");
    assert_eq!(decoded.uri, None);
}

#[test]
fn token_round_trip_keeps_hex_casing() {
    let mut token = sample_token(None);
    token.nftoken_id = "00081388AbCdEf0012".to_owned();
    let decoded = NFToken::decode(&token.encode()).expect("round trip must decode");
    assert_eq!(decoded.nftoken_id, "00081388AbCdEf0012");
}

fn body_field_names(body: &WireObject) -> Vec<String> {
    body.entries.iter().map(|e| e.key.wire_name()).collect()
}

#[test]
fn ledger_spec_shortcut_serializes_exclusively() {
    let mut request = AccountNftsRequest::new("rABC");
    *request.as_ledger_spec_mut() = RetrieveLedgerSpec::Shortcut(LedgerShortcut::Validated);
    let body = request.body();
    let names = body_field_names(&body);
    assert!(names.contains(&"ledger_index".to_owned()));
    assert!(!names.contains(&"ledger_hash".to_owned()));
    match body.get(Field::LedgerIndex) {
        Some(WireValue::Text(s)) => assert_eq!(s, "validated"),
        _ => panic!("shortcut must serialize as text under ledger_index"),
    }
}

#[test]
fn ledger_spec_index_serializes_exclusively() {
    let mut request = AccountNftsRequest::new("rABC");
    *request.as_ledger_spec_mut() = RetrieveLedgerSpec::Index(32_570);
    let body = request.body();
    let names = body_field_names(&body);
    assert!(names.contains(&"ledger_index".to_owned()));
    assert!(!names.contains(&"ledger_hash".to_owned()));
    match body.get(Field::LedgerIndex) {
        Some(WireValue::Num(n)) => assert_eq!(*n, 32_570),
        _ => panic!("index must serialize as a number under ledger_index"),
    }
}

#[test]
fn ledger_spec_hash_serializes_exclusively() {
    let mut request = AccountNftsRequest::new("rABC");
    *request.as_ledger_spec_mut() =
        RetrieveLedgerSpec::Hash("E08D6E9754025BA2534A78707605E0601F03ACE063687A0CA1BDDACFCD1698C7".to_owned());
    let body = request.body();
    let names = body_field_names(&body);
    assert!(names.contains(&"ledger_hash".to_owned()));
    assert!(!names.contains(&"ledger_index".to_owned()));
}

#[test]
fn unspecified_ledger_spec_serializes_nothing() {
    let request = AccountNftsRequest::new("rABC");
    let body = request.body();
    let names = body_field_names(&body);
    assert!(!names.contains(&"ledger_index".to_owned()));
    assert!(!names.contains(&"ledger_hash".to_owned()));
    assert_eq!(names, vec!["account".to_owned()]);
}

#[test]
fn request_body_keys_never_collide() {
    let mut request = AccountNftsRequest::new("rABC");
    *request.as_ledger_spec_mut() = RetrieveLedgerSpec::Index(7);
    request.as_pagination_mut().marker = Some("M1".to_owned());
    request.as_pagination_mut().limit = Some(20);
    let names = body_field_names(&request.body());
    for (i, a) in names.iter().enumerate() {
        for b in names.iter().skip(i + 1) {
            assert_ne!(a, b);
        }
    }
}

fn scalar(key: Field, value: WireValue) -> BodyEntry {
    BodyEntry {
        key,
        value: BodyValue::Scalar(value),
    }
}

#[test]
fn pagination_echo_copies_marker_verbatim() {
    let body = ResponseBody {
        entries: vec![
            scalar(Field::Limit, WireValue::Num(50)),
            scalar(Field::Marker, WireValue::Text("M1".to_owned())),
        ],
    };
    let echoed = decode_response_pagination(&body).expect("well-typed echo must decode");
    assert_eq!(echoed.limit, Some(50));
    assert_eq!(echoed.marker, Some("M1".to_owned()));

    let mut next = AccountNftsRequest::new("rABC");
    next.as_pagination_mut().marker = echoed.marker.clone();
    let next_body = next.body();
    match next_body.get(Field::Marker) {
        Some(WireValue::Text(m)) => assert_eq!(m, "M1"),
        _ => panic!("the follow-up request must carry marker M1"),
    }
}

#[test]
fn absent_marker_means_no_further_pages() {
    let body = ResponseBody {
        entries: vec![scalar(Field::Limit, WireValue::Num(50))],
    };
    let echoed = decode_response_pagination(&body).expect("absent marker is not an error");
    assert_eq!(echoed.limit, Some(50));
    assert_eq!(echoed.marker, None);

    let empty = ResponseBody { entries: vec![] };
    let echoed = decode_response_pagination(&empty).expect("absent fields are not errors");
    assert_eq!(echoed.limit, None);
    assert_eq!(echoed.marker, None);
}

#[test]
fn missing_token_id_fails_decoding_and_names_the_field() {
    let body = ResponseBody {
        entries: vec![BodyEntry {
            key: Field::AccountNfts,
            value: BodyValue::Array(vec![WireObject {
                entries: token_entries(None, None),
            }]),
        }],
    };
    let err = AccountNftsResponse::decode(&body).expect_err("a record without its id must fail");
    assert_eq!(err, DecodeError::MissingField(Field::NftokenId));
    assert_eq!(err.field().wire_name(), "NFTokenID");
    assert_eq!(err.describe(), "missing required field NFTokenID");
}

#[test]
fn wrong_field_type_fails_decoding_and_names_the_field() {
    let mut entries = token_entries(Some("00081388AA"), None);
    entries[0] = WireEntry {
        key: Field::Flags,
        value: WireValue::Text("8".to_owned()),
    };
    let body = ResponseBody {
        entries: vec![BodyEntry {
            key: Field::AccountNfts,
            value: BodyValue::Array(vec![WireObject { entries }]),
        }],
    };
    let err = AccountNftsResponse::decode(&body).expect_err("a text flag word must fail");
    assert_eq!(err, DecodeError::WrongType(Field::Flags));
    assert_eq!(err.describe(), "wrong value type at field Flags");
}

#[test]
fn missing_account_nfts_array_fails_decoding() {
    let body = ResponseBody {
        entries: vec![scalar(Field::Validated, WireValue::Flag(true))],
    };
    let err = AccountNftsResponse::decode(&body).expect_err("the result array is required");
    assert_eq!(err, DecodeError::MissingField(Field::AccountNfts));
}

#[test]
fn end_to_end_two_pages() {
    // First request: account rABC..., pinned to the validated ledger, two
    // records per page.
    let mut request = AccountNftsRequest::new("rABC");
    *request.as_ledger_spec_mut() = RetrieveLedgerSpec::Shortcut(LedgerShortcut::Validated);
    request.as_pagination_mut().limit = Some(2);
    assert_eq!(request.method(), "account_nfts");
    let body = request.body();
    match body.get(Field::Account) {
        Some(WireValue::Text(a)) => assert_eq!(a, "rABC"),
        _ => panic!("the request must carry its account"),
    }
    match body.get(Field::LedgerIndex) {
        Some(WireValue::Text(s)) => assert_eq!(s, "validated"),
        _ => panic!("the request must carry the shortcut"),
    }
    match body.get(Field::Limit) {
        Some(WireValue::Num(n)) => assert_eq!(*n, 2),
        _ => panic!("the request must carry its limit"),
    }

    // The node answers with two records, an index-based validated ledger
    // reference, and a continuation marker.
    let first = sample_token(Some("697066733A2F2F"));
    let mut second = sample_token(None);
    second.nft_serial = 13;
    let response_body = ResponseBody {
        entries: vec![
            BodyEntry {
                key: Field::AccountNfts,
                value: BodyValue::Array(vec![first.encode(), second.encode()]),
            },
            scalar(Field::LedgerIndex, WireValue::Num(80_597_760)),
            scalar(Field::Validated, WireValue::Flag(true)),
            scalar(Field::Limit, WireValue::Num(2)),
            scalar(Field::Marker, WireValue::Text("X2".to_owned())),
        ],
    };
    let response = AccountNftsResponse::decode(&response_body).expect("the body must decode");
    assert_eq!(response.account_nfts.len(), 2);
    assert_tokens_equal(&response.account_nfts[0], &first);
    assert_tokens_equal(&response.account_nfts[1], &second);
    assert_eq!(response.ledger_spec.ledger_index, Some(80_597_760));
    assert_eq!(response.ledger_spec.ledger_hash, None);
    assert_eq!(response.ledger_spec.validated, Some(true));
    assert_eq!(response.as_pagination().marker, Some("X2".to_owned()));

    // The follow-up request copies the marker verbatim and keeps a single
    // ledger field: no ledger_hash/ledger_index conflict.
    let mut follow_up = AccountNftsRequest::new("rABC");
    *follow_up.as_ledger_spec_mut() = RetrieveLedgerSpec::Shortcut(LedgerShortcut::Validated);
    follow_up.as_pagination_mut().limit = Some(2);
    follow_up.as_pagination_mut().marker = response.as_pagination().marker.clone();
    let follow_body = follow_up.body();
    match follow_body.get(Field::Marker) {
        Some(WireValue::Text(m)) => assert_eq!(m, "X2"),
        _ => panic!("the follow-up request must embed marker X2"),
    }
    assert!(follow_body.get(Field::LedgerHash).is_none());
    let ledger_fields = body_field_names(&follow_body)
        .into_iter()
        .filter(|n| n == "ledger_index" || n == "ledger_hash")
        .count();
    assert_eq!(ledger_fields, 1);
}

#[test]
fn accessors_expose_the_embedded_capabilities() {
    let mut request = AccountNftsRequest::new("rXYZ");
    assert!(matches!(
        request.as_ledger_spec(),
        RetrieveLedgerSpec::Unspecified
    ));
    assert!(request.as_pagination().marker.is_none());
    assert!(request.as_pagination().limit.is_none());
    *request.as_ledger_spec_mut() = RetrieveLedgerSpec::Index(9);
    match request.as_ledger_spec() {
        RetrieveLedgerSpec::Index(i) => assert_eq!(*i, 9),
        _ => panic!("the pin just set must be readable"),
    }
    assert_eq!(request.account, "rXYZ");
}

#[test]
fn wire_names_keep_their_mixed_casing() {
    assert_eq!(Field::Flags.wire_name(), "Flags");
    assert_eq!(Field::Issuer.wire_name(), "Issuer");
    assert_eq!(Field::NftokenId.wire_name(), "NFTokenID");
    assert_eq!(Field::NftokenTaxon.wire_name(), "NFTokenTaxon");
    assert_eq!(Field::Uri.wire_name(), "URI");
    assert_eq!(Field::NftSerial.wire_name(), "nft_serial");
    assert_eq!(Field::Account.wire_name(), "account");
    assert_eq!(Field::LedgerIndex.wire_name(), "ledger_index");
    assert_eq!(Field::LedgerHash.wire_name(), "ledger_hash");
    assert_eq!(Field::Validated.wire_name(), "validated");
    assert_eq!(Field::Marker.wire_name(), "marker");
    assert_eq!(Field::Limit.wire_name(), "limit");
}
