use atomic_swap::encoding::{from_decimal, from_hex, to_decimal, to_hex};
use atomic_swap::error::ErrorKind;
use atomic_swap::json::Json;
use atomic_swap::machine::UpdateKind;
use atomic_swap::message::{
    AcceptOfferUpdate, BtcAcceptOfferUpdate, BtcOfferUpdate, BtcUpdate, InitRedeemUpdate, Message,
    MultisigParticipant, OfferUpdate, RedeemUpdate, SecondaryUpdate, TxParticipant, Update,
    VersionedSlate,
};
use atomic_swap::types::{Currency, Network, PublicKey, Signature, Timestamp, Uuid};

fn doc(text: &str) -> Json {
    Json::parse(text).unwrap()
}

fn id() -> Uuid {
    Uuid { value: 0xa1a2a3a4b1b2c1c2d1d2d3d4d5d6d7d8 }
}

fn key(first: u8) -> PublicKey {
    let mut bytes = vec![0x11; 33];
    bytes[0] = first;
    PublicKey { bytes }
}

fn offer() -> OfferUpdate {
    OfferUpdate {
        start_time: Timestamp { secs: 1_593_606_896, nanos: 0 },
        version: 1,
        network: Network::Floonet,
        primary_amount: 1_000_000_000,
        secondary_amount: 10_000,
        secondary_currency: Currency::Btc,
        multisig: MultisigParticipant { body: doc(r#"{"t_1":"02ab","tau_x":null}"#) },
        lock_slate: VersionedSlate { body: doc(r#"{"version":2,"amount":"1000000000"}"#) },
        refund_slate: VersionedSlate { body: doc(r#"{"version":2,"lock_height":700}"#) },
        redeem_participant: TxParticipant { body: doc(r#"{"id":"0","message":null}"#) },
        required_mwc_lock_confirmations: 1,
        required_secondary_lock_confirmations: 1,
        mwc_lock_time_seconds: 9001,
        seller_redeem_time: 3600,
    }
}

fn offer_message() -> Message {
    Message::new(
        id(),
        Update::Offer(offer()),
        SecondaryUpdate::BTC(BtcUpdate::Offer(BtcOfferUpdate { cosign: key(2) })),
    )
}

#[test]
fn hex_writes_lower_case_pairs() {
    assert_eq!(to_hex(&vec![0x00, 0x0f, 0xa5, 0xff]), "000fa5ff");
    assert_eq!(to_hex(&vec![]), "");
}

#[test]
fn hex_reads_back() {
    assert_eq!(from_hex("000fa5ff"), Some(vec![0x00, 0x0f, 0xa5, 0xff]));
    assert_eq!(from_hex(""), Some(vec![]));
}

#[test]
fn hex_refuses_upper_case_prefix_and_odd_length() {
    assert_eq!(from_hex("0F"), None);
    assert_eq!(from_hex("0x0f"), None);
    assert_eq!(from_hex("abc"), None);
    assert_eq!(from_hex("zz"), None);
}

#[test]
fn decimal_writes_without_leading_zeros() {
    assert_eq!(to_decimal(0), "0");
    assert_eq!(to_decimal(7), "7");
    assert_eq!(to_decimal(1_000_000_000), "1000000000");
    assert_eq!(to_decimal(u64::MAX), "18446744073709551615");
}

#[test]
fn decimal_reads_digits_only() {
    assert_eq!(from_decimal("0"), Some(0));
    assert_eq!(from_decimal("007"), Some(7));
    assert_eq!(from_decimal("18446744073709551615"), Some(u64::MAX));
    assert_eq!(from_decimal("18446744073709551616"), None);
    assert_eq!(from_decimal("99999999999999999999999"), None);
    assert_eq!(from_decimal(""), None);
    assert_eq!(from_decimal("+5"), None);
    assert_eq!(from_decimal("-5"), None);
    assert_eq!(from_decimal("1e3"), None);
    assert_eq!(from_decimal(" 5"), None);
}

#[test]
fn document_reads_and_writes_json() {
    let j = doc(r#" { "a" : [1, "x", true, null], "b" : {"c": -2.5e3} } "#);
    assert_eq!(
        j,
        Json::Object(vec![
            (
                "a".to_string(),
                Json::Array(vec![
                    Json::Number("1".to_string()),
                    Json::Str("x".to_string()),
                    Json::Bool(true),
                    Json::Null,
                ]),
            ),
            (
                "b".to_string(),
                Json::Object(vec![("c".to_string(), Json::Number("-2.5e+3".to_string()))]),
            ),
        ])
    );
    assert_eq!(j.to_text().unwrap(), r#"{"a":[1,"x",true,null],"b":{"c":-2.5e+3}}"#);
}

#[test]
fn document_refuses_what_is_not_json() {
    assert_eq!(Json::parse("{"), None);
    assert_eq!(Json::parse("{'a':1}"), None);
    assert_eq!(Json::parse("01"), None);
    assert_eq!(Json::parse(""), None);
}

#[test]
fn document_with_a_repeated_key_is_not_written() {
    let j = Json::Object(vec![
        ("a".to_string(), Json::Null),
        ("a".to_string(), Json::Bool(true)),
    ]);
    assert_eq!(j.to_text(), None);
}

#[test]
fn document_with_a_number_that_is_none_is_not_written() {
    assert_eq!(Json::Number("1.".to_string()).to_text(), None);
    assert_eq!(Json::Number("abc".to_string()).to_text(), None);
    assert_eq!(Json::Number("1e5".to_string()).to_text(), None);
    assert_eq!(Json::Number("1e+5".to_string()).to_text(), Some("1e+5".to_string()));
}

#[test]
fn document_strings_are_escaped_and_read_back() {
    let j = Json::Str("a\"b\\c\n\u{1}\u{e9}".to_string());
    let text = j.to_text().unwrap();
    assert_eq!(text, "\"a\\\"b\\\\c\\n\\u0001\u{e9}\"");
    assert_eq!(Json::parse(&text), Some(j));
}

#[test]
fn member_is_the_first_under_the_key() {
    let j = doc(r#"{"a":1,"b":2}"#);
    assert_eq!(j.member("b"), Some(&Json::Number("2".to_string())));
    assert_eq!(j.member("c"), None);
    assert_eq!(Json::Null.member("a"), None);
    assert_eq!(j.member_count(), Some(2));
    assert_eq!(Json::Array(vec![]).member_count(), None);
}

#[test]
fn same_compares_whole_documents() {
    let a = doc(r#"{"a":[1,2],"b":"x"}"#);
    assert!(a.same(&a.duplicate()));
    assert!(!a.same(&doc(r#"{"b":"x","a":[1,2]}"#)));
    assert!(!a.same(&doc(r#"{"a":[1,3],"b":"x"}"#)));
    assert!(!a.same(&doc(r#"{"a":[1,2]}"#)));
}

#[test]
fn redeem_message_has_its_wire_form() {
    let m = Message::new(
        id(),
        Update::Redeem(RedeemUpdate {
            redeem_participant: TxParticipant { body: doc(r#"{"id":"1"}"#) },
        }),
        SecondaryUpdate::Empty,
    );
    assert_eq!(
        m.to_json().unwrap(),
        r#"{"id":"a1a2a3a4-b1b2-c1c2-d1d2-d3d4d5d6d7d8","inner":{"Redeem":{"redeem_participant":{"id":"1"}}},"inner_secondary":"Empty"}"#
    );
}

#[test]
fn offer_message_has_its_wire_form() {
    let text = offer_message().to_json().unwrap();
    assert_eq!(
        text,
        concat_all(&[
            r#"{"id":"a1a2a3a4-b1b2-c1c2-d1d2-d3d4d5d6d7d8","inner":{"Offer":{"#,
            r#""start_time":"2020-07-01T12:34:56Z","version":1,"network":"Floonet","#,
            r#""primary_amount":"1000000000","secondary_amount":"10000","#,
            r#""secondary_currency":"Btc","multisig":{"t_1":"02ab","tau_x":null},"#,
            r#""lock_slate":{"version":2,"amount":"1000000000"},"#,
            r#""refund_slate":{"version":2,"lock_height":700},"#,
            r#""redeem_participant":{"id":"0","message":null},"#,
            r#""required_mwc_lock_confirmations":1,"required_secondary_lock_confirmations":1,"#,
            r#""mwc_lock_time_seconds":9001,"seller_redeem_time":3600}},"#,
            r#""inner_secondary":{"BTC":{"Offer":{"cosign":"02"#,
            &"11".repeat(32),
            r#""}}}}"#,
        ])
    );
}

fn concat_all(parts: &[&str]) -> String {
    let mut s = String::new();
    for p in parts {
        s.push_str(p);
    }
    s
}

#[test]
fn round_trip_offer() {
    let m = offer_message();
    let back = Message::from_json(&m.to_json().unwrap()).unwrap();
    assert_eq!(back, m);
}

#[test]
fn round_trip_accept_offer() {
    let m = Message::new(
        id(),
        Update::AcceptOffer(AcceptOfferUpdate {
            multisig: MultisigParticipant { body: doc(r#"{"t_1":"03cd"}"#) },
            redeem_public: key(3),
            lock_participant: TxParticipant { body: doc(r#"{"id":"1"}"#) },
            refund_participant: TxParticipant { body: doc(r#"{"id":"1","part_sig":null}"#) },
        }),
        SecondaryUpdate::BTC(BtcUpdate::AcceptOffer(BtcAcceptOfferUpdate { refund: key(2) })),
    );
    let text = m.to_json().unwrap();
    assert_eq!(Message::from_json(&text).unwrap(), m);
}

#[test]
fn round_trip_init_redeem() {
    let m = Message::new(
        id(),
        Update::InitRedeem(InitRedeemUpdate {
            redeem_slate: VersionedSlate { body: doc(r#"{"version":2}"#) },
            adaptor_signature: Signature { bytes: vec![0xab; 64] },
        }),
        SecondaryUpdate::Empty,
    );
    let text = m.to_json().unwrap();
    assert!(text.contains(&"ab".repeat(64)));
    assert_eq!(Message::from_json(&text).unwrap(), m);
}

#[test]
fn round_trip_empty_update() {
    let m = Message::new(Uuid { value: 0 }, Update::Nothing, SecondaryUpdate::Empty);
    let text = m.to_json().unwrap();
    assert_eq!(
        text,
        r#"{"id":"00000000-0000-0000-0000-000000000000","inner":"None","inner_secondary":"Empty"}"#
    );
    assert_eq!(Message::from_json(&text).unwrap(), m);
}

#[test]
fn round_trip_keeps_an_inconsistent_message() {
    let m = Message::new(id(), Update::Offer(offer()), SecondaryUpdate::Empty);
    assert!(!m.is_consistent());
    assert_eq!(Message::from_json(&m.to_json().unwrap()).unwrap(), m);
}

#[test]
fn round_trip_with_fraction_of_a_second() {
    let mut o = offer();
    o.start_time = Timestamp { secs: 1_593_606_896, nanos: 120_000_000 };
    let m = Message::new(id(), Update::Offer(o), SecondaryUpdate::Empty);
    let text = m.to_json().unwrap();
    assert!(text.contains(r#""start_time":"2020-07-01T12:34:56.120Z""#));
    assert_eq!(Message::from_json(&text).unwrap(), m);
}

#[test]
fn time_outside_the_calendar_is_not_written() {
    let mut o = offer();
    o.start_time = Timestamp { secs: i64::MAX, nanos: 0 };
    let m = Message::new(id(), Update::Offer(o), SecondaryUpdate::Empty);
    assert!(matches!(m.to_json(), Err(ErrorKind::Serde(_))));
    let mut o = offer();
    o.start_time = Timestamp { secs: 0, nanos: 2_000_000_000 };
    let m = Message::new(id(), Update::Offer(o), SecondaryUpdate::Empty);
    assert!(matches!(m.to_json(), Err(ErrorKind::Serde(_))));
}

#[test]
fn key_of_wrong_length_is_not_written() {
    let m = Message::new(
        id(),
        Update::Nothing,
        SecondaryUpdate::BTC(BtcUpdate::Offer(BtcOfferUpdate {
            cosign: PublicKey { bytes: vec![2; 32] },
        })),
    );
    assert!(matches!(m.to_json(), Err(ErrorKind::Serde(_))));
    let m = Message::new(
        id(),
        Update::InitRedeem(InitRedeemUpdate {
            redeem_slate: VersionedSlate { body: Json::Null },
            adaptor_signature: Signature { bytes: vec![1; 63] },
        }),
        SecondaryUpdate::Empty,
    );
    assert!(matches!(m.to_json(), Err(ErrorKind::Serde(_))));
}

#[test]
fn amounts_are_read_from_numbers_and_from_strings() {
    let text = offer_message().to_json().unwrap();
    let with_numbers = text
        .replace(r#""primary_amount":"1000000000""#, r#""primary_amount":1000000000"#)
        .replace(r#""secondary_amount":"10000""#, r#""secondary_amount":10000"#);
    assert_ne!(with_numbers, text);
    assert_eq!(Message::from_json(&with_numbers).unwrap(), offer_message());
}

#[test]
fn counts_are_read_from_numbers_only() {
    let text = offer_message().to_json().unwrap();
    let with_string = text.replace(r#""version":1"#, r#""version":"1""#);
    assert_ne!(with_string, text);
    assert!(matches!(Message::from_json(&with_string), Err(ErrorKind::Serde(_))));
    let too_large = text.replace(r#""version":1"#, r#""version":256"#);
    assert!(matches!(Message::from_json(&too_large), Err(ErrorKind::Serde(_))));
    let negative = text.replace(r#""seller_redeem_time":3600"#, r#""seller_redeem_time":-1"#);
    assert!(matches!(Message::from_json(&negative), Err(ErrorKind::Serde(_))));
}

#[test]
fn members_may_come_in_any_order() {
    let text = r#"{"inner_secondary":"Empty","inner":"None","id":"a1a2a3a4-b1b2-c1c2-d1d2-d3d4d5d6d7d8"}"#;
    assert_eq!(
        Message::from_json(text).unwrap(),
        Message::new(id(), Update::Nothing, SecondaryUpdate::Empty)
    );
}

#[test]
fn unknown_member_is_refused() {
    let text = r#"{"id":"a1a2a3a4-b1b2-c1c2-d1d2-d3d4d5d6d7d8","inner":"None","inner_secondary":"Empty","extra":1}"#;
    assert!(matches!(Message::from_json(text), Err(ErrorKind::Serde(_))));
    let text = r#"{"id":"a1a2a3a4-b1b2-c1c2-d1d2-d3d4d5d6d7d8","inner":{"Redeem":{"redeem_participant":{},"more":1}},"inner_secondary":"Empty"}"#;
    assert!(matches!(Message::from_json(text), Err(ErrorKind::Serde(_))));
}

#[test]
fn missing_member_is_refused() {
    let text = r#"{"id":"a1a2a3a4-b1b2-c1c2-d1d2-d3d4d5d6d7d8","inner":"None"}"#;
    assert!(matches!(Message::from_json(text), Err(ErrorKind::Serde(_))));
}

#[test]
fn unknown_update_is_refused() {
    let text = r#"{"id":"a1a2a3a4-b1b2-c1c2-d1d2-d3d4d5d6d7d8","inner":{"Refund":{}},"inner_secondary":"Empty"}"#;
    assert!(matches!(Message::from_json(text), Err(ErrorKind::Serde(_))));
    let text = r#"{"id":"a1a2a3a4-b1b2-c1c2-d1d2-d3d4d5d6d7d8","inner":"Offer","inner_secondary":"Empty"}"#;
    assert!(matches!(Message::from_json(text), Err(ErrorKind::Serde(_))));
    let text = r#"{"id":"a1a2a3a4-b1b2-c1c2-d1d2-d3d4d5d6d7d8","inner":"None","inner_secondary":{"BCH":{}}}"#;
    assert!(matches!(Message::from_json(text), Err(ErrorKind::Serde(_))));
}

#[test]
fn upper_case_key_is_refused() {
    let text = offer_message().to_json().unwrap();
    let upper = text.replace(&format!("02{}", "11".repeat(32)), &format!("02{}", "AA".repeat(32)));
    assert_ne!(upper, text);
    assert!(matches!(Message::from_json(&upper), Err(ErrorKind::Serde(_))));
}

#[test]
fn identifier_is_read_in_the_forms_of_the_uuid_crate() {
    let text = r#"{"id":"A1A2A3A4B1B2C1C2D1D2D3D4D5D6D7D8","inner":"None","inner_secondary":"Empty"}"#;
    assert_eq!(Message::from_json(text).unwrap().id, id());
    let text = r#"{"id":"not-an-id","inner":"None","inner_secondary":"Empty"}"#;
    assert!(matches!(Message::from_json(text), Err(ErrorKind::Serde(_))));
}

#[test]
fn text_that_is_not_json_is_refused() {
    match Message::from_json("{") {
        Err(ErrorKind::Serde(m)) => {
            assert_eq!(m, "Unable to parse Swap Message from {, the text is not JSON")
        }
        other => panic!("{:?}", other),
    }
}

#[test]
fn unwrap_gives_the_parts_of_the_right_kind() {
    let (i, u, s) = offer_message().unwrap_offer().unwrap();
    assert_eq!(i, id());
    assert_eq!(u, offer());
    assert_eq!(s, SecondaryUpdate::BTC(BtcUpdate::Offer(BtcOfferUpdate { cosign: key(2) })));
    assert_eq!(s.unwrap_btc(), Ok(BtcUpdate::Offer(BtcOfferUpdate { cosign: key(2) })));
}

#[test]
fn unwrap_refuses_another_kind() {
    assert_eq!(
        offer_message().unwrap_redeem(),
        Err(ErrorKind::UnexpectedMessageType(
            "Fn unwrap_redeem() expecting Update::Redeem, get Offer".to_string()
        ))
    );
    assert_eq!(
        offer_message().unwrap_accept_offer(),
        Err(ErrorKind::UnexpectedMessageType(
            "Fn unwrap_accept_offer() expecting Update::AcceptOffer, get Offer".to_string()
        ))
    );
    assert_eq!(
        offer_message().unwrap_init_redeem(),
        Err(ErrorKind::UnexpectedMessageType(
            "Fn unwrap_init_redeem() expecting Update::InitRedeem, get Offer".to_string()
        ))
    );
    let empty = Message::new(id(), Update::Nothing, SecondaryUpdate::Empty);
    assert_eq!(
        empty.unwrap_offer(),
        Err(ErrorKind::UnexpectedMessageType(
            "Fn unwrap_offer() expecting Update::Offer, get None".to_string()
        ))
    );
}

#[test]
fn unwrap_btc_refuses_an_empty_part() {
    assert_eq!(SecondaryUpdate::Empty.unwrap_btc(), Err(ErrorKind::UnexpectedCoinType));
}

#[test]
fn set_inner_secondary_replaces_only_that_part() {
    let mut m = Message::new(id(), Update::Offer(offer()), SecondaryUpdate::Empty);
    m.set_inner_secondary(SecondaryUpdate::BTC(BtcUpdate::Offer(BtcOfferUpdate {
        cosign: key(2),
    })));
    assert_eq!(m, offer_message());
    assert!(m.is_consistent());
}

#[test]
fn consistency_pairs_each_kind_with_its_secondary_part() {
    let accept_part = SecondaryUpdate::BTC(BtcUpdate::AcceptOffer(BtcAcceptOfferUpdate {
        refund: key(2),
    }));
    assert!(!Message::new(id(), Update::Offer(offer()), accept_part).is_consistent());
    assert!(Message::new(id(), Update::Nothing, SecondaryUpdate::Empty).is_consistent());
    let offer_part = SecondaryUpdate::BTC(BtcUpdate::Offer(BtcOfferUpdate { cosign: key(2) }));
    let redeem = Update::Redeem(RedeemUpdate { redeem_participant: TxParticipant { body: Json::Null } });
    assert!(!Message::new(id(), redeem, offer_part).is_consistent());
}

#[test]
fn text_is_confirmed_only_by_the_same_document() {
    let j = doc(r#"{"a":1}"#);
    assert_eq!(j.confirm("t".to_string(), Some(doc(r#"{"a":1}"#))), Some("t".to_string()));
    assert_eq!(j.confirm("t".to_string(), Some(doc(r#"{"a":2}"#))), None);
    assert_eq!(j.confirm("t".to_string(), None), None);
    assert_eq!(Json::string("x"), Json::Str("x".to_string()));
    assert_eq!(j.single(), Some(("a", &Json::Number("1".to_string()))));
    assert_eq!(doc(r#"{"a":1,"b":2}"#).single(), None);
    assert_eq!(doc("\"x\"").as_str(), Some("x"));
    assert_eq!(doc("12").as_number(), Some("12"));
    assert_eq!(doc("12").as_str(), None);
}

#[test]
fn document_round_trips_through_its_message_form() {
    let m = offer_message();
    let document = m.to_document().unwrap();
    assert_eq!(document.member_count(), Some(3));
    assert_eq!(Message::from_document(&document), Some(m));
    assert_eq!(Message::from_document(&Json::Null), None);
}

#[test]
fn messages_are_made_with_the_secondary_part_that_goes_with_them() {
    let accept = AcceptOfferUpdate {
        multisig: MultisigParticipant { body: Json::Null },
        redeem_public: key(3),
        lock_participant: TxParticipant { body: Json::Null },
        refund_participant: TxParticipant { body: Json::Null },
    };
    let m = Message::accept_offer(id(), accept, key(2));
    assert!(m.is_consistent());
    assert_eq!(
        m.inner_secondary,
        SecondaryUpdate::BTC(BtcUpdate::AcceptOffer(BtcAcceptOfferUpdate { refund: key(2) }))
    );
    let m = Message::init_redeem(
        id(),
        InitRedeemUpdate {
            redeem_slate: VersionedSlate { body: Json::Null },
            adaptor_signature: Signature { bytes: vec![1; 64] },
        },
    );
    assert!(m.is_consistent());
    assert_eq!(m.inner_secondary, SecondaryUpdate::Empty);
    let m = Message::redeem(id(), RedeemUpdate { redeem_participant: TxParticipant { body: Json::Null } });
    assert!(m.is_consistent());
    assert_eq!(m.id, id());
}

#[test]
fn incoming_reads_kind_and_secondary_part() {
    let i = offer_message().incoming(Currency::Bch, true);
    assert_eq!((i.update, i.secondary, i.verified), (UpdateKind::Offer, Some(Currency::Bch), true));
    let empty = Message::new(id(), Update::Nothing, SecondaryUpdate::Empty);
    let i = empty.incoming(Currency::Btc, false);
    assert_eq!((i.update, i.secondary, i.verified), (UpdateKind::Nothing, None, false));
    assert_eq!(empty.inner.kind(), UpdateKind::Nothing);
}

#[test]
fn document_is_not_written_where_a_part_cannot_be() {
    let repeated = Json::Object(vec![
        ("a".to_string(), Json::Null),
        ("a".to_string(), Json::Null),
    ]);
    let outer = Json::Array(vec![Json::Bool(true), Json::Object(vec![("x".to_string(), repeated)])]);
    assert_eq!(outer.to_text(), None);
    let bad_number = Json::Array(vec![Json::Number("1".to_string()), Json::Number("--1".to_string())]);
    assert_eq!(bad_number.to_text(), None);
    let fine = Json::Array(vec![
        Json::Null,
        Json::Bool(false),
        Json::Number("-0".to_string()),
        Json::Str(String::new()),
        Json::Object(vec![("a".to_string(), Json::Array(vec![])), ("b".to_string(), Json::Object(vec![]))]),
    ]);
    assert_eq!(fine.to_text(), Some(r#"[null,false,-0,"",{"a":[],"b":{}}]"#.to_string()));
}

#[test]
fn message_read_back_is_written_as_the_same_text() {
    let m = offer_message();
    let text = m.to_json().unwrap();
    assert_eq!(m.to_json(), Ok(text.clone()));
    let back = Message::from_json(&text).unwrap();
    assert_eq!(back.to_json(), Ok(text));
}
