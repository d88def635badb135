//! The wire form of messages: JSON.
//!
//! A message is an object with the members `id`, `inner` and
//! `inner_secondary`. An update is written under its name: a bare string
//! where it carries nothing, else an object with the name as its only key.
//! Keys and signatures are lower-case hexadecimal. Amounts are written as
//! decimal strings and read from strings or numbers. A member that is not
//! known, or missing, makes the whole text unreadable.

use vstd::prelude::*;
use crate::error::ErrorKind;
use crate::encoding::{
    decimal_spec, from_decimal, from_hex, hex_spec, lemma_undecimal_decimal, lemma_unhex_hex,
    to_decimal, to_hex, undecimal_spec, unhex_spec,
};
use crate::json::{
    lemma_lookup_at, lemma_no_other_members, lookup, members_of, only_under, position, seen,
    single_of, Json, JsonView,
};
use crate::message::{
    AcceptOfferUpdate, AcceptOfferView, BtcAcceptOfferUpdate, BtcOfferUpdate, BtcUpdate, BtcView,
    InitRedeemUpdate, InitRedeemView, Message, MessageView, MultisigParticipant, OfferUpdate,
    OfferView, RedeemUpdate, RedeemView, SecondaryUpdate, SecondaryView, TxParticipant, Update,
    UpdateView, VersionedSlate,
};
use crate::types::{
    str_eq, Currency, Network, PublicKey, Signature, Timestamp, Uuid, PUBLIC_KEY_LEN,
    SIGNATURE_LEN,
};

verus! {

/// The text that chrono writes for a point in time, by `to_rfc3339_opts`
/// with automatic sub-second digits and `Z` for the offset; `None` where
/// chrono cannot represent the point.
pub uninterp spec fn time_text_of(secs: i64, nanos: u32) -> Option<Seq<char>>;

/// The point in time that chrono reads from a text by
/// `parse_from_rfc3339`, as seconds and nanoseconds; `None` where it
/// reports an error.
pub uninterp spec fn time_parse_of(text: Seq<char>) -> Option<(i64, u32)>;

/// The identifier that the uuid crate reads from a text by `parse_str`;
/// `None` where it reports an error.
pub uninterp spec fn uuid_parse_of(text: Seq<char>) -> Option<u128>;

/// Calls `chrono::DateTime::from_timestamp` and, on the point it gives,
/// `to_rfc3339_opts(SecondsFormat::AutoSi, true)`. Claimed: the same
/// numbers always give the same outcome.
#[verifier::external_body]
fn time_text(secs: i64, nanos: u32) -> (r: Option<String>)
    ensures
        match r {
            Some(s) => time_text_of(secs, nanos) == Some(s@),
            None => time_text_of(secs, nanos) is None,
        },
{
    match chrono::DateTime::from_timestamp(secs, nanos) {
        Some(t) => Some(t.to_rfc3339_opts(chrono::SecondsFormat::AutoSi, true)),
        None => None,
    }
}

/// Calls `chrono::DateTime::parse_from_rfc3339` and takes `timestamp` and
/// `timestamp_subsec_nanos` of what it gives. Claimed: the same text always
/// gives the same outcome.
#[verifier::external_body]
fn time_parse(text: &str) -> (r: Option<(i64, u32)>)
    ensures
        r == time_parse_of(text@),
{
    match chrono::DateTime::parse_from_rfc3339(text) {
        Ok(t) => Some((t.timestamp(), t.timestamp_subsec_nanos())),
        Err(_) => None,
    }
}

/// The sixteen bytes of a 128-bit number, the most significant first.
pub open spec fn be_bytes(v: u128) -> Seq<u8> {
    Seq::new(16, |i: int| ((v as int / pow256(15 - i)) % 256) as u8)
}

/// 256 to the power of `n`.
pub open spec fn pow256(n: int) -> int
    decreases n,
{
    if n <= 0 {
        1
    } else {
        256 * pow256(n - 1)
    }
}

/// An identifier in its hyphenated form: the bytes in lower-case
/// hexadecimal, in groups of four, two, two, two and six bytes with a
/// hyphen between the groups.
pub open spec fn hyphenated_spec(v: u128) -> Seq<char> {
    let b = be_bytes(v);
    hex_spec(b.subrange(0, 4)) + seq!['-'] + hex_spec(b.subrange(4, 6)) + seq!['-'] + hex_spec(
        b.subrange(6, 8),
    ) + seq!['-'] + hex_spec(b.subrange(8, 10)) + seq!['-'] + hex_spec(b.subrange(10, 16))
}

/// Calls `uuid::Uuid::from_u128` and writes the identifier by
/// `hyphenated().to_string()`. Claimed: the text is the hyphenated
/// lower-case form of the number's bytes, most significant byte first.
#[verifier::external_body]
fn uuid_text(v: u128) -> (r: String)
    ensures
        r@ == hyphenated_spec(v),
{
    uuid::Uuid::from_u128(v).hyphenated().to_string()
}

/// Calls `uuid::Uuid::parse_str` and takes `as_u128` of what it gives.
/// Claimed: the same text always gives the same outcome.
#[verifier::external_body]
fn uuid_parse(text: &str) -> (r: Option<u128>)
    ensures
        r == uuid_parse_of(text@),
{
    match uuid::Uuid::parse_str(text) {
        Ok(u) => Some(u.as_u128()),
        Err(_) => None,
    }
}

/// The document of a count.
pub open spec fn number_doc(n: u64) -> JsonView {
    JsonView::Number(decimal_spec(n as nat))
}

/// The count in a document: a number whose literal is decimal digits.
pub open spec fn number_in(j: Option<JsonView>) -> Option<u64> {
    match j {
        Some(JsonView::Number(t)) => undecimal_spec(t),
        _ => None,
    }
}

/// The document of an amount: its decimal digits as a string.
pub open spec fn amount_doc(n: u64) -> JsonView {
    JsonView::Str(decimal_spec(n as nat))
}

/// The amount in a document: decimal digits, as a string or as a number.
pub open spec fn amount_in(j: Option<JsonView>) -> Option<u64> {
    match j {
        Some(JsonView::Number(t)) => undecimal_spec(t),
        Some(JsonView::Str(t)) => undecimal_spec(t),
        _ => None,
    }
}

/// The small count in a document: a count below 256.
pub open spec fn byte_in(j: Option<JsonView>) -> Option<u8> {
    match number_in(j) {
        Some(n) => if n <= u8::MAX {
            Some(n as u8)
        } else {
            None
        },
        None => None,
    }
}

/// The document of a network.
pub open spec fn network_doc(n: Network) -> JsonView {
    match n {
        Network::Mainnet => JsonView::Str("Mainnet"@),
        Network::Floonet => JsonView::Str("Floonet"@),
    }
}

/// The network in a document.
pub open spec fn network_in(j: Option<JsonView>) -> Option<Network> {
    match j {
        Some(JsonView::Str(t)) => if t == "Mainnet"@ {
            Some(Network::Mainnet)
        } else if t == "Floonet"@ {
            Some(Network::Floonet)
        } else {
            None
        },
        _ => None,
    }
}

/// The document of a currency.
pub open spec fn currency_doc(c: Currency) -> JsonView {
    match c {
        Currency::Btc => JsonView::Str("Btc"@),
        Currency::Bch => JsonView::Str("Bch"@),
    }
}

/// The currency in a document.
pub open spec fn currency_in(j: Option<JsonView>) -> Option<Currency> {
    match j {
        Some(JsonView::Str(t)) => if t == "Btc"@ {
            Some(Currency::Btc)
        } else if t == "Bch"@ {
            Some(Currency::Bch)
        } else {
            None
        },
        _ => None,
    }
}

/// The document of a key or signature: its bytes in hexadecimal.
pub open spec fn bytes_doc(b: Seq<u8>) -> JsonView {
    JsonView::Str(hex_spec(b))
}

/// The key or signature of `len` bytes in a document.
pub open spec fn bytes_in(j: Option<JsonView>, len: usize) -> Option<Seq<u8>> {
    match j {
        Some(JsonView::Str(t)) => match unhex_spec(t) {
            Some(b) => if b.len() == len {
                Some(b)
            } else {
                None
            },
            None => None,
        },
        _ => None,
    }
}

/// Whether a point in time has a text that reads back as the same point.
pub open spec fn time_writable(t: Timestamp) -> bool {
    time_text_of(t.secs, t.nanos) matches Some(text) && time_parse_of(text) == Some(
        (t.secs, t.nanos),
    )
}

/// The document of a point in time.
pub open spec fn time_doc(t: Timestamp) -> JsonView {
    JsonView::Str(time_text_of(t.secs, t.nanos)->0)
}

/// The point in time in a document.
pub open spec fn time_in(j: Option<JsonView>) -> Option<Timestamp> {
    match j {
        Some(JsonView::Str(t)) => match time_parse_of(t) {
            Some((secs, nanos)) => Some(Timestamp { secs, nanos }),
            None => None,
        },
        _ => None,
    }
}

/// Whether an identifier's text reads back as the same identifier.
pub open spec fn id_writable(id: Uuid) -> bool {
    uuid_parse_of(hyphenated_spec(id.value)) == Some(id.value)
}

/// The document of an identifier.
pub open spec fn id_doc(id: Uuid) -> JsonView {
    JsonView::Str(hyphenated_spec(id.value))
}

/// The identifier in a document.
pub open spec fn id_in(j: Option<JsonView>) -> Option<Uuid> {
    match j {
        Some(JsonView::Str(t)) => match uuid_parse_of(t) {
            Some(value) => Some(Uuid { value }),
            None => None,
        },
        _ => None,
    }
}

fn write_number(n: u64) -> (j: Json)
    ensures
        j@ == number_doc(n),
{
    Json::Number(to_decimal(n))
}

fn read_number(j: Option<&Json>) -> (r: Option<u64>)
    ensures
        r == number_in(
            seen(j),
        ),
{
    match j {
        Some(Json::Number(t)) => from_decimal(t.as_str()),
        _ => None,
    }
}

fn write_amount(n: u64) -> (j: Json)
    ensures
        j@ == amount_doc(n),
{
    Json::Str(to_decimal(n))
}

fn read_amount(j: Option<&Json>) -> (r: Option<u64>)
    ensures
        r == amount_in(
            seen(j),
        ),
{
    match j {
        Some(Json::Number(t)) => from_decimal(t.as_str()),
        Some(Json::Str(t)) => from_decimal(t.as_str()),
        _ => None,
    }
}

fn read_byte(j: Option<&Json>) -> (r: Option<u8>)
    ensures
        r == byte_in(
            seen(j),
        ),
{
    match read_number(j) {
        Some(n) => if n <= 255 {
            Some(n as u8)
        } else {
            None
        },
        None => None,
    }
}

fn write_network(n: Network) -> (j: Json)
    ensures
        j@ == network_doc(n),
{
    match n {
        Network::Mainnet => Json::Str(String::from_str("Mainnet")),
        Network::Floonet => Json::Str(String::from_str("Floonet")),
    }
}

fn read_network(j: Option<&Json>) -> (r: Option<Network>)
    ensures
        r == network_in(
            seen(j),
        ),
{
    match j {
        Some(Json::Str(t)) => if str_eq(t.as_str(), "Mainnet") {
            Some(Network::Mainnet)
        } else if str_eq(t.as_str(), "Floonet") {
            Some(Network::Floonet)
        } else {
            None
        },
        _ => None,
    }
}

fn write_currency(c: Currency) -> (j: Json)
    ensures
        j@ == currency_doc(c),
{
    match c {
        Currency::Btc => Json::Str(String::from_str("Btc")),
        Currency::Bch => Json::Str(String::from_str("Bch")),
    }
}

fn read_currency(j: Option<&Json>) -> (r: Option<Currency>)
    ensures
        r == currency_in(
            seen(j),
        ),
{
    match j {
        Some(Json::Str(t)) => if str_eq(t.as_str(), "Btc") {
            Some(Currency::Btc)
        } else if str_eq(t.as_str(), "Bch") {
            Some(Currency::Bch)
        } else {
            None
        },
        _ => None,
    }
}

fn write_bytes(b: &Vec<u8>) -> (j: Json)
    ensures
        j@ == bytes_doc(b@),
{
    Json::Str(to_hex(b))
}

fn read_bytes(j: Option<&Json>, len: usize) -> (r: Option<Vec<u8>>)
    ensures
        match bytes_in(
            seen(j),
            len,
        ) {
            Some(b) => r matches Some(v) && v@ == b,
            None => r is None,
        },
{
    match j {
        Some(Json::Str(t)) => match from_hex(t.as_str()) {
            Some(b) => if b.len() == len {
                Some(b)
            } else {
                None
            },
            None => None,
        },
        _ => None,
    }
}

fn write_time(t: Timestamp) -> (r: Option<Json>)
    ensures
        match r {
            Some(j) => time_writable(t) && j@ == time_doc(t),
            None => !time_writable(t),
        },
{
    match time_text(t.secs, t.nanos) {
        Some(text) => match time_parse(text.as_str()) {
            Some((secs, nanos)) => if secs == t.secs && nanos == t.nanos {
                Some(Json::Str(text))
            } else {
                None
            },
            None => None,
        },
        None => None,
    }
}

fn read_time(j: Option<&Json>) -> (r: Option<Timestamp>)
    ensures
        r == time_in(
            seen(j),
        ),
{
    match j {
        Some(Json::Str(t)) => match time_parse(t.as_str()) {
            Some((secs, nanos)) => Some(Timestamp { secs, nanos }),
            None => None,
        },
        _ => None,
    }
}

fn write_id(id: Uuid) -> (r: Option<Json>)
    ensures
        match r {
            Some(j) => id_writable(id) && j@ == id_doc(id),
            None => !id_writable(id),
        },
{
    let text = uuid_text(id.value);
    match uuid_parse(text.as_str()) {
        Some(v) => if v == id.value {
            Some(Json::Str(text))
        } else {
            None
        },
        None => None,
    }
}

fn read_id(j: Option<&Json>) -> (r: Option<Uuid>)
    ensures
        r == id_in(
            seen(j),
        ),
{
    match j {
        Some(Json::Str(t)) => match uuid_parse(t.as_str()) {
            Some(value) => Some(Uuid { value }),
            None => None,
        },
        _ => None,
    }
}


/// The document of the seller's redeem message.
pub open spec fn redeem_doc(v: RedeemView) -> JsonView {
    JsonView::Object(seq![("redeem_participant"@, v.redeem_participant)])
}

/// The seller's redeem message in a document.
pub open spec fn redeem_in(j: Option<JsonView>) -> Option<RedeemView> {
    match members_of(j) {
        Some(m) => {
            let redeem_participant = lookup(m, "redeem_participant"@);
            if m.len() == 1 && redeem_participant is Some {
                Some(RedeemView { redeem_participant: redeem_participant->0 })
            } else {
                None
            }
        },
        None => None,
    }
}

/// The document of the buyer's redeem request.
pub open spec fn init_redeem_doc(v: InitRedeemView) -> JsonView {
    JsonView::Object(
        seq![
            ("redeem_slate"@, v.redeem_slate),
            ("adaptor_signature"@, bytes_doc(v.adaptor_signature)),
        ],
    )
}

/// The buyer's redeem request in a document.
pub open spec fn init_redeem_in(j: Option<JsonView>) -> Option<InitRedeemView> {
    match members_of(j) {
        Some(m) => {
            let redeem_slate = lookup(m, "redeem_slate"@);
            let adaptor_signature = bytes_in(lookup(m, "adaptor_signature"@), SIGNATURE_LEN);
            if m.len() == 2 && redeem_slate is Some && adaptor_signature is Some {
                Some(
                    InitRedeemView {
                        redeem_slate: redeem_slate->0,
                        adaptor_signature: adaptor_signature->0,
                    },
                )
            } else {
                None
            }
        },
        None => None,
    }
}

/// The document of the buyer's acceptance.
pub open spec fn accept_doc(v: AcceptOfferView) -> JsonView {
    JsonView::Object(
        seq![
            ("multisig"@, v.multisig),
            ("redeem_public"@, bytes_doc(v.redeem_public)),
            ("lock_participant"@, v.lock_participant),
            ("refund_participant"@, v.refund_participant),
        ],
    )
}

/// The buyer's acceptance in a document.
pub open spec fn accept_in(j: Option<JsonView>) -> Option<AcceptOfferView> {
    match members_of(j) {
        Some(m) => {
            let multisig = lookup(m, "multisig"@);
            let redeem_public = bytes_in(lookup(m, "redeem_public"@), PUBLIC_KEY_LEN);
            let lock_participant = lookup(m, "lock_participant"@);
            let refund_participant = lookup(m, "refund_participant"@);
            if m.len() == 4 && multisig is Some && redeem_public is Some && lock_participant
                is Some && refund_participant is Some {
                Some(
                    AcceptOfferView {
                        multisig: multisig->0,
                        redeem_public: redeem_public->0,
                        lock_participant: lock_participant->0,
                        refund_participant: refund_participant->0,
                    },
                )
            } else {
                None
            }
        },
        None => None,
    }
}

/// The document of the seller's offer.
pub open spec fn offer_doc(v: OfferView) -> JsonView {
    JsonView::Object(
        seq![
            ("start_time"@, time_doc(v.start_time)),
            ("version"@, number_doc(v.version as u64)),
            ("network"@, network_doc(v.network)),
            ("primary_amount"@, amount_doc(v.primary_amount)),
            ("secondary_amount"@, amount_doc(v.secondary_amount)),
            ("secondary_currency"@, currency_doc(v.secondary_currency)),
            ("multisig"@, v.multisig),
            ("lock_slate"@, v.lock_slate),
            ("refund_slate"@, v.refund_slate),
            ("redeem_participant"@, v.redeem_participant),
            ("required_mwc_lock_confirmations"@, number_doc(v.required_mwc_lock_confirmations)),
            (
                "required_secondary_lock_confirmations"@,
                number_doc(v.required_secondary_lock_confirmations),
            ),
            ("mwc_lock_time_seconds"@, number_doc(v.mwc_lock_time_seconds)),
            ("seller_redeem_time"@, number_doc(v.seller_redeem_time)),
        ],
    )
}

/// The seller's offer in a document.
pub open spec fn offer_in(j: Option<JsonView>) -> Option<OfferView> {
    match members_of(j) {
        Some(m) => {
            let start_time = time_in(lookup(m, "start_time"@));
            let version = byte_in(lookup(m, "version"@));
            let network = network_in(lookup(m, "network"@));
            let primary_amount = amount_in(lookup(m, "primary_amount"@));
            let secondary_amount = amount_in(lookup(m, "secondary_amount"@));
            let secondary_currency = currency_in(lookup(m, "secondary_currency"@));
            let multisig = lookup(m, "multisig"@);
            let lock_slate = lookup(m, "lock_slate"@);
            let refund_slate = lookup(m, "refund_slate"@);
            let redeem_participant = lookup(m, "redeem_participant"@);
            let required_mwc = number_in(lookup(m, "required_mwc_lock_confirmations"@));
            let required_secondary = number_in(
                lookup(m, "required_secondary_lock_confirmations"@),
            );
            let mwc_lock_time_seconds = number_in(lookup(m, "mwc_lock_time_seconds"@));
            let seller_redeem_time = number_in(lookup(m, "seller_redeem_time"@));
            if m.len() == 14 && start_time is Some && version is Some && network is Some
                && primary_amount is Some && secondary_amount is Some && secondary_currency
                is Some && multisig is Some && lock_slate is Some && refund_slate is Some
                && redeem_participant is Some && required_mwc is Some && required_secondary
                is Some && mwc_lock_time_seconds is Some && seller_redeem_time is Some {
                Some(
                    OfferView {
                        start_time: start_time->0,
                        version: version->0,
                        network: network->0,
                        primary_amount: primary_amount->0,
                        secondary_amount: secondary_amount->0,
                        secondary_currency: secondary_currency->0,
                        multisig: multisig->0,
                        lock_slate: lock_slate->0,
                        refund_slate: refund_slate->0,
                        redeem_participant: redeem_participant->0,
                        required_mwc_lock_confirmations: required_mwc->0,
                        required_secondary_lock_confirmations: required_secondary->0,
                        mwc_lock_time_seconds: mwc_lock_time_seconds->0,
                        seller_redeem_time: seller_redeem_time->0,
                    },
                )
            } else {
                None
            }
        },
        None => None,
    }
}

/// The document of an update: its name alone where it carries nothing,
/// else an object with the name as its only key.
pub open spec fn update_doc(v: UpdateView) -> JsonView {
    match v {
        UpdateView::Nothing => JsonView::Str("None"@),
        UpdateView::Offer(u) => JsonView::Object(seq![("Offer"@, offer_doc(u))]),
        UpdateView::AcceptOffer(u) => JsonView::Object(seq![("AcceptOffer"@, accept_doc(u))]),
        UpdateView::InitRedeem(u) => JsonView::Object(seq![("InitRedeem"@, init_redeem_doc(u))]),
        UpdateView::Redeem(u) => JsonView::Object(seq![("Redeem"@, redeem_doc(u))]),
    }
}

/// The update in a document. A name that is not known is an error.
pub open spec fn update_in(j: Option<JsonView>) -> Option<UpdateView> {
    match j {
        Some(JsonView::Str(t)) => if t == "None"@ {
            Some(UpdateView::Nothing)
        } else {
            None
        },
        _ => match single_of(j) {
            Some((name, body)) => if name == "Offer"@ {
                match offer_in(Some(body)) {
                    Some(u) => Some(UpdateView::Offer(u)),
                    None => None,
                }
            } else if name == "AcceptOffer"@ {
                match accept_in(Some(body)) {
                    Some(u) => Some(UpdateView::AcceptOffer(u)),
                    None => None,
                }
            } else if name == "InitRedeem"@ {
                match init_redeem_in(Some(body)) {
                    Some(u) => Some(UpdateView::InitRedeem(u)),
                    None => None,
                }
            } else if name == "Redeem"@ {
                match redeem_in(Some(body)) {
                    Some(u) => Some(UpdateView::Redeem(u)),
                    None => None,
                }
            } else {
                None
            },
            None => None,
        },
    }
}

/// The document of the secondary part that goes with an offer or an
/// acceptance.
pub open spec fn btc_doc(v: BtcView) -> JsonView {
    match v {
        BtcView::Offer(cosign) => JsonView::Object(
            seq![("Offer"@, JsonView::Object(seq![("cosign"@, bytes_doc(cosign))]))],
        ),
        BtcView::AcceptOffer(refund) => JsonView::Object(
            seq![("AcceptOffer"@, JsonView::Object(seq![("refund"@, bytes_doc(refund))]))],
        ),
    }
}

/// The key under `name` in an object that holds nothing else.
pub open spec fn key_in(j: Option<JsonView>, name: Seq<char>) -> Option<Seq<u8>> {
    match members_of(j) {
        Some(m) => if m.len() == 1 {
            bytes_in(lookup(m, name), PUBLIC_KEY_LEN)
        } else {
            None
        },
        None => None,
    }
}

/// The secondary part of an offer or an acceptance in a document.
pub open spec fn btc_in(j: Option<JsonView>) -> Option<BtcView> {
    match single_of(j) {
        Some((name, body)) => if name == "Offer"@ {
            match key_in(Some(body), "cosign"@) {
                Some(k) => Some(BtcView::Offer(k)),
                None => None,
            }
        } else if name == "AcceptOffer"@ {
            match key_in(Some(body), "refund"@) {
                Some(k) => Some(BtcView::AcceptOffer(k)),
                None => None,
            }
        } else {
            None
        },
        None => None,
    }
}

/// The document of the secondary part of a message.
pub open spec fn secondary_doc(v: SecondaryView) -> JsonView {
    match v {
        SecondaryView::Empty => JsonView::Str("Empty"@),
        SecondaryView::BTC(u) => JsonView::Object(seq![("BTC"@, btc_doc(u))]),
    }
}

/// The secondary part of a message in a document.
pub open spec fn secondary_in(j: Option<JsonView>) -> Option<SecondaryView> {
    match j {
        Some(JsonView::Str(t)) => if t == "Empty"@ {
            Some(SecondaryView::Empty)
        } else {
            None
        },
        _ => match single_of(j) {
            Some((name, body)) => if name == "BTC"@ {
                match btc_in(Some(body)) {
                    Some(u) => Some(SecondaryView::BTC(u)),
                    None => None,
                }
            } else {
                None
            },
            None => None,
        },
    }
}

/// The document of a message.
pub open spec fn message_doc(v: MessageView) -> JsonView {
    JsonView::Object(
        seq![
            ("id"@, id_doc(v.id)),
            ("inner"@, update_doc(v.inner)),
            ("inner_secondary"@, secondary_doc(v.inner_secondary)),
        ],
    )
}

/// The message in a document.
pub open spec fn message_in(j: Option<JsonView>) -> Option<MessageView> {
    match members_of(j) {
        Some(m) => {
            let id = id_in(lookup(m, "id"@));
            let inner = update_in(lookup(m, "inner"@));
            let inner_secondary = secondary_in(lookup(m, "inner_secondary"@));
            if m.len() == 3 && id is Some && inner is Some && inner_secondary is Some {
                Some(
                    MessageView {
                        id: id->0,
                        inner: inner->0,
                        inner_secondary: inner_secondary->0,
                    },
                )
            } else {
                None
            }
        },
        None => None,
    }
}

/// Whether an update can be written: its keys and signatures have their
/// lengths, and its time has a text that reads back.
pub open spec fn update_writable(v: UpdateView) -> bool {
    match v {
        UpdateView::Nothing => true,
        UpdateView::Offer(u) => time_writable(u.start_time),
        UpdateView::AcceptOffer(u) => u.redeem_public.len() == PUBLIC_KEY_LEN,
        UpdateView::InitRedeem(u) => u.adaptor_signature.len() == SIGNATURE_LEN,
        UpdateView::Redeem(_) => true,
    }
}

/// Whether a secondary part can be written: its key has its length.
pub open spec fn secondary_writable(v: SecondaryView) -> bool {
    match v {
        SecondaryView::Empty => true,
        SecondaryView::BTC(BtcView::Offer(k)) => k.len() == PUBLIC_KEY_LEN,
        SecondaryView::BTC(BtcView::AcceptOffer(k)) => k.len() == PUBLIC_KEY_LEN,
    }
}

/// Whether a message can be written.
pub open spec fn message_writable(v: MessageView) -> bool {
    id_writable(v.id) && update_writable(v.inner) && secondary_writable(v.inner_secondary)
}


/// A key or signature of the stated length reads back from its document.
pub proof fn lemma_bytes_round_trip(b: Seq<u8>, len: usize)
    requires
        b.len() == len,
    ensures
        bytes_in(Some(bytes_doc(b)), len) == Some(b),
{
    lemma_unhex_hex(b);
}

/// A count reads back from its document, as a count and as an amount.
pub proof fn lemma_number_round_trip(n: u64)
    ensures
        number_in(Some(number_doc(n))) == Some(n),
        amount_in(Some(amount_doc(n))) == Some(n),
        amount_in(Some(number_doc(n))) == Some(n),
{
    lemma_undecimal_decimal(n);
}

/// The seller's redeem message reads back from its document.
pub proof fn lemma_redeem_round_trip(v: RedeemView)
    ensures
        redeem_in(Some(redeem_doc(v))) == Some(v),
{
    let m = redeem_doc(v)->Object_0;
    lemma_lookup_at(m, "redeem_participant"@, 0);
}

/// The buyer's redeem request reads back from its document.
pub proof fn lemma_init_redeem_round_trip(v: InitRedeemView)
    requires
        v.adaptor_signature.len() == SIGNATURE_LEN,
    ensures
        init_redeem_in(Some(init_redeem_doc(v))) == Some(v),
{
    reveal_strlit("redeem_slate");
    reveal_strlit("adaptor_signature");
    assert("redeem_slate"@.len() == 12 && "adaptor_signature"@.len() == 17);
    let m = init_redeem_doc(v)->Object_0;
    lemma_lookup_at(m, "redeem_slate"@, 0);
    lemma_lookup_at(m, "adaptor_signature"@, 1);
    lemma_bytes_round_trip(v.adaptor_signature, SIGNATURE_LEN);
}

/// The buyer's acceptance reads back from its document.
pub proof fn lemma_accept_round_trip(v: AcceptOfferView)
    requires
        v.redeem_public.len() == PUBLIC_KEY_LEN,
    ensures
        accept_in(Some(accept_doc(v))) == Some(v),
{
    reveal_strlit("multisig");
    reveal_strlit("redeem_public");
    reveal_strlit("lock_participant");
    reveal_strlit("refund_participant");
    assert("multisig"@.len() == 8 && "redeem_public"@.len() == 13 && "lock_participant"@.len() == 16 && "refund_participant"@.len() == 18);
    let m = accept_doc(v)->Object_0;
    lemma_lookup_at(m, "multisig"@, 0);
    lemma_lookup_at(m, "redeem_public"@, 1);
    lemma_lookup_at(m, "lock_participant"@, 2);
    lemma_lookup_at(m, "refund_participant"@, 3);
    lemma_bytes_round_trip(v.redeem_public, PUBLIC_KEY_LEN);
}


/// A network and a currency read back from their documents.
pub proof fn lemma_names_round_trip(n: Network, c: Currency)
    ensures
        network_in(Some(network_doc(n))) == Some(n),
        currency_in(Some(currency_doc(c))) == Some(c),
{
    reveal_strlit("Mainnet");
    reveal_strlit("Floonet");
    reveal_strlit("Btc");
    reveal_strlit("Bch");
    assert("Mainnet"@[0] == 'M' && "Floonet"@[0] == 'F');
    assert("Btc"@[1] == 't' && "Bch"@[1] == 'c');
}

/// The seller's offer reads back from its document.
pub proof fn lemma_offer_round_trip(v: OfferView)
    requires
        time_writable(v.start_time),
    ensures
        offer_in(Some(offer_doc(v))) == Some(v),
{
    reveal_strlit("start_time");
    reveal_strlit("version");
    reveal_strlit("network");
    reveal_strlit("primary_amount");
    reveal_strlit("secondary_amount");
    reveal_strlit("secondary_currency");
    reveal_strlit("multisig");
    reveal_strlit("lock_slate");
    reveal_strlit("refund_slate");
    reveal_strlit("redeem_participant");
    reveal_strlit("required_mwc_lock_confirmations");
    reveal_strlit("required_secondary_lock_confirmations");
    reveal_strlit("mwc_lock_time_seconds");
    reveal_strlit("seller_redeem_time");
    assert("start_time"@.len() == 10 && "start_time"@[0] == 's');
    assert("version"@.len() == 7 && "version"@[0] == 'v');
    assert("network"@.len() == 7 && "network"@[0] == 'n');
    assert("primary_amount"@.len() == 14);
    assert("secondary_amount"@.len() == 16);
    assert("secondary_currency"@.len() == 18 && "secondary_currency"@[0] == 's'
        && "secondary_currency"@[17] == 'y');
    assert("multisig"@.len() == 8);
    assert("lock_slate"@.len() == 10 && "lock_slate"@[0] == 'l');
    assert("refund_slate"@.len() == 12);
    assert("redeem_participant"@.len() == 18 && "redeem_participant"@[0] == 'r');
    assert("required_mwc_lock_confirmations"@.len() == 31);
    assert("required_secondary_lock_confirmations"@.len() == 37);
    assert("mwc_lock_time_seconds"@.len() == 21);
    assert("seller_redeem_time"@.len() == 18 && "seller_redeem_time"@[0] == 's'
        && "seller_redeem_time"@[17] == 'e');
    let m = offer_doc(v)->Object_0;
    lemma_lookup_at(m, "start_time"@, 0);
    lemma_lookup_at(m, "version"@, 1);
    lemma_lookup_at(m, "network"@, 2);
    lemma_lookup_at(m, "primary_amount"@, 3);
    lemma_lookup_at(m, "secondary_amount"@, 4);
    lemma_lookup_at(m, "secondary_currency"@, 5);
    lemma_lookup_at(m, "multisig"@, 6);
    lemma_lookup_at(m, "lock_slate"@, 7);
    lemma_lookup_at(m, "refund_slate"@, 8);
    lemma_lookup_at(m, "redeem_participant"@, 9);
    lemma_lookup_at(m, "required_mwc_lock_confirmations"@, 10);
    lemma_lookup_at(m, "required_secondary_lock_confirmations"@, 11);
    lemma_lookup_at(m, "mwc_lock_time_seconds"@, 12);
    lemma_lookup_at(m, "seller_redeem_time"@, 13);
    lemma_names_round_trip(v.network, v.secondary_currency);
    lemma_number_round_trip(v.version as u64);
    lemma_number_round_trip(v.primary_amount);
    lemma_number_round_trip(v.secondary_amount);
    lemma_number_round_trip(v.required_mwc_lock_confirmations);
    lemma_number_round_trip(v.required_secondary_lock_confirmations);
    lemma_number_round_trip(v.mwc_lock_time_seconds);
    lemma_number_round_trip(v.seller_redeem_time);
}

/// An update that can be written reads back from its document.
pub proof fn lemma_update_round_trip(v: UpdateView)
    requires
        update_writable(v),
    ensures
        update_in(Some(update_doc(v))) == Some(v),
{
    reveal_strlit("None");
    reveal_strlit("Offer");
    reveal_strlit("AcceptOffer");
    reveal_strlit("InitRedeem");
    reveal_strlit("Redeem");
    assert("None"@.len() == 4 && "Offer"@.len() == 5 && "AcceptOffer"@.len() == 11
        && "InitRedeem"@.len() == 10 && "Redeem"@.len() == 6);
    match v {
        UpdateView::Nothing => {},
        UpdateView::Offer(u) => {
            lemma_offer_round_trip(u);
        },
        UpdateView::AcceptOffer(u) => {
            lemma_accept_round_trip(u);
        },
        UpdateView::InitRedeem(u) => {
            lemma_init_redeem_round_trip(u);
        },
        UpdateView::Redeem(u) => {
            lemma_redeem_round_trip(u);
        },
    }
}

/// A secondary part that can be written reads back from its document.
pub proof fn lemma_secondary_round_trip(v: SecondaryView)
    requires
        secondary_writable(v),
    ensures
        secondary_in(Some(secondary_doc(v))) == Some(v),
{
    reveal_strlit("Empty");
    reveal_strlit("BTC");
    reveal_strlit("Offer");
    reveal_strlit("AcceptOffer");
    reveal_strlit("cosign");
    reveal_strlit("refund");
    assert("Empty"@.len() == 5 && "BTC"@.len() == 3 && "Offer"@.len() == 5 && "AcceptOffer"@.len() == 11);
    match v {
        SecondaryView::Empty => {},
        SecondaryView::BTC(BtcView::Offer(k)) => {
            let inner = seq![("cosign"@, bytes_doc(k))];
            lemma_lookup_at(inner, "cosign"@, 0);
            lemma_bytes_round_trip(k, PUBLIC_KEY_LEN);
            assert(key_in(Some(JsonView::Object(inner)), "cosign"@) == Some(k));
            assert(btc_in(Some(btc_doc(BtcView::Offer(k)))) == Some(BtcView::Offer(k)));
        },
        SecondaryView::BTC(BtcView::AcceptOffer(k)) => {
            let inner = seq![("refund"@, bytes_doc(k))];
            lemma_lookup_at(inner, "refund"@, 0);
            lemma_bytes_round_trip(k, PUBLIC_KEY_LEN);
            assert(key_in(Some(JsonView::Object(inner)), "refund"@) == Some(k));
            assert(btc_in(Some(btc_doc(BtcView::AcceptOffer(k)))) == Some(BtcView::AcceptOffer(k)));
        },
    }
}

/// Round trip of the wire form: a message that can be written reads back
/// from its document as the same message.
pub proof fn lemma_message_round_trip(v: MessageView)
    requires
        message_writable(v),
    ensures
        message_in(Some(message_doc(v))) == Some(v),
{
    reveal_strlit("id");
    reveal_strlit("inner");
    reveal_strlit("inner_secondary");
    assert("id"@.len() == 2 && "inner"@.len() == 5 && "inner_secondary"@.len() == 15);
    let m = message_doc(v)->Object_0;
    lemma_lookup_at(m, "id"@, 0);
    lemma_lookup_at(m, "inner"@, 1);
    lemma_lookup_at(m, "inner_secondary"@, 2);
    lemma_update_round_trip(v.inner);
    lemma_secondary_round_trip(v.inner_secondary);
}


/// The names of the members of a message.
pub open spec fn message_keys() -> Seq<Seq<char>> {
    seq!["id"@, "inner"@, "inner_secondary"@]
}

/// The names of the members of an offer.
pub open spec fn offer_keys() -> Seq<Seq<char>> {
    seq![
        "start_time"@,
        "version"@,
        "network"@,
        "primary_amount"@,
        "secondary_amount"@,
        "secondary_currency"@,
        "multisig"@,
        "lock_slate"@,
        "refund_slate"@,
        "redeem_participant"@,
        "required_mwc_lock_confirmations"@,
        "required_secondary_lock_confirmations"@,
        "mwc_lock_time_seconds"@,
        "seller_redeem_time"@,
    ]
}

/// Unknown members are refused: a document that holds a message has, at
/// its top, the three members of a message and no other.
pub proof fn lemma_message_has_no_other_members(j: JsonView)
    requires
        message_in(Some(j)) is Some,
    ensures
        j is Object,
        j->Object_0.len() == 3,
        only_under(j->Object_0, message_keys()),
{
    reveal_strlit("id");
    reveal_strlit("inner");
    reveal_strlit("inner_secondary");
    assert("id"@.len() == 2 && "inner"@.len() == 5 && "inner_secondary"@.len() == 15);
    let keys = message_keys();
    assert(keys[0] == "id"@ && keys[1] == "inner"@ && keys[2] == "inner_secondary"@);
    lemma_no_other_members(j->Object_0, keys);
}

/// Unknown members are refused: a document that holds an offer has the
/// fourteen members of an offer and no other.
pub proof fn lemma_offer_has_no_other_members(j: JsonView)
    requires
        offer_in(Some(j)) is Some,
    ensures
        j is Object,
        j->Object_0.len() == 14,
        only_under(j->Object_0, offer_keys()),
{
    reveal_strlit("start_time");
    reveal_strlit("version");
    reveal_strlit("network");
    reveal_strlit("primary_amount");
    reveal_strlit("secondary_amount");
    reveal_strlit("secondary_currency");
    reveal_strlit("multisig");
    reveal_strlit("lock_slate");
    reveal_strlit("refund_slate");
    reveal_strlit("redeem_participant");
    reveal_strlit("required_mwc_lock_confirmations");
    reveal_strlit("required_secondary_lock_confirmations");
    reveal_strlit("mwc_lock_time_seconds");
    reveal_strlit("seller_redeem_time");
    assert("start_time"@.len() == 10 && "start_time"@[0] == 's');
    assert("version"@.len() == 7 && "version"@[0] == 'v');
    assert("network"@.len() == 7 && "network"@[0] == 'n');
    assert("primary_amount"@.len() == 14);
    assert("secondary_amount"@.len() == 16);
    assert("secondary_currency"@.len() == 18 && "secondary_currency"@[0] == 's'
        && "secondary_currency"@[17] == 'y');
    assert("multisig"@.len() == 8);
    assert("lock_slate"@.len() == 10 && "lock_slate"@[0] == 'l');
    assert("refund_slate"@.len() == 12);
    assert("redeem_participant"@.len() == 18 && "redeem_participant"@[0] == 'r');
    assert("required_mwc_lock_confirmations"@.len() == 31);
    assert("required_secondary_lock_confirmations"@.len() == 37);
    assert("mwc_lock_time_seconds"@.len() == 21);
    assert("seller_redeem_time"@.len() == 18 && "seller_redeem_time"@[0] == 's'
        && "seller_redeem_time"@[17] == 'e');
    let keys = offer_keys();
    assert(keys[0] == "start_time"@ && keys[1] == "version"@ && keys[2] == "network"@ && keys[3]
        == "primary_amount"@ && keys[4] == "secondary_amount"@ && keys[5]
        == "secondary_currency"@ && keys[6] == "multisig"@ && keys[7] == "lock_slate"@ && keys[8]
        == "refund_slate"@ && keys[9] == "redeem_participant"@ && keys[10]
        == "required_mwc_lock_confirmations"@ && keys[11]
        == "required_secondary_lock_confirmations"@ && keys[12] == "mwc_lock_time_seconds"@
        && keys[13] == "seller_redeem_time"@);
    lemma_no_other_members(j->Object_0, keys);
}

/// Unknown updates are refused: a document that holds an update is the
/// bare name of the empty one, or an object whose only member is under the
/// name of one of the four others.
pub proof fn lemma_update_is_known(j: JsonView)
    requires
        update_in(Some(j)) is Some,
    ensures
        j == JsonView::Str("None"@) || (j is Object && j->Object_0.len() == 1 && (j->Object_0[0].0
            == "Offer"@ || j->Object_0[0].0 == "AcceptOffer"@ || j->Object_0[0].0
            == "InitRedeem"@ || j->Object_0[0].0 == "Redeem"@)),
{
}

fn pair(key: &str, value: Json) -> (m: (String, Json))
    ensures
        m.0@ == key@,
        m.1@ == value@,
{
    (String::from_str(key), value)
}

fn write_redeem(u: &RedeemUpdate) -> (j: Json)
    ensures
        j@ == redeem_doc(u@),
{
    let j = Json::object(vec![pair("redeem_participant", u.redeem_participant.body.duplicate())]);
    assert(j@->Object_0 =~= redeem_doc(u@)->Object_0);
    j
}

fn read_redeem(j: Option<&Json>) -> (r: Option<RedeemUpdate>)
    ensures
        match redeem_in(seen(j)) {
            Some(v) => r matches Some(u) && u@ == v,
            None => r is None,
        },
{
    let j = match j {
        Some(j) => j,
        None => {
            return None;
        },
    };
    match j.member_count() {
        Some(1) => {},
        _ => {
            return None;
        },
    }
    let redeem_participant = match j.member("redeem_participant") {
        Some(p) => p.duplicate(),
        None => {
            return None;
        },
    };
    Some(RedeemUpdate { redeem_participant: TxParticipant { body: redeem_participant } })
}

fn write_init_redeem(u: &InitRedeemUpdate) -> (j: Json)
    ensures
        j@ == init_redeem_doc(u@),
{
    let j = Json::object(
        vec![
            pair("redeem_slate", u.redeem_slate.body.duplicate()),
            pair("adaptor_signature", write_bytes(&u.adaptor_signature.bytes)),
        ],
    );
    assert(j@->Object_0 =~= init_redeem_doc(u@)->Object_0);
    j
}

fn read_init_redeem(j: Option<&Json>) -> (r: Option<InitRedeemUpdate>)
    ensures
        match init_redeem_in(seen(j)) {
            Some(v) => r matches Some(u) && u@ == v,
            None => r is None,
        },
{
    let j = match j {
        Some(j) => j,
        None => {
            return None;
        },
    };
    match j.member_count() {
        Some(2) => {},
        _ => {
            return None;
        },
    }
    let redeem_slate = match j.member("redeem_slate") {
        Some(p) => p.duplicate(),
        None => {
            return None;
        },
    };
    let adaptor_signature = match read_bytes(j.member("adaptor_signature"), SIGNATURE_LEN) {
        Some(b) => b,
        None => {
            return None;
        },
    };
    Some(
        InitRedeemUpdate {
            redeem_slate: VersionedSlate { body: redeem_slate },
            adaptor_signature: Signature { bytes: adaptor_signature },
        },
    )
}

fn write_accept(u: &AcceptOfferUpdate) -> (j: Json)
    ensures
        j@ == accept_doc(u@),
{
    let j = Json::object(
        vec![
            pair("multisig", u.multisig.body.duplicate()),
            pair("redeem_public", write_bytes(&u.redeem_public.bytes)),
            pair("lock_participant", u.lock_participant.body.duplicate()),
            pair("refund_participant", u.refund_participant.body.duplicate()),
        ],
    );
    assert(j@->Object_0 =~= accept_doc(u@)->Object_0);
    j
}

fn read_accept(j: Option<&Json>) -> (r: Option<AcceptOfferUpdate>)
    ensures
        match accept_in(seen(j)) {
            Some(v) => r matches Some(u) && u@ == v,
            None => r is None,
        },
{
    let j = match j {
        Some(j) => j,
        None => {
            return None;
        },
    };
    match j.member_count() {
        Some(4) => {},
        _ => {
            return None;
        },
    }
    let multisig = match j.member("multisig") {
        Some(p) => p.duplicate(),
        None => {
            return None;
        },
    };
    let redeem_public = match read_bytes(j.member("redeem_public"), PUBLIC_KEY_LEN) {
        Some(b) => b,
        None => {
            return None;
        },
    };
    let lock_participant = match j.member("lock_participant") {
        Some(p) => p.duplicate(),
        None => {
            return None;
        },
    };
    let refund_participant = match j.member("refund_participant") {
        Some(p) => p.duplicate(),
        None => {
            return None;
        },
    };
    Some(
        AcceptOfferUpdate {
            multisig: MultisigParticipant { body: multisig },
            redeem_public: PublicKey { bytes: redeem_public },
            lock_participant: TxParticipant { body: lock_participant },
            refund_participant: TxParticipant { body: refund_participant },
        },
    )
}

fn write_offer(u: &OfferUpdate) -> (r: Option<Json>)
    ensures
        match r {
            Some(j) => time_writable(u.start_time) && j@ == offer_doc(u@),
            None => !time_writable(u.start_time),
        },
{
    let start_time = match write_time(u.start_time) {
        Some(t) => t,
        None => {
            return None;
        },
    };
    let j = Json::object(
        vec![
            pair("start_time", start_time),
            pair("version", write_number(u.version as u64)),
            pair("network", write_network(u.network)),
            pair("primary_amount", write_amount(u.primary_amount)),
            pair("secondary_amount", write_amount(u.secondary_amount)),
            pair("secondary_currency", write_currency(u.secondary_currency)),
            pair("multisig", u.multisig.body.duplicate()),
            pair("lock_slate", u.lock_slate.body.duplicate()),
            pair("refund_slate", u.refund_slate.body.duplicate()),
            pair("redeem_participant", u.redeem_participant.body.duplicate()),
            pair(
                "required_mwc_lock_confirmations",
                write_number(u.required_mwc_lock_confirmations),
            ),
            pair(
                "required_secondary_lock_confirmations",
                write_number(u.required_secondary_lock_confirmations),
            ),
            pair("mwc_lock_time_seconds", write_number(u.mwc_lock_time_seconds)),
            pair("seller_redeem_time", write_number(u.seller_redeem_time)),
        ],
    );
    assert(j@->Object_0 =~= offer_doc(u@)->Object_0);
    Some(j)
}

fn read_offer(j: Option<&Json>) -> (r: Option<OfferUpdate>)
    ensures
        match offer_in(seen(j)) {
            Some(v) => r matches Some(u) && u@ == v,
            None => r is None,
        },
{
    let j = match j {
        Some(j) => j,
        None => {
            return None;
        },
    };
    match j.member_count() {
        Some(14) => {},
        _ => {
            return None;
        },
    }
    let start_time = match read_time(j.member("start_time")) {
        Some(x) => x,
        None => {
            return None;
        },
    };
    let version = match read_byte(j.member("version")) {
        Some(x) => x,
        None => {
            return None;
        },
    };
    let network = match read_network(j.member("network")) {
        Some(x) => x,
        None => {
            return None;
        },
    };
    let primary_amount = match read_amount(j.member("primary_amount")) {
        Some(x) => x,
        None => {
            return None;
        },
    };
    let secondary_amount = match read_amount(j.member("secondary_amount")) {
        Some(x) => x,
        None => {
            return None;
        },
    };
    let secondary_currency = match read_currency(j.member("secondary_currency")) {
        Some(x) => x,
        None => {
            return None;
        },
    };
    let multisig = match j.member("multisig") {
        Some(p) => p.duplicate(),
        None => {
            return None;
        },
    };
    let lock_slate = match j.member("lock_slate") {
        Some(p) => p.duplicate(),
        None => {
            return None;
        },
    };
    let refund_slate = match j.member("refund_slate") {
        Some(p) => p.duplicate(),
        None => {
            return None;
        },
    };
    let redeem_participant = match j.member("redeem_participant") {
        Some(p) => p.duplicate(),
        None => {
            return None;
        },
    };
    let required_mwc = match read_number(j.member("required_mwc_lock_confirmations")) {
        Some(x) => x,
        None => {
            return None;
        },
    };
    let required_secondary = match read_number(j.member("required_secondary_lock_confirmations")) {
        Some(x) => x,
        None => {
            return None;
        },
    };
    let mwc_lock_time_seconds = match read_number(j.member("mwc_lock_time_seconds")) {
        Some(x) => x,
        None => {
            return None;
        },
    };
    let seller_redeem_time = match read_number(j.member("seller_redeem_time")) {
        Some(x) => x,
        None => {
            return None;
        },
    };
    Some(
        OfferUpdate {
            start_time,
            version,
            network,
            primary_amount,
            secondary_amount,
            secondary_currency,
            multisig: MultisigParticipant { body: multisig },
            lock_slate: VersionedSlate { body: lock_slate },
            refund_slate: VersionedSlate { body: refund_slate },
            redeem_participant: TxParticipant { body: redeem_participant },
            required_mwc_lock_confirmations: required_mwc,
            required_secondary_lock_confirmations: required_secondary,
            mwc_lock_time_seconds,
            seller_redeem_time,
        },
    )
}

fn tagged(name: &str, body: Json) -> (j: Json)
    ensures
        j@ == JsonView::Object(seq![(name@, body@)]),
{
    let j = Json::object(vec![pair(name, body)]);
    assert(j@->Object_0 =~= seq![(name@, body@)]);
    j
}

fn write_update(u: &Update) -> (r: Option<Json>)
    ensures
        match r {
            Some(j) => update_writable(u@) && j@ == update_doc(u@),
            None => !update_writable(u@),
        },
{
    match u {
        Update::Nothing => Some(Json::string("None")),
        Update::Offer(o) => match write_offer(o) {
            Some(body) => Some(tagged("Offer", body)),
            None => None,
        },
        Update::AcceptOffer(a) => if a.redeem_public.is_well_formed() {
            Some(tagged("AcceptOffer", write_accept(a)))
        } else {
            None
        },
        Update::InitRedeem(i) => if i.adaptor_signature.is_well_formed() {
            Some(tagged("InitRedeem", write_init_redeem(i)))
        } else {
            None
        },
        Update::Redeem(r) => Some(tagged("Redeem", write_redeem(r))),
    }
}

fn read_update(j: Option<&Json>) -> (r: Option<Update>)
    ensures
        match update_in(seen(j)) {
            Some(v) => r matches Some(u) && u@ == v,
            None => r is None,
        },
{
    let j = match j {
        Some(j) => j,
        None => {
            return None;
        },
    };
    match j.as_str() {
        Some(t) => {
            return if str_eq(t, "None") {
                Some(Update::Nothing)
            } else {
                None
            };
        },
        None => {},
    }
    match j.single() {
        Some((name, body)) => if str_eq(name, "Offer") {
            match read_offer(Some(body)) {
                Some(u) => Some(Update::Offer(u)),
                None => None,
            }
        } else if str_eq(name, "AcceptOffer") {
            match read_accept(Some(body)) {
                Some(u) => Some(Update::AcceptOffer(u)),
                None => None,
            }
        } else if str_eq(name, "InitRedeem") {
            match read_init_redeem(Some(body)) {
                Some(u) => Some(Update::InitRedeem(u)),
                None => None,
            }
        } else if str_eq(name, "Redeem") {
            match read_redeem(Some(body)) {
                Some(u) => Some(Update::Redeem(u)),
                None => None,
            }
        } else {
            None
        },
        None => None,
    }
}

fn read_key(j: &Json, name: &str) -> (r: Option<PublicKey>)
    ensures
        match key_in(Some(j@), name@) {
            Some(k) => r matches Some(p) && p@ == k,
            None => r is None,
        },
{
    match j.member_count() {
        Some(1) => {},
        _ => {
            return None;
        },
    }
    match read_bytes(j.member(name), PUBLIC_KEY_LEN) {
        Some(bytes) => Some(PublicKey { bytes }),
        None => None,
    }
}

fn write_secondary(u: &SecondaryUpdate) -> (r: Option<Json>)
    ensures
        match r {
            Some(j) => secondary_writable(u@) && j@ == secondary_doc(u@),
            None => !secondary_writable(u@),
        },
{
    match u {
        SecondaryUpdate::Empty => Some(Json::string("Empty")),
        SecondaryUpdate::BTC(BtcUpdate::Offer(o)) => if o.cosign.is_well_formed() {
            Some(tagged("BTC", tagged("Offer", tagged("cosign", write_bytes(&o.cosign.bytes)))))
        } else {
            None
        },
        SecondaryUpdate::BTC(BtcUpdate::AcceptOffer(a)) => if a.refund.is_well_formed() {
            Some(
                tagged("BTC", tagged("AcceptOffer", tagged("refund", write_bytes(&a.refund.bytes)))),
            )
        } else {
            None
        },
    }
}

fn read_btc(j: &Json) -> (r: Option<BtcUpdate>)
    ensures
        match btc_in(Some(j@)) {
            Some(v) => r matches Some(u) && u@ == v,
            None => r is None,
        },
{
    match j.single() {
        Some((name, body)) => if str_eq(name, "Offer") {
            match read_key(body, "cosign") {
                Some(cosign) => Some(BtcUpdate::Offer(BtcOfferUpdate { cosign })),
                None => None,
            }
        } else if str_eq(name, "AcceptOffer") {
            match read_key(body, "refund") {
                Some(refund) => Some(BtcUpdate::AcceptOffer(BtcAcceptOfferUpdate { refund })),
                None => None,
            }
        } else {
            None
        },
        None => None,
    }
}

fn read_secondary(j: Option<&Json>) -> (r: Option<SecondaryUpdate>)
    ensures
        match secondary_in(seen(j)) {
            Some(v) => r matches Some(u) && u@ == v,
            None => r is None,
        },
{
    let j = match j {
        Some(j) => j,
        None => {
            return None;
        },
    };
    match j.as_str() {
        Some(t) => {
            return if str_eq(t, "Empty") {
                Some(SecondaryUpdate::Empty)
            } else {
                None
            };
        },
        None => {},
    }
    match j.single() {
        Some((name, body)) => if str_eq(name, "BTC") {
            match read_btc(body) {
                Some(u) => Some(SecondaryUpdate::BTC(u)),
                None => None,
            }
        } else {
            None
        },
        None => None,
    }
}

/// The message that a JSON text stands for: the one in the document that
/// the text holds; `None` where the text is not JSON or the document is no
/// message.
pub open spec fn from_json_spec(text: Seq<char>) -> Option<MessageView> {
    message_in(crate::json::json_parse_of(text))
}

/// The JSON text of a message: the text of its document, where the
/// message can be written and that text reads back as the document; else
/// `None`.
pub open spec fn to_json_spec(m: MessageView) -> Option<Seq<char>> {
    if message_writable(m) {
        crate::json::to_text_spec(message_doc(m))
    } else {
        None
    }
}

/// Round trip of the wire text: the text of a message reads back as that
/// message, and the message that is read back is written as the same text
/// again.
pub proof fn lemma_json_round_trip(m: MessageView)
    ensures
        to_json_spec(m) matches Some(text) ==> from_json_spec(text) == Some(m) && to_json_spec(
            from_json_spec(text)->0,
        ) == Some(text),
{
    if to_json_spec(m) is Some {
        lemma_message_round_trip(m);
    }
}

impl Message {
    /// The document of the message; `None` where the message cannot be
    /// written.
    pub fn to_document(&self) -> (r: Option<Json>)
        ensures
            match r {
                Some(j) => message_writable(self@) && j@ == message_doc(self@),
                None => !message_writable(self@),
            },
    {
        let id = match write_id(self.id) {
            Some(j) => j,
            None => {
                return None;
            },
        };
        let inner = match write_update(&self.inner) {
            Some(j) => j,
            None => {
                return None;
            },
        };
        let inner_secondary = match write_secondary(&self.inner_secondary) {
            Some(j) => j,
            None => {
                return None;
            },
        };
        let j = Json::object(
            vec![pair("id", id), pair("inner", inner), pair("inner_secondary", inner_secondary)],
        );
        assert(j@->Object_0 =~= message_doc(self@)->Object_0);
        Some(j)
    }

    /// The message in a document; `None` where the document is no message.
    pub fn from_document(j: &Json) -> (r: Option<Message>)
        ensures
            match message_in(Some(j@)) {
                Some(v) => r matches Some(m) && m@ == v,
                None => r is None,
            },
    {
        match j.member_count() {
            Some(3) => {},
            _ => {
                return None;
            },
        }
        let id = match read_id(j.member("id")) {
            Some(x) => x,
            None => {
                return None;
            },
        };
        let inner = match read_update(j.member("inner")) {
            Some(x) => x,
            None => {
                return None;
            },
        };
        let inner_secondary = match read_secondary(j.member("inner_secondary")) {
            Some(x) => x,
            None => {
                return None;
            },
        };
        Some(Message { id, inner, inner_secondary })
    }

    /// Message to Json String. The text is the one that serde_json writes
    /// for the document of the message. It reads back, by
    /// [`Message::from_json`], as this message. A message that cannot be
    /// written is an error: one with a key or signature of the wrong
    /// length, or with a time or identifier whose text does not read back.
    /// So is a message whose text would not read back as its document.
    pub fn to_json(&self) -> (r: Result<String, ErrorKind>)
        ensures
            match to_json_spec(self@) {
                Some(text) => r matches Ok(t) && t@ == text,
                None => r matches Err(e) && e is Serde,
            },
            r matches Ok(text) ==> from_json_spec(text@) == Some(self@),
    {
        let document = match self.to_document() {
            Some(j) => j,
            None => {
                return Err(
                    ErrorKind::Serde(
                        String::from_str("Unable to serialize a message, a field cannot be written"),
                    ),
                );
            },
        };
        match document.to_text() {
            Some(text) => {
                proof {
                    lemma_message_round_trip(self@);
                }
                Ok(text)
            },
            None => Err(
                ErrorKind::Serde(
                    String::from_str("Unable to serialize a message, the text does not read back"),
                ),
            ),
        }
    }

    /// Build message from Json. Gives the message that the text stands
    /// for; a text that stands for none is an error.
    pub fn from_json(s: &str) -> (r: Result<Message, ErrorKind>)
        ensures
            match from_json_spec(s@) {
                Some(v) => r matches Ok(m) && m@ == v,
                None => r matches Err(e) && e is Serde,
            },
    {
        let document = match Json::parse(s) {
            Some(j) => j,
            None => {
                return Err(
                    ErrorKind::Serde(
                        String::from_str("Unable to parse Swap Message from ").concat(s).concat(
                            ", the text is not JSON",
                        ),
                    ),
                );
            },
        };
        match Message::from_document(&document) {
            Some(m) => Ok(m),
            None => Err(
                ErrorKind::Serde(
                    String::from_str("Unable to parse Swap Message from ").concat(s).concat(
                        ", the document is not a message",
                    ),
                ),
            ),
        }
    }
}

} // verus!
