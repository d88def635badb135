//! Plain value types shared by the swap modules.

use vstd::prelude::*;

verus! {

/// The secondary chains a trade can settle on.
#[derive(Clone, Copy, Debug, PartialEq, Eq, Structural)]
pub enum Currency {
    /// Bitcoin.
    Btc,
    /// Bitcoin Cash.
    Bch,
}

/// The chain network a trade lives on.
#[derive(Clone, Copy, Debug, PartialEq, Eq, Structural)]
pub enum Network {
    /// Production network.
    Mainnet,
    /// Test network.
    Floonet,
}

/// The side of a trade that a wallet plays.
#[derive(Clone, Copy, Debug, PartialEq, Eq, Structural)]
pub enum Role {
    /// Sells the primary coin for the secondary one.
    Seller,
    /// Buys the primary coin with the secondary one.
    Buyer,
}

/// A 128-bit identifier of a trade or of a transaction draft.
#[derive(Clone, Copy, Debug, PartialEq, Eq, Structural)]
pub struct Uuid {
    /// The identifier as one number, most significant byte first.
    pub value: u128,
}

/// A point in time: seconds since the Unix epoch and the nanoseconds past
/// that second.
#[derive(Clone, Copy, Debug, PartialEq, Eq, Structural)]
pub struct Timestamp {
    /// Whole seconds since 1970-01-01T00:00:00Z.
    pub secs: i64,
    /// Nanoseconds past the second.
    pub nanos: u32,
}

/// Length in bytes of a compressed public key.
pub const PUBLIC_KEY_LEN: usize = 33;

/// Length in bytes of a compact signature.
pub const SIGNATURE_LEN: usize = 64;

/// A public key in its compressed form.
#[derive(Debug, PartialEq, Eq)]
pub struct PublicKey {
    /// The serialized key.
    pub bytes: Vec<u8>,
}

/// A signature in its compact form.
#[derive(Debug, PartialEq, Eq)]
pub struct Signature {
    /// The serialized signature.
    pub bytes: Vec<u8>,
}

impl View for PublicKey {
    type V = Seq<u8>;

    open spec fn view(&self) -> Seq<u8> {
        self.bytes@
    }
}

impl View for Signature {
    type V = Seq<u8>;

    open spec fn view(&self) -> Seq<u8> {
        self.bytes@
    }
}

impl PublicKey {
    /// A key has the length of a compressed key.
    pub open spec fn wf(&self) -> bool {
        self.bytes@.len() == PUBLIC_KEY_LEN
    }

    /// Whether the key has the length of a compressed key.
    pub fn is_well_formed(&self) -> (b: bool)
        ensures
            b == self.wf(),
    {
        self.bytes.len() == PUBLIC_KEY_LEN
    }
}

impl Signature {
    /// A signature has the length of a compact signature.
    pub open spec fn wf(&self) -> bool {
        self.bytes@.len() == SIGNATURE_LEN
    }

    /// Whether the signature has the length of a compact signature.
    pub fn is_well_formed(&self) -> (b: bool)
        ensures
            b == self.wf(),
    {
        self.bytes.len() == SIGNATURE_LEN
    }
}

impl Currency {
    /// The currency that a ticker names, if any.
    pub open spec fn from_ticker_spec(ticker: Seq<char>) -> Option<Currency> {
        if ticker == "BTC"@ || ticker == "btc"@ {
            Some(Currency::Btc)
        } else if ticker == "BCH"@ || ticker == "bch"@ {
            Some(Currency::Bch)
        } else {
            None
        }
    }

    /// Reads a ticker: `BTC` or `BCH`, in upper or lower case.
    pub fn from_ticker(ticker: &str) -> (c: Option<Currency>)
        ensures
            c == Self::from_ticker_spec(ticker@),
    {
        if str_eq(ticker, "BTC") || str_eq(ticker, "btc") {
            Some(Currency::Btc)
        } else if str_eq(ticker, "BCH") || str_eq(ticker, "bch") {
            Some(Currency::Bch)
        } else {
            None
        }
    }
}

/// Whether two strings hold the same characters.
pub fn str_eq(a: &str, b: &str) -> (r: bool)
    ensures
        r == (a@ == b@),
{
    let n = a.unicode_len();
    if n != b.unicode_len() {
        return false;
    }
    let mut i: usize = 0;
    while i < n
        invariant
            n == a@.len(),
            n == b@.len(),
            i <= n,
            forall|k: int| 0 <= k < i ==> a@[k] == b@[k],
        decreases n - i,
    {
        if a.get_char(i) != b.get_char(i) {
            return false;
        }
        i = i + 1;
    }
    assert(a@ =~= b@);
    true
}

} // verus!
