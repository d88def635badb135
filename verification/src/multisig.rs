//! The two halves of a two-party signature.
//!
//! Each side brings a public nonce and a partial public key for the
//! message that both sign. [`combine`] decides whether two halves go
//! together and, where they do, hands out what is to be summed. The sums
//! themselves are curve arithmetic and belong to the signing code.

use vstd::prelude::*;
use vstd::multiset::Multiset;
use crate::error::ErrorKind;
use crate::types::PublicKey;

verus! {

/// Length in bytes of the digest of a message.
pub const DIGEST_LEN: usize = 32;

/// One side's half.
#[derive(Debug, PartialEq, Eq)]
pub struct Half {
    /// The digest of the message that is signed.
    pub digest: Vec<u8>,
    /// This side's public nonce, once it is known.
    pub public_nonce: Option<PublicKey>,
    /// This side's partial public key, once it is known.
    pub partial_key: Option<PublicKey>,
}

/// Two halves that go together: what is to be summed.
#[derive(Debug, PartialEq, Eq)]
pub struct Pair {
    /// The digest that both halves are over.
    pub digest: Vec<u8>,
    /// The two public nonces.
    pub nonces: (PublicKey, PublicKey),
    /// The two partial public keys.
    pub keys: (PublicKey, PublicKey),
}

/// The mathematical value of a pair. A sum does not depend on the order of
/// what is summed, so the two nonces and the two keys are held without
/// order.
pub struct PairView {
    pub digest: Seq<u8>,
    pub nonces: Multiset<Seq<u8>>,
    pub keys: Multiset<Seq<u8>>,
}

impl View for Pair {
    type V = PairView;

    open spec fn view(&self) -> PairView {
        PairView {
            digest: self.digest@,
            nonces: Multiset::empty().insert(self.nonces.0@).insert(self.nonces.1@),
            keys: Multiset::empty().insert(self.keys.0@).insert(self.keys.1@),
        }
    }
}

impl Half {
    /// A half is complete when its digest has the length of a digest and
    /// its nonce and its key are there and have the length of a key.
    pub open spec fn complete(&self) -> bool {
        &&& self.digest@.len() == DIGEST_LEN
        &&& self.public_nonce matches Some(n) && n.wf()
        &&& self.partial_key matches Some(k) && k.wf()
    }

    /// Whether the half is complete.
    pub fn is_complete(&self) -> (b: bool)
        ensures
            b == self.complete(),
    {
        let nonce = match &self.public_nonce {
            Some(n) => n.is_well_formed(),
            None => false,
        };
        let key = match &self.partial_key {
            Some(k) => k.is_well_formed(),
            None => false,
        };
        self.digest.len() == DIGEST_LEN && nonce && key
    }
}

/// Whether two halves go together: both are complete and over the same
/// digest.
pub open spec fn fit(a: Half, b: Half) -> bool {
    a.complete() && b.complete() && a.digest@ == b.digest@
}

/// What is to be summed of two halves that go together.
pub open spec fn combine_spec(a: Half, b: Half) -> PairView {
    PairView {
        digest: a.digest@,
        nonces: Multiset::empty().insert(a.public_nonce->0@).insert(b.public_nonce->0@),
        keys: Multiset::empty().insert(a.partial_key->0@).insert(b.partial_key->0@),
    }
}

fn same_bytes(a: &Vec<u8>, b: &Vec<u8>) -> (r: bool)
    ensures
        r == (a@ == b@),
{
    if a.len() != b.len() {
        return false;
    }
    let mut i: usize = 0;
    while i < a.len()
        invariant
            a@.len() == b@.len(),
            i <= a@.len(),
            forall|k: int| 0 <= k < i ==> a@[k] == b@[k],
        decreases a@.len() - i,
    {
        if a[i] != b[i] {
            return false;
        }
        i = i + 1;
    }
    assert(a@ =~= b@);
    true
}

fn copy_bytes(a: &Vec<u8>) -> (r: Vec<u8>)
    ensures
        r@ == a@,
{
    let mut out: Vec<u8> = Vec::new();
    let mut i: usize = 0;
    while i < a.len()
        invariant
            i <= a@.len(),
            out@ == a@.take(i as int),
        decreases a@.len() - i,
    {
        out.push(a[i]);
        assert(a@.take(i + 1) =~= a@.take(i as int).push(a@[i as int]));
        i = i + 1;
    }
    assert(a@.take(i as int) =~= a@);
    out
}

/// Puts this side's half and the peer's together. Unless both halves are
/// complete and over the same digest, the signature is incomplete.
pub fn combine(own: &Half, peer: &Half) -> (r: Result<Pair, ErrorKind>)
    ensures
        match r {
            Ok(pair) => fit(*own, *peer) && pair@ == combine_spec(*own, *peer),
            Err(e) => !fit(*own, *peer) && e == ErrorKind::MultisigIncomplete,
        },
{
    if !own.is_complete() || !peer.is_complete() || !same_bytes(&own.digest, &peer.digest) {
        return Err(ErrorKind::MultisigIncomplete);
    }
    match (&own.public_nonce, &own.partial_key, &peer.public_nonce, &peer.partial_key) {
        (Some(own_nonce), Some(own_key), Some(peer_nonce), Some(peer_key)) => Ok(
            Pair {
                digest: copy_bytes(&own.digest),
                nonces: (
                    PublicKey { bytes: copy_bytes(&own_nonce.bytes) },
                    PublicKey { bytes: copy_bytes(&peer_nonce.bytes) },
                ),
                keys: (
                    PublicKey { bytes: copy_bytes(&own_key.bytes) },
                    PublicKey { bytes: copy_bytes(&peer_key.bytes) },
                ),
            },
        ),
        _ => Err(ErrorKind::MultisigIncomplete),
    }
}

/// Combining is commutative: the peer, putting its half and this side's
/// together, is refused where this side is, and else holds the same pair.
pub proof fn lemma_combine_commutes(a: Half, b: Half)
    ensures
        fit(a, b) == fit(b, a),
        fit(a, b) ==> combine_spec(a, b) == combine_spec(b, a),
{
    if fit(a, b) {
        let x = a.public_nonce->0@;
        let y = b.public_nonce->0@;
        assert(Multiset::empty().insert(x).insert(y) =~= Multiset::empty().insert(y).insert(x));
        let u = a.partial_key->0@;
        let v = b.partial_key->0@;
        assert(Multiset::empty().insert(u).insert(v) =~= Multiset::empty().insert(v).insert(u));
    }
}

} // verus!
