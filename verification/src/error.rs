//! Failures of the swap core and of the operator commands.

use vstd::prelude::*;

verus! {

/// Failures of the swap core.
#[derive(Debug, PartialEq, Eq)]
pub enum ErrorKind {
    /// Malformed input; nothing was changed.
    InvalidArgument(String),
    /// A protocol message that the current state and role do not expect.
    UnexpectedMessageType(String),
    /// A secondary update that does not fit the trade's currency.
    UnexpectedCoinType,
    /// A secondary address that is malformed or belongs to another network.
    InvalidSecondaryAddress(String),
    /// A message that could not be written as, or read from, JSON.
    Serde(String),
    /// An adaptor signature, multisig or script check that failed.
    CryptoFailure(String),
    /// A two-party signature of which a half is missing or does not fit.
    MultisigIncomplete,
    /// A message that could not be delivered.
    TransportFailure(String),
    /// A node of either chain that could not be reached.
    ChainFailure(String),
    /// A deadline that has passed.
    Timeout,
    /// A write against a record that has changed in the meantime.
    StateConflict,
    /// An adjustment to a state outside the allowed set.
    InvalidAdjust,
    /// A broken invariant; the trade is frozen.
    Fatal(String),
}

/// How a failure is handled once it has been observed.
#[derive(Clone, Copy, Debug, PartialEq, Eq, Structural)]
pub enum Handling {
    /// Tried again by the driver after a pause.
    Retry,
    /// Reported to the operator at once.
    Surface,
    /// Moves the trade onto its cancel or refund branch.
    Branch,
    /// Freezes the trade for the operator.
    Freeze,
}

impl ErrorKind {
    /// How a failure of this kind is handled.
    pub open spec fn handling_spec(&self) -> Handling {
        match self {
            ErrorKind::TransportFailure(_) | ErrorKind::ChainFailure(_) | ErrorKind::StateConflict =>
                Handling::Retry,
            ErrorKind::CryptoFailure(_) | ErrorKind::MultisigIncomplete | ErrorKind::Timeout =>
                Handling::Branch,
            ErrorKind::Fatal(_) => Handling::Freeze,
            _ => Handling::Surface,
        }
    }

    /// How a failure of this kind is handled: transport, chain and conflict
    /// failures are retried, crypto failures and timeouts drive a protocol
    /// branch, a fatal one freezes the trade, the others go to the operator.
    pub fn handling(&self) -> (h: Handling)
        ensures
            h == self.handling_spec(),
    {
        match self {
            ErrorKind::TransportFailure(_) => Handling::Retry,
            ErrorKind::ChainFailure(_) => Handling::Retry,
            ErrorKind::StateConflict => Handling::Retry,
            ErrorKind::CryptoFailure(_) => Handling::Branch,
            ErrorKind::MultisigIncomplete => Handling::Branch,
            ErrorKind::Timeout => Handling::Branch,
            ErrorKind::Fatal(_) => Handling::Freeze,
            _ => Handling::Surface,
        }
    }

    /// The name of the kind of failure.
    pub open spec fn kind_spec(&self) -> Seq<char> {
        match self {
            ErrorKind::InvalidArgument(_) => "InvalidArgument"@,
            ErrorKind::UnexpectedMessageType(_) => "UnexpectedMessageType"@,
            ErrorKind::UnexpectedCoinType => "UnexpectedCoinType"@,
            ErrorKind::InvalidSecondaryAddress(_) => "InvalidSecondaryAddress"@,
            ErrorKind::Serde(_) => "Serde"@,
            ErrorKind::CryptoFailure(_) => "CryptoFailure"@,
            ErrorKind::MultisigIncomplete => "MultisigIncomplete"@,
            ErrorKind::TransportFailure(_) => "TransportFailure"@,
            ErrorKind::ChainFailure(_) => "ChainFailure"@,
            ErrorKind::Timeout => "Timeout"@,
            ErrorKind::StateConflict => "StateConflict"@,
            ErrorKind::InvalidAdjust => "InvalidAdjust"@,
            ErrorKind::Fatal(_) => "Fatal"@,
        }
    }

    /// The sentence that the failure carries; empty where it carries none.
    pub open spec fn sentence_spec(&self) -> Seq<char> {
        match self {
            ErrorKind::InvalidArgument(m) | ErrorKind::UnexpectedMessageType(m)
            | ErrorKind::InvalidSecondaryAddress(m) | ErrorKind::Serde(m)
            | ErrorKind::CryptoFailure(m) | ErrorKind::TransportFailure(m)
            | ErrorKind::ChainFailure(m) | ErrorKind::Fatal(m) => m@,
            _ => Seq::empty(),
        }
    }

    /// The name of the kind of failure.
    pub fn kind(&self) -> (s: &'static str)
        ensures
            s@ == self.kind_spec(),
    {
        match self {
            ErrorKind::InvalidArgument(_) => "InvalidArgument",
            ErrorKind::UnexpectedMessageType(_) => "UnexpectedMessageType",
            ErrorKind::UnexpectedCoinType => "UnexpectedCoinType",
            ErrorKind::InvalidSecondaryAddress(_) => "InvalidSecondaryAddress",
            ErrorKind::Serde(_) => "Serde",
            ErrorKind::CryptoFailure(_) => "CryptoFailure",
            ErrorKind::MultisigIncomplete => "MultisigIncomplete",
            ErrorKind::TransportFailure(_) => "TransportFailure",
            ErrorKind::ChainFailure(_) => "ChainFailure",
            ErrorKind::Timeout => "Timeout",
            ErrorKind::StateConflict => "StateConflict",
            ErrorKind::InvalidAdjust => "InvalidAdjust",
            ErrorKind::Fatal(_) => "Fatal",
        }
    }

    /// The failure as a line for the operator: its kind, then its sentence
    /// where it carries one.
    pub fn describe(&self) -> (s: String)
        ensures
            s@ == (if self.sentence_spec().len() == 0 {
                self.kind_spec()
            } else {
                self.kind_spec() + ": "@ + self.sentence_spec()
            }),
    {
        let kind = String::from_str(self.kind());
        let sentence = match self {
            ErrorKind::InvalidArgument(m) => m.as_str(),
            ErrorKind::UnexpectedMessageType(m) => m.as_str(),
            ErrorKind::InvalidSecondaryAddress(m) => m.as_str(),
            ErrorKind::Serde(m) => m.as_str(),
            ErrorKind::CryptoFailure(m) => m.as_str(),
            ErrorKind::TransportFailure(m) => m.as_str(),
            ErrorKind::ChainFailure(m) => m.as_str(),
            ErrorKind::Fatal(m) => m.as_str(),
            _ => "",
        };
        proof {
            reveal_strlit("");
        }
        if sentence.unicode_len() == 0 {
            kind
        } else {
            kind.concat(": ").concat(sentence)
        }
    }

    /// Whether a failure of this kind may advance the trade's state: only
    /// those that drive a protocol branch do.
    pub fn advances_state(&self) -> (b: bool)
        ensures
            b == (self.handling_spec() == Handling::Branch),
    {
        match self.handling() {
            Handling::Branch => true,
            _ => false,
        }
    }
}

} // verus!
