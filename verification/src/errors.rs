//! The two error taxonomies of the codec: a structured [`DecodeError`] for
//! failures while parsing untrusted bytes, and an opaque [`EncodeError`]
//! carrier for serialization failures.
//!
//! Every error renders to a deterministic message through [`DecodeError::message`]
//! and [`EncodeError::message`]; the exact character sequence of each rendering
//! is given by the spec functions [`decode_text`] and [`encode_text`].

use vstd::prelude::*;
use vstd::string::StringExecFns;
use crate::render::{dec_str, push_dec};

verus! {

/// Relies on `std::string::FromUtf8Error`: an ordinary owned error value
/// produced by `String::from_utf8`. It is carried opaquely and never
/// inspected here.
#[verifier::external_type_specification]
#[verifier::external_body]
pub struct ExFromUtf8Error(std::string::FromUtf8Error);

/// A failure reported by the nested-attribute (NLA) decoding layer.
///
/// The layer itself is outside this crate; all this taxonomy requires of its
/// error is the describable-failure capability: a rendered message.
#[derive(Debug)]
pub struct NlaError {
    pub message: String,
}

impl View for NlaError {
    type V = Seq<char>;

    open spec fn view(&self) -> Seq<char> {
        self.message@
    }
}

impl NlaError {
    /// Wraps an already-rendered nested-attribute failure message.
    pub fn new(message: String) -> (r: Self)
        ensures
            r@ == message@,
    {
        NlaError { message }
    }

    /// The nested-attribute failure's own rendered message.
    pub fn message(&self) -> (r: String)
        ensures
            r@ == self@,
    {
        self.message.clone()
    }
}

/// An error while serializing a message: a single opaque carrier.
///
/// Encoding failures are rare and contextual, so no caller needs to match on
/// why one happened; one flexible wrapped cause suffices.
#[derive(Debug)]
#[non_exhaustive]
pub enum EncodeError {
    Other(String),
}

impl View for EncodeError {
    type V = Seq<char>;

    open spec fn view(&self) -> Seq<char> {
        match self {
            EncodeError::Other(message) => message@,
        }
    }
}

/// An error while parsing untrusted input: a closed set of structured
/// variants, plus an opaque fallback.
///
/// Every variant except `Other` carries machine-inspectable counts or
/// identifiers sufficient to reconstruct a precise diagnostic without
/// re-parsing the input. The opaque fallback holds only an owned rendered
/// message, so the whole type can always cross thread boundaries.
#[derive(Debug)]
#[non_exhaustive]
pub enum DecodeError {
    /// The byte slice for a MAC address was not exactly 6 bytes.
    InvalidMACAddress { received: usize },
    /// The byte slice for an IP address was not 4 or 16 bytes.
    InvalidIPAddress { received: usize },
    /// A byte slice was not valid UTF-8 text.
    Utf8Error(std::string::FromUtf8Error),
    /// A fixed-width integer field had the wrong byte length.
    InvalidNumber { expected: usize, received: usize },
    /// A named buffer was shorter than required.
    InvalidBuffer { name: &'static str, received: usize, minimum_length: usize },
    /// The failure originated in the nested-attribute decoding layer.
    Nla(NlaError),
    /// A failure not otherwise classified, reduced to its rendered message.
    Other(String),
}

/// The mathematical model of a `DecodeError`: each variant with the plain
/// values its contracts speak of.
#[verifier::ext_equal]
pub enum DecodeErrorView {
    InvalidMACAddress { received: nat },
    InvalidIPAddress { received: nat },
    Utf8Error,
    InvalidNumber { expected: nat, received: nat },
    InvalidBuffer { name: Seq<char>, received: nat, minimum_length: nat },
    Nla { message: Seq<char> },
    Other { message: Seq<char> },
}

impl View for DecodeError {
    type V = DecodeErrorView;

    open spec fn view(&self) -> DecodeErrorView {
        match self {
            DecodeError::InvalidMACAddress { received } => (DecodeErrorView::InvalidMACAddress {
                received: *received as nat,
            }),
            DecodeError::InvalidIPAddress { received } => (DecodeErrorView::InvalidIPAddress {
                received: *received as nat,
            }),
            DecodeError::Utf8Error(_) => DecodeErrorView::Utf8Error,
            DecodeError::InvalidNumber { expected, received } => (DecodeErrorView::InvalidNumber {
                expected: *expected as nat,
                received: *received as nat,
            }),
            DecodeError::InvalidBuffer { name, received, minimum_length } => (
            DecodeErrorView::InvalidBuffer {
                name: name@,
                received: *received as nat,
                minimum_length: *minimum_length as nat,
            }),
            DecodeError::Nla(cause) => (DecodeErrorView::Nla { message: cause@ }),
            DecodeError::Other(message) => (DecodeErrorView::Other { message: message@ }),
        }
    }
}

/// The exact rendering of each decode failure.
///
/// The four structural variants embed their observed counts inline; the
/// wrapped causes of `Nla` and `Other` are forwarded transparently, and a
/// UTF-8 failure renders as a fixed text with no embedded bytes.
pub open spec fn decode_text(v: DecodeErrorView) -> Seq<char> {
    match v {
        DecodeErrorView::InvalidMACAddress { received } => "Invalid MAC address. Expected 6 bytes, received "@
            + dec_str(received) + " bytes"@,
        DecodeErrorView::InvalidIPAddress { received } => "Invalid IP address. Expected 4 or 16 bytes, received "@
            + dec_str(received) + " bytes"@,
        DecodeErrorView::Utf8Error => "Invalid string"@,
        DecodeErrorView::InvalidNumber { expected, received } => "Invalid number. Expected "@
            + dec_str(expected) + " bytes, received "@ + dec_str(received) + " bytes"@,
        DecodeErrorView::InvalidBuffer { name, received, minimum_length } => "Invalid buffer "@
            + name + ". Expected at least "@ + dec_str(minimum_length) + " bytes, received "@
            + dec_str(received) + " bytes"@,
        DecodeErrorView::Nla { message } => message,
        DecodeErrorView::Other { message } => message,
    }
}

/// The exact rendering of an encode failure: a fixed prefix, then the wrapped
/// cause's own rendering.
pub open spec fn encode_text(message: Seq<char>) -> Seq<char> {
    "Encode error occurred: "@ + message
}

impl DecodeError {
    /// Renders this failure as a deterministic, human-readable message.
    pub fn message(&self) -> (r: String)
        ensures
            r@ == decode_text(self@),
    {
        match self {
            DecodeError::InvalidMACAddress { received } => {
                let mut s = String::from_str("Invalid MAC address. Expected 6 bytes, received ");
                push_dec(&mut s, *received);
                let r = s.concat(" bytes");
                proof {
                    assert(r@ =~= decode_text(self@));
                }
                r
            },
            DecodeError::InvalidIPAddress { received } => {
                let mut s = String::from_str(
                    "Invalid IP address. Expected 4 or 16 bytes, received ",
                );
                push_dec(&mut s, *received);
                let r = s.concat(" bytes");
                proof {
                    assert(r@ =~= decode_text(self@));
                }
                r
            },
            DecodeError::Utf8Error(_) => String::from_str("Invalid string"),
            DecodeError::InvalidNumber { expected, received } => {
                let mut s = String::from_str("Invalid number. Expected ");
                push_dec(&mut s, *expected);
                s.append(" bytes, received ");
                push_dec(&mut s, *received);
                let r = s.concat(" bytes");
                proof {
                    assert(r@ =~= decode_text(self@));
                }
                r
            },
            DecodeError::InvalidBuffer { name, received, minimum_length } => {
                let mut s = String::from_str("Invalid buffer ");
                s.append(name);
                s.append(". Expected at least ");
                push_dec(&mut s, *minimum_length);
                s.append(" bytes, received ");
                push_dec(&mut s, *received);
                let r = s.concat(" bytes");
                proof {
                    assert(r@ =~= decode_text(self@));
                }
                r
            },
            DecodeError::Nla(cause) => cause.message(),
            DecodeError::Other(message) => message.clone(),
        }
    }

    /// Classifies a borrowed text message as an opaque decode failure.
    pub fn from_message(msg: &str) -> (r: Self)
        ensures
            r@ == (DecodeErrorView::Other { message: msg@ }),
    {
        DecodeError::Other(msg.to_owned())
    }

    /// Classifies an owned text message as an opaque decode failure.
    pub fn from_owned_message(msg: String) -> (r: Self)
        ensures
            r@ == (DecodeErrorView::Other { message: msg@ }),
    {
        DecodeError::Other(msg)
    }

    /// Wraps a nested-attribute-layer failure, preserving it unchanged.
    pub fn from_nla(cause: NlaError) -> (r: Self)
        ensures
            r@ == (DecodeErrorView::Nla { message: cause@ }),
    {
        DecodeError::Nla(cause)
    }

    /// Wraps a UTF-8 conversion failure, keeping the cause reachable.
    pub fn from_utf8(cause: std::string::FromUtf8Error) -> (r: Self)
        ensures
            r@ == DecodeErrorView::Utf8Error,
    {
        DecodeError::Utf8Error(cause)
    }
}

impl EncodeError {
    /// Renders this failure: the fixed prefix, then the wrapped cause's text.
    pub fn message(&self) -> (r: String)
        ensures
            r@ == encode_text(self@),
    {
        match self {
            EncodeError::Other(message) => {
                let r = String::from_str("Encode error occurred: ").concat(message.as_str());
                proof {
                    assert(r@ =~= encode_text(self@));
                }
                r
            },
        }
    }

    /// Classifies a borrowed text message as an encode failure.
    pub fn from_message(msg: &str) -> (r: Self)
        ensures
            r@ == msg@,
    {
        EncodeError::Other(msg.to_owned())
    }

    /// Classifies an owned text message as an encode failure.
    pub fn from_owned_message(msg: String) -> (r: Self)
        ensures
            r@ == msg@,
    {
        EncodeError::Other(msg)
    }
}

} // verus!
