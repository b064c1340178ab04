//! The guarantees this taxonomy makes about its renderings, each stated and
//! proved over the models in [`crate::errors`].

use vstd::prelude::*;
use crate::errors::{DecodeError, DecodeErrorView, decode_text, encode_text};
use crate::render::{dec_str, occurs_in, lemma_middle_occurs, lemma_occurs_in_extension};

verus! {

/// Rendering an `InvalidMACAddress` failure mentions both the six bytes a MAC
/// address requires and the byte count actually observed.
pub proof fn mac_message_mentions_counts(received: usize)
    requires
        received != 6,
    ensures
        occurs_in(
            dec_str(6),
            decode_text((DecodeErrorView::InvalidMACAddress { received: received as nat })),
        ),
        occurs_in(
            dec_str(received as nat),
            decode_text((DecodeErrorView::InvalidMACAddress { received: received as nat })),
        ),
{
    let pre = "Invalid MAC address. Expected 6 bytes, received "@;
    let mid = dec_str(received as nat);
    let suf = " bytes"@;
    lemma_middle_occurs(pre, mid, suf);
    reveal_strlit("Invalid MAC address. Expected 6 bytes, received ");
    assert(dec_str(6) =~= seq!['6']);
    let i: int = 30;
    assert(pre.subrange(i, i + dec_str(6).len()) =~= dec_str(6));
    assert(occurs_in(dec_str(6), pre));
    lemma_occurs_in_extension(dec_str(6), pre, mid);
    lemma_occurs_in_extension(dec_str(6), pre + mid, suf);
}

/// Rendering an `InvalidIPAddress` failure mentions the two admissible sizes,
/// as the text "4 or 16", and the byte count actually observed.
pub proof fn ip_message_mentions_counts(received: usize)
    requires
        received != 4,
        received != 16,
    ensures
        occurs_in(
            "4 or 16"@,
            decode_text((DecodeErrorView::InvalidIPAddress { received: received as nat })),
        ),
        occurs_in(
            dec_str(received as nat),
            decode_text((DecodeErrorView::InvalidIPAddress { received: received as nat })),
        ),
{
    let pre = "Invalid IP address. Expected 4 or 16 bytes, received "@;
    let mid = dec_str(received as nat);
    let suf = " bytes"@;
    lemma_middle_occurs(pre, mid, suf);
    reveal_strlit("Invalid IP address. Expected 4 or 16 bytes, received ");
    reveal_strlit("4 or 16");
    let needle = "4 or 16"@;
    let i: int = 29;
    assert(pre.subrange(i, i + needle.len()) =~= needle);
    assert(occurs_in(needle, pre));
    lemma_occurs_in_extension(needle, pre, mid);
    lemma_occurs_in_extension(needle, pre + mid, suf);
}

/// Rendering an `InvalidNumber` failure mentions both the expected and the
/// received byte count, verbatim.
pub proof fn number_message_mentions_counts(expected: usize, received: usize)
    requires
        expected != received,
    ensures
        occurs_in(
            dec_str(expected as nat),
            decode_text(
                (DecodeErrorView::InvalidNumber {
                    expected: expected as nat,
                    received: received as nat,
                }),
            ),
        ),
        occurs_in(
            dec_str(received as nat),
            decode_text(
                (DecodeErrorView::InvalidNumber {
                    expected: expected as nat,
                    received: received as nat,
                }),
            ),
        ),
{
    let a = "Invalid number. Expected "@;
    let b = " bytes, received "@;
    let c = " bytes"@;
    let d1 = dec_str(expected as nat);
    let d2 = dec_str(received as nat);
    lemma_middle_occurs(a, d1, b);
    lemma_occurs_in_extension(d1, a + d1 + b, d2);
    lemma_occurs_in_extension(d1, a + d1 + b + d2, c);
    lemma_middle_occurs(a + d1 + b, d2, c);
}

/// Rendering an `InvalidBuffer` failure mentions the buffer's name, the byte
/// count actually observed, and the required minimum length.
pub proof fn buffer_message_mentions_fields(name: Seq<char>, received: usize, minimum_length: usize)
    requires
        received < minimum_length,
    ensures
        occurs_in(
            name,
            decode_text(
                (DecodeErrorView::InvalidBuffer {
                    name,
                    received: received as nat,
                    minimum_length: minimum_length as nat,
                }),
            ),
        ),
        occurs_in(
            dec_str(received as nat),
            decode_text(
                (DecodeErrorView::InvalidBuffer {
                    name,
                    received: received as nat,
                    minimum_length: minimum_length as nat,
                }),
            ),
        ),
        occurs_in(
            dec_str(minimum_length as nat),
            decode_text(
                (DecodeErrorView::InvalidBuffer {
                    name,
                    received: received as nat,
                    minimum_length: minimum_length as nat,
                }),
            ),
        ),
{
    let a = "Invalid buffer "@;
    let b = ". Expected at least "@;
    let c = " bytes, received "@;
    let d = " bytes"@;
    let dmin = dec_str(minimum_length as nat);
    let drec = dec_str(received as nat);
    lemma_middle_occurs(a, name, b);
    lemma_occurs_in_extension(name, a + name + b, dmin);
    lemma_occurs_in_extension(name, a + name + b + dmin, c);
    lemma_occurs_in_extension(name, a + name + b + dmin + c, drec);
    lemma_occurs_in_extension(name, a + name + b + dmin + c + drec, d);
    lemma_middle_occurs(a + name + b, dmin, c);
    lemma_occurs_in_extension(dmin, a + name + b + dmin + c, drec);
    lemma_occurs_in_extension(dmin, a + name + b + dmin + c + drec, d);
    lemma_middle_occurs(a + name + b + dmin + c, drec, d);
}

/// A nested-attribute failure is forwarded transparently: the `Nla` variant
/// renders exactly the wrapped failure's own text, adding nothing.
pub proof fn nla_rendering_is_transparent(message: Seq<char>)
    ensures
        decode_text((DecodeErrorView::Nla { message })) == message,
{
}

/// A UTF-8 conversion failure renders as the fixed text "Invalid string",
/// whatever bytes caused it.
pub proof fn utf8_rendering_is_fixed()
    ensures
        decode_text(DecodeErrorView::Utf8Error) == "Invalid string"@,
{
}

/// A text message folded into either taxonomy renders unmodified: exactly the
/// text itself for an opaque decode failure, and the text behind the fixed
/// "Encode error occurred: " prefix for an encode failure.
pub proof fn text_conversion_round_trip(message: Seq<char>)
    ensures
        decode_text((DecodeErrorView::Other { message })) == message,
        encode_text(message) == "Encode error occurred: "@ + message,
{
}

/// Constructing any structured variant and reading it back yields exactly the
/// values supplied: the model keeps every field unchanged.
pub proof fn structured_fields_round_trip(
    mac_received: usize,
    ip_received: usize,
    expected: usize,
    received: usize,
    name: &'static str,
    buf_received: usize,
    minimum_length: usize,
)
    ensures
        (DecodeError::InvalidMACAddress { received: mac_received })@ == (
        DecodeErrorView::InvalidMACAddress { received: mac_received as nat }),
        (DecodeError::InvalidIPAddress { received: ip_received })@ == (
        DecodeErrorView::InvalidIPAddress { received: ip_received as nat }),
        (DecodeError::InvalidNumber { expected, received })@ == (DecodeErrorView::InvalidNumber {
            expected: expected as nat,
            received: received as nat,
        }),
        (DecodeError::InvalidBuffer { name, received: buf_received, minimum_length })@ == (
        DecodeErrorView::InvalidBuffer {
            name: name@,
            received: buf_received as nat,
            minimum_length: minimum_length as nat,
        }),
{
}

} // verus!
