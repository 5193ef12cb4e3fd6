//! Comparison of captured bytes with an expected text.
//!
//! Captured bytes are text only where they are valid UTF-8. The comparison
//! is exact: nothing is trimmed and no line ending is normalised.

use crate::bytes::{occurs_at, occurs_in, same_bytes};
use crate::failure::{outcome, Failure, FailureModel};
use vstd::prelude::*;
use vstd::utf8::{
    char_u32_cast, decode_first_scalar, decode_utf8, decode_utf8_encode_utf8, decode_utf8_split,
    encode_scalar, encode_utf8, encode_utf8_decode_utf8, encode_utf8_first_scalar,
    encode_utf8_valid_utf8, is_char_boundary, is_char_boundary_iff_not_is_continuation_byte,
    length_of_first_scalar, valid_utf8, valid_utf8_split,
};

verus! {

/// Reads bytes as text. This is `core::str::from_utf8`, which accepts
/// exactly the byte strings that are valid UTF-8 and hands back the same
/// bytes as a string slice; so the text is the one that those bytes encode.
#[verifier::external_body]
pub(crate) fn decode(bytes: &[u8]) -> (text: Option<&str>)
    ensures
        text.is_some() <==> valid_utf8(bytes@),
        text matches Some(s) ==> s@ == decode_utf8(bytes@),
{
    match core::str::from_utf8(bytes) {
        Ok(s) => Some(s),
        Err(_) => None,
    }
}

/// The judgement on bytes that are expected to be the text `expected`.
pub open spec fn text_verdict(bytes: Seq<u8>, expected: Seq<char>) -> Result<(), FailureModel> {
    if !valid_utf8(bytes) {
        Err(FailureModel::Encoding)
    } else if decode_utf8(bytes) == expected {
        Ok(())
    } else {
        Err(FailureModel::Assertion { actual: Some(decode_utf8(bytes)), expected })
    }
}

/// Checks that `bytes` are the text `expected`, character for character.
/// Bytes that are no text at all are reported as such, not as a mismatch; a
/// mismatch carries both texts.
pub fn expect_text(bytes: &[u8], expected: &str) -> (result: Result<(), Failure>)
    ensures
        outcome(result) == text_verdict(bytes@, expected@),
{
    match decode(bytes) {
        None => Err(Failure::Encoding),
        Some(actual) => {
            proof {
                lemma_same_text_same_bytes(bytes@, expected@);
            }
            if same_bytes(bytes, expected.as_bytes()) {
                Ok(())
            } else {
                Err(Failure::Assertion { actual: Some(actual.to_owned()), expected: expected.to_owned() })
            }
        },
    }
}

/// The comparison succeeds exactly when the bytes are text and that text is
/// the expected one, whole and unchanged.
pub proof fn lemma_text_passes_iff_same_text(bytes: Seq<u8>, expected: Seq<char>)
    ensures
        text_verdict(bytes, expected).is_ok() <==> valid_utf8(bytes) && decode_utf8(bytes)
            == expected,
{
}

/// Valid bytes decode to a text exactly when they are its encoding.
pub proof fn lemma_same_text_same_bytes(bytes: Seq<u8>, text: Seq<char>)
    requires
        valid_utf8(bytes),
    ensures
        decode_utf8(bytes) == text <==> bytes == encode_utf8(text),
{
    decode_utf8_encode_utf8(bytes);
    encode_utf8_decode_utf8(text);
}

/// The comparison succeeds exactly on the bytes that encode the expected
/// text: equality is byte for byte.
pub proof fn lemma_text_passes_iff_encoding(bytes: Seq<u8>, expected: Seq<char>)
    ensures
        text_verdict(bytes, expected).is_ok() <==> bytes == encode_utf8(expected),
{
    encode_utf8_valid_utf8(expected);
    if valid_utf8(bytes) {
        lemma_same_text_same_bytes(bytes, expected);
    }
}

/// A text, once written out as bytes, compares equal to itself.
pub proof fn lemma_written_text_passes(text: Seq<char>)
    ensures
        text_verdict(encode_utf8(text), text) == Ok::<(), FailureModel>(()),
{
    lemma_text_passes_iff_encoding(encode_utf8(text), text);
}

/// The encoding of two texts joined is their encodings joined.
pub proof fn lemma_encoding_of_joined(first: Seq<char>, second: Seq<char>)
    ensures
        encode_utf8(first + second) == encode_utf8(first) + encode_utf8(second),
    decreases first.len(),
{
    if first.len() == 0 {
        assert(first + second =~= second);
        assert(encode_utf8(first) + encode_utf8(second) =~= encode_utf8(second));
    } else {
        assert((first + second).drop_first() =~= first.drop_first() + second);
        lemma_encoding_of_joined(first.drop_first(), second);
        assert(encode_utf8(first + second) =~= encode_utf8(first) + encode_utf8(second));
    }
}

/// A text begins with another exactly when its encoding begins with the
/// encoding of the other: a comparison of bytes decides a comparison of
/// characters.
pub proof fn lemma_encoding_keeps_prefixes(prefix: Seq<char>, text: Seq<char>)
    ensures
        prefix.is_prefix_of(text) <==> encode_utf8(prefix).is_prefix_of(encode_utf8(text)),
    decreases prefix.len(),
{
    let p = encode_utf8(prefix);
    let t = encode_utf8(text);
    if prefix.is_prefix_of(text) {
        let rest = text.subrange(prefix.len() as int, text.len() as int);
        assert(text =~= prefix + rest);
        lemma_encoding_of_joined(prefix, rest);
        assert(p =~= t.subrange(0, p.len() as int));
    }
    if p.is_prefix_of(t) {
        if prefix.len() == 0 {
            assert(prefix =~= text.subrange(0, 0));
        } else {
            let head = encode_scalar(prefix[0] as u32);
            let p_rest = encode_utf8(prefix.drop_first());
            encode_utf8_first_scalar(prefix);
            assert(p == head + p_rest);
            assert(p.len() == head.len() + p_rest.len());
            assert(head.len() >= 1);
            assert(text.len() > 0);
            encode_utf8_first_scalar(text);
            let t_rest = encode_utf8(text.drop_first());
            assert(t == encode_scalar(text[0] as u32) + t_rest);
            assert forall|j: int| 0 <= j < p.len() implies p[j] == t[j] by {
                assert(p[j] == t.subrange(0, p.len() as int)[j]);
            }
            assert(length_of_first_scalar(p) == length_of_first_scalar(t));
            assert(decode_first_scalar(p) == decode_first_scalar(t));
            char_u32_cast(prefix[0], decode_first_scalar(p));
            char_u32_cast(text[0], decode_first_scalar(t));
            assert(prefix[0] == text[0]);
            assert(p_rest =~= t_rest.subrange(0, p_rest.len() as int)) by {
                assert forall|j: int| 0 <= j < p_rest.len() implies p_rest[j] == t_rest[j] by {
                    assert(p_rest[j] == p[head.len() + j]);
                    assert(t_rest[j] == t[head.len() + j]);
                }
            }
            lemma_encoding_keeps_prefixes(prefix.drop_first(), text.drop_first());
            assert(prefix =~= text.subrange(0, prefix.len() as int)) by {
                assert forall|j: int| 0 <= j < prefix.len() implies prefix[j] == text[j] by {
                    if j > 0 {
                        assert(prefix.drop_first()[j - 1] == text.drop_first().subrange(
                            0,
                            prefix.len() - 1,
                        )[j - 1]);
                    }
                }
            }
        }
    }
}

/// Whether the text `marker` stands somewhere in `text`.
pub open spec fn text_occurs_in(text: Seq<char>, marker: Seq<char>) -> bool {
    exists|at: int|
        0 <= at && at + marker.len() <= text.len() && #[trigger] text.subrange(
            at,
            at + marker.len(),
        ) == marker
}

/// On bytes that are text, a search for the bytes of a marker finds what a
/// search for the marker in the text would find: a match never begins or
/// ends inside a character.
pub proof fn lemma_marker_in_bytes_is_marker_in_text(bytes: Seq<u8>, marker: Seq<char>)
    requires
        valid_utf8(bytes),
    ensures
        occurs_in(bytes, encode_utf8(marker)) <==> text_occurs_in(decode_utf8(bytes), marker),
{
    let text = decode_utf8(bytes);
    let needle = encode_utf8(marker);
    decode_utf8_encode_utf8(bytes);
    if text_occurs_in(text, marker) {
        let at = choose|at: int|
            0 <= at && at + marker.len() <= text.len() && #[trigger] text.subrange(
                at,
                at + marker.len(),
            ) == marker;
        let before = text.subrange(0, at);
        let after = text.subrange(at + marker.len(), text.len() as int);
        assert(text =~= before + marker + after);
        lemma_encoding_of_joined(before + marker, after);
        lemma_encoding_of_joined(before, marker);
        let start = encode_utf8(before).len() as int;
        assert(bytes.subrange(start, start + needle.len()) =~= needle);
        assert(occurs_at(bytes, needle, start));
    }
    if occurs_in(bytes, needle) {
        let at = choose|at: int| occurs_at(bytes, needle, at);
        if marker.len() == 0 {
            assert(text.subrange(0, 0) =~= marker);
        } else {
            encode_utf8_first_scalar(marker);
            assert(needle.len() >= 1);
            assert(bytes[at] == bytes.subrange(at, at + needle.len())[0]);
            is_char_boundary_iff_not_is_continuation_byte(bytes, at);
            assert(is_char_boundary(bytes, at));
            valid_utf8_split(bytes, at);
            decode_utf8_split(bytes, at);
            let head = bytes.subrange(0, at);
            let tail = bytes.subrange(at, bytes.len() as int);
            decode_utf8_encode_utf8(tail);
            assert(needle =~= tail.subrange(0, needle.len() as int));
            lemma_encoding_keeps_prefixes(marker, decode_utf8(tail));
            let start = decode_utf8(head).len() as int;
            assert(text.subrange(start, start + marker.len()) =~= decode_utf8(tail).subrange(
                0,
                marker.len() as int,
            ));
        }
    }
}

} // verus!
