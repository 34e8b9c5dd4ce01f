//! Small operations on text.

use vstd::prelude::*;
use vstd::string::*;
use vstd::utf8::{decode_utf8, encode_utf8, is_char_boundary};

verus! {

/// Whether `c` is white space as `char::is_whitespace` tells it: whether it
/// has the Unicode property `White_Space`.
pub uninterp spec fn is_whitespace(c: char) -> bool;

/// `text` without the white space it begins with.
pub open spec fn trim_start(text: Seq<char>) -> Seq<char>
    decreases text.len(),
{
    if text.len() > 0 && is_whitespace(text[0]) {
        trim_start(text.drop_first())
    } else {
        text
    }
}

/// `text` without the white space it ends with.
pub open spec fn trim_end(text: Seq<char>) -> Seq<char>
    decreases text.len(),
{
    if text.len() > 0 && is_whitespace(text.last()) {
        trim_end(text.drop_last())
    } else {
        text
    }
}

/// `text` without the white space at either end.
pub open spec fn trimmed(text: Seq<char>) -> Seq<char> {
    trim_end(trim_start(text))
}

/// `str::trim`. Trusted: the slice that is left when leading and trailing
/// white space is removed, so that what is left neither begins nor ends with
/// white space.
#[verifier::external_body]
pub(crate) fn trim<'a>(text: &'a str) -> (r: &'a str)
    ensures
        r@ == trimmed(text@),
        r@.len() > 0 ==> !is_whitespace(r@.first()) && !is_whitespace(r@.last()),
{
    text.trim()
}

/// How many bytes of a commit hash are shown.
pub const SHORT_SHA_BYTES: usize = 8;

/// The short form of a commit hash: the text that its first eight bytes
/// spell, or all of it where it has fewer.
pub open spec fn short_sha_of(sha: Seq<char>) -> Seq<char> {
    if encode_utf8(sha).len() >= SHORT_SHA_BYTES {
        decode_utf8(encode_utf8(sha).subrange(0, SHORT_SHA_BYTES as int))
    } else {
        sha
    }
}

/// Whether a hash can be shortened: it is short already, or its eighth byte
/// ends a character.
pub open spec fn can_shorten(sha: Seq<char>) -> bool {
    encode_utf8(sha).len() >= SHORT_SHA_BYTES ==> is_char_boundary(
        encode_utf8(sha),
        SHORT_SHA_BYTES as int,
    )
}

/// Whether a hash can be shortened.
pub fn can_be_shortened(sha: &str) -> (ok: bool)
    ensures
        ok == can_shorten(sha@),
{
    sha.as_bytes().len() < SHORT_SHA_BYTES || sha.is_char_boundary(SHORT_SHA_BYTES)
}

/// The short form of a commit hash, for display.
pub fn short_sha(sha: &str) -> (short: String)
    requires
        can_shorten(sha@),
    ensures
        short@ == short_sha_of(sha@),
{
    if sha.as_bytes().len() >= SHORT_SHA_BYTES {
        let (head, _) = sha.split_at(SHORT_SHA_BYTES);
        proof {
            vstd::utf8::encode_utf8_decode_utf8(head@);
            assert(head.spec_bytes() == encode_utf8(sha@).subrange(0, SHORT_SHA_BYTES as int));
        }
        head.to_owned()
    } else {
        sha.to_owned()
    }
}

/// The short form of a hash is where the hash begins, and it spells no more
/// than eight bytes.
pub proof fn law_short_sha_is_a_prefix(sha: Seq<char>)
    requires
        can_shorten(sha),
    ensures
        short_sha_of(sha).is_prefix_of(sha),
        encode_utf8(short_sha_of(sha)).len() <= SHORT_SHA_BYTES,
        encode_utf8(sha).len() >= SHORT_SHA_BYTES ==> encode_utf8(short_sha_of(sha)).len()
            == SHORT_SHA_BYTES,
{
    let bytes = encode_utf8(sha);
    vstd::utf8::encode_utf8_valid_utf8(sha);
    vstd::utf8::encode_utf8_decode_utf8(sha);
    if bytes.len() >= SHORT_SHA_BYTES {
        let cut = SHORT_SHA_BYTES as int;
        let head = bytes.subrange(0, cut);
        vstd::utf8::decode_utf8_split(bytes, cut);
        vstd::utf8::valid_utf8_split(bytes, cut);
        vstd::utf8::decode_utf8_encode_utf8(head);
        let tail = decode_utf8(bytes.subrange(cut, bytes.len() as int));
        assert(sha =~= decode_utf8(head) + tail);
        assert(decode_utf8(head) =~= sha.subrange(0, decode_utf8(head).len() as int));
    }
}

/// A hash of ASCII characters, as every hexadecimal hash is, can always be
/// shortened, and its short form is its first eight characters.
pub proof fn law_short_sha_of_ascii(sha: Seq<char>)
    requires
        vstd::utf8::is_ascii_chars(sha),
    ensures
        can_shorten(sha),
        short_sha_of(sha) == if sha.len() >= SHORT_SHA_BYTES {
            sha.subrange(0, SHORT_SHA_BYTES as int)
        } else {
            sha
        },
{
    let bytes = encode_utf8(sha);
    vstd::utf8::is_ascii_chars_encode_utf8(sha);
    vstd::utf8::encode_utf8_valid_utf8(sha);
    if sha.len() >= SHORT_SHA_BYTES {
        let cut = SHORT_SHA_BYTES as int;
        let head = sha.subrange(0, cut);
        vstd::utf8::is_ascii_chars_encode_utf8(head);
        vstd::utf8::encode_utf8_decode_utf8(head);
        assert(encode_utf8(head) =~= bytes.subrange(0, cut));
        if bytes.len() == cut {
            vstd::utf8::is_char_boundary_start_end_of_seq(bytes);
        } else {
            vstd::utf8::is_char_boundary_iff_not_is_continuation_byte(bytes, cut);
            let b = bytes[cut];
            assert(b == sha[cut] as u8);
            assert(b < 128);
            assert(!vstd::utf8::is_continuation_byte(b)) by (bit_vector)
                requires
                    b < 128,
            ;
        }
    }
}

/// A token counts for nothing exactly when it is white space throughout.
pub proof fn law_blank_text_trims_to_nothing(text: Seq<char>)
    ensures
        trimmed(text).len() == 0 <==> forall|i: int|
            0 <= i < text.len() ==> is_whitespace(#[trigger] text[i]),
{
    lemma_trim_start(text);
    let rest = trim_start(text);
    lemma_trim_end(rest);
    if trimmed(text).len() == 0 {
        assert forall|i: int| 0 <= i < text.len() implies is_whitespace(#[trigger] text[i]) by {
            let k = text.len() - rest.len();
            if i >= k {
                assert(text[i] == rest[i - k]);
            }
        }
    } else {
        let k = text.len() - rest.len();
        assert(rest.len() > 0);
        assert(!is_whitespace(rest[0]));
        assert(text[k] == rest[0]);
    }
}

/// What `trim_start` leaves is the end of the text; all before it is white
/// space, and it does not begin with white space.
proof fn lemma_trim_start(text: Seq<char>)
    ensures
        trim_start(text).len() <= text.len(),
        trim_start(text) == text.subrange(
            text.len() - trim_start(text).len(),
            text.len() as int,
        ),
        forall|i: int|
            0 <= i < text.len() - trim_start(text).len() ==> is_whitespace(#[trigger] text[i]),
        trim_start(text).len() > 0 ==> !is_whitespace(trim_start(text)[0]),
    decreases text.len(),
{
    if text.len() > 0 && is_whitespace(text[0]) {
        let tail = text.drop_first();
        lemma_trim_start(tail);
        let k = tail.len() - trim_start(tail).len();
        assert(trim_start(tail) =~= text.subrange(k + 1, text.len() as int));
        assert forall|i: int| 0 <= i < k + 1 implies is_whitespace(#[trigger] text[i]) by {
            if i > 0 {
                assert(text[i] == tail[i - 1]);
            }
        }
    } else {
        assert(text =~= text.subrange(0, text.len() as int));
    }
}

/// What `trim_end` leaves is the beginning of the text; all after it is
/// white space.
proof fn lemma_trim_end(text: Seq<char>)
    ensures
        trim_end(text).len() <= text.len(),
        trim_end(text) == text.subrange(0, trim_end(text).len() as int),
        forall|i: int|
            trim_end(text).len() <= i < text.len() ==> is_whitespace(#[trigger] text[i]),
        trim_end(text).len() > 0 ==> !is_whitespace(trim_end(text).last()),
    decreases text.len(),
{
    if text.len() > 0 && is_whitespace(text.last()) {
        let init = text.drop_last();
        lemma_trim_end(init);
        assert(trim_end(init) =~= text.subrange(0, trim_end(init).len() as int));
        assert forall|i: int| trim_end(text).len() <= i < text.len() implies is_whitespace(
            #[trigger] text[i],
        ) by {
            if i < text.len() - 1 {
                assert(text[i] == init[i]);
            }
        }
    } else {
        assert(text =~= text.subrange(0, text.len() as int));
    }
}

} // verus!
