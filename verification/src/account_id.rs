//! Account identifiers: the 16-byte account UUID, its hyphenated text, and
//! the parsing of that text back into an identifier.
use vstd::prelude::*;
use crate::text::{append_hex, hex_digit, hex_text, lemma_hex_digits, nul_free, push_char};

verus! {

#[verifier::external_type_specification]
#[verifier::external_body]
pub struct ExUuidError(uuid::Error);

/// A hexadecimal digit, in either case.
pub open spec fn is_hex_char(c: char) -> bool {
    ('0' <= c <= '9') || ('a' <= c <= 'f') || ('A' <= c <= 'F')
}

/// The value of a hexadecimal digit.
pub open spec fn hex_char_value(c: char) -> int {
    if c <= '9' {
        c as int - 48
    } else if c <= 'F' {
        c as int - 55
    } else {
        c as int - 87
    }
}

/// Positions of the four hyphens of a hyphenated UUID.
pub open spec fn is_hyphen_position(i: int) -> bool {
    i == 8 || i == 13 || i == 18 || i == 23
}

/// The hyphenated form `xxxxxxxx-xxxx-xxxx-xxxx-xxxxxxxxxxxx`.
pub open spec fn is_hyphenated_uuid(s: Seq<char>) -> bool {
    &&& s.len() == 36
    &&& forall|i: int| 0 <= i < 36 ==>
        if is_hyphen_position(i) { #[trigger] s[i] == '-' } else { is_hex_char(s[i]) }
}

/// The 32 digits of a hyphenated UUID, hyphens left out.
pub open spec fn hyphenated_digits(s: Seq<char>) -> Seq<char> {
    s.subrange(0, 8) + s.subrange(9, 13) + s.subrange(14, 18) + s.subrange(19, 23)
        + s.subrange(24, 36)
}

/// Bytes of a string of hexadecimal digit pairs, high nibble first.
pub open spec fn hex_decode(digits: Seq<char>) -> Seq<u8> {
    Seq::new(
        digits.len() / 2,
        |k: int| (hex_char_value(digits[2 * k]) * 16 + hex_char_value(digits[2 * k + 1])) as u8,
    )
}

/// 32 hexadecimal digits, the simple form of a UUID.
pub open spec fn is_simple_uuid(s: Seq<char>) -> bool {
    s.len() == 32 && forall|i: int| 0 <= i < 32 ==> is_hex_char(#[trigger] s[i])
}

/// A character equal to `c` up to ASCII case (`c` a lowercase letter or a
/// character without case).
pub open spec fn ascii_eq_ignore_case(a: char, c: char) -> bool {
    a == c || ('a' <= c <= 'z' && a as int == c as int - 32)
}

/// The prefix `urn:uuid:`, in any ASCII case.
pub open spec fn has_urn_prefix(s: Seq<char>) -> bool {
    let p = "urn:uuid:"@;
    s.len() >= 9 && forall|i: int| 0 <= i < 9 ==> ascii_eq_ignore_case(#[trigger] s[i], p[i])
}

/// What `uuid::Uuid::parse_str` gives for a text: the bytes spelled by 32
/// hexadecimal digits, by a hyphenated UUID, by one in braces, or by one
/// after a `urn:uuid:` prefix; nothing for any other text.
pub open spec fn uuid_parse_result(s: Seq<char>) -> Option<Seq<u8>> {
    if is_simple_uuid(s) {
        Some(hex_decode(s))
    } else if is_hyphenated_uuid(s) {
        Some(hex_decode(hyphenated_digits(s)))
    } else if s.len() == 38 && s[0] == '{' && s[37] == '}' && is_hyphenated_uuid(s.subrange(1, 37)) {
        Some(hex_decode(hyphenated_digits(s.subrange(1, 37))))
    } else if s.len() == 45 && has_urn_prefix(s) && is_hyphenated_uuid(s.subrange(9, 45)) {
        Some(hex_decode(hyphenated_digits(s.subrange(9, 45))))
    } else {
        None
    }
}

/// The canonical text of an account UUID: lowercase hexadecimal in groups of
/// 8, 4, 4, 4 and 12 digits joined by hyphens.
pub open spec fn uuid_text(id: Seq<u8>) -> Seq<char> {
    hex_text(id.subrange(0, 4)) + seq!['-'] + hex_text(id.subrange(4, 6)) + seq!['-']
        + hex_text(id.subrange(6, 8)) + seq!['-'] + hex_text(id.subrange(8, 10)) + seq!['-']
        + hex_text(id.subrange(10, 16))
}

/// Parses an account identifier with `uuid::Uuid::parse_str`.
///
/// Claimed of the outside parser, as its source (`try_parse`) shows: it
/// accepts exactly the simple, hyphenated, braced and `urn:uuid:` forms,
/// with hexadecimal digits in either case, and gives the bytes they spell
/// (`uuid_parse_result`). Any non-ASCII character makes a length, hyphen,
/// brace, prefix or digit test fail, so the tests can be read on characters.
#[verifier::external_body]
fn uuid_parse_str(text: &str) -> (r: Result<[u8; 16], uuid::Error>)
    ensures
        r matches Ok(id) ==> uuid_parse_result(text@) == Some(id@),
        r is Err ==> uuid_parse_result(text@) is None,
{
    uuid::Uuid::parse_str(text).map(|u| *u.as_bytes())
}

/// Reads an account identifier from its text; `None` where the text is not a
/// UUID.
pub fn parse_account_id(text: &str) -> (r: Option<[u8; 16]>)
    ensures
        match r {
            Some(id) => uuid_parse_result(text@) == Some(id@),
            None => uuid_parse_result(text@) is None,
        },
        is_hyphenated_uuid(text@) ==> (r matches Some(id) && id@ == hex_decode(hyphenated_digits(text@))),
{
    proof {
        if is_hyphenated_uuid(text@) {
            assert(text@[8] == '-');
            assert(!is_hex_char(text@[8]));
        }
    }
    match uuid_parse_str(text) {
        Ok(id) => Some(id),
        Err(_) => None,
    }
}

/// The canonical hyphenated text of an account identifier.
pub fn format_account_id(id: &[u8; 16]) -> (r: String)
    ensures
        r@ == uuid_text(id@),
        is_hyphenated_uuid(r@),
        hex_decode(hyphenated_digits(r@)) == id@,
        nul_free(r@),
{
    let mut s = String::new();
    let bytes: &[u8] = id;
    append_hex(&mut s, bytes, 0, 4);
    push_char(&mut s, '-');
    append_hex(&mut s, bytes, 4, 6);
    push_char(&mut s, '-');
    append_hex(&mut s, bytes, 6, 8);
    push_char(&mut s, '-');
    append_hex(&mut s, bytes, 8, 10);
    push_char(&mut s, '-');
    append_hex(&mut s, bytes, 10, 16);
    assert(s@ =~= uuid_text(id@));
    proof {
        lemma_account_id_roundtrip(id@);
        lemma_account_id_text_nul_free(id@);
    }
    s
}

proof fn lemma_hex_digit_roundtrip(n: int)
    requires
        0 <= n < 16,
    ensures
        is_hex_char(hex_digit(n)),
        hex_char_value(hex_digit(n)) == n,
{
}

proof fn lemma_hex_pair(bytes: Seq<u8>, k: int)
    requires
        0 <= k < bytes.len(),
    ensures
        hex_text(bytes)[2 * k] == hex_digit((bytes[k] / 16) as int),
        hex_text(bytes)[2 * k + 1] == hex_digit((bytes[k] % 16) as int),
        hex_char_value(hex_text(bytes)[2 * k]) * 16 + hex_char_value(hex_text(bytes)[2 * k + 1])
            == bytes[k],
        is_hex_char(hex_text(bytes)[2 * k]),
        is_hex_char(hex_text(bytes)[2 * k + 1]),
{
    let b = bytes[k];
    assert((2 * k) / 2 == k && (2 * k) % 2 == 0);
    assert((2 * k + 1) / 2 == k && (2 * k + 1) % 2 == 1);
    lemma_hex_digit_roundtrip((b / 16) as int);
    lemma_hex_digit_roundtrip((b % 16) as int);
}

proof fn lemma_hex_decode_roundtrip(bytes: Seq<u8>)
    ensures
        hex_decode(hex_text(bytes)) =~= bytes,
        forall|i: int| 0 <= i < hex_text(bytes).len() ==> is_hex_char(#[trigger] hex_text(bytes)[i]),
{
    let h = hex_text(bytes);
    assert(h.len() / 2 == bytes.len());
    assert forall|k: int| 0 <= k < bytes.len() implies #[trigger] hex_decode(h)[k] == bytes[k] by {
        lemma_hex_pair(bytes, k);
    }
    assert forall|i: int| 0 <= i < h.len() implies is_hex_char(#[trigger] h[i]) by {
        let k = i / 2;
        lemma_hex_pair(bytes, k);
        assert(i == 2 * k || i == 2 * k + 1);
    }
}

proof fn lemma_hex_subrange(id: Seq<u8>, lo: int, hi: int)
    requires
        0 <= lo <= hi <= id.len(),
    ensures
        hex_text(id.subrange(lo, hi)) =~= hex_text(id).subrange(2 * lo, 2 * hi),
{
    let sub = id.subrange(lo, hi);
    assert forall|i: int| 0 <= i < 2 * (hi - lo) implies #[trigger] hex_text(sub)[i]
        == hex_text(id)[2 * lo + i] by {
        assert((2 * lo + i) / 2 == lo + i / 2);
        assert((2 * lo + i) % 2 == i % 2);
        assert(sub[i / 2] == id[lo + i / 2]);
    }
}

proof fn lemma_uuid_text_shape(id: Seq<u8>)
    requires
        id.len() == 16,
    ensures
        uuid_text(id) =~= hex_text(id).subrange(0, 8) + seq!['-'] + hex_text(id).subrange(8, 12)
            + seq!['-'] + hex_text(id).subrange(12, 16) + seq!['-'] + hex_text(id).subrange(16, 20)
            + seq!['-'] + hex_text(id).subrange(20, 32),
{
    lemma_hex_subrange(id, 0, 4);
    lemma_hex_subrange(id, 4, 6);
    lemma_hex_subrange(id, 6, 8);
    lemma_hex_subrange(id, 8, 10);
    lemma_hex_subrange(id, 10, 16);
}

/// The text that `format_account_id` writes for an identifier is in the
/// hyphenated form, and its digits spell that identifier again: so
/// `parse_account_id` reads it back as the same identifier.
pub proof fn lemma_account_id_roundtrip(id: Seq<u8>)
    requires
        id.len() == 16,
    ensures
        is_hyphenated_uuid(uuid_text(id)),
        hex_decode(hyphenated_digits(uuid_text(id))) == id,
{
    let s = uuid_text(id);
    let h = hex_text(id);
    lemma_hex_decode_roundtrip(id);
    lemma_uuid_text_shape(id);
    assert(h.len() == 32);
    assert(hyphenated_digits(s) =~= h);
    assert forall|i: int| 0 <= i < 36 implies if is_hyphen_position(i) {
        #[trigger] s[i] == '-'
    } else {
        is_hex_char(s[i])
    } by {
        if i < 8 {
            assert(s[i] == h[i]);
        } else if 8 < i < 13 {
            assert(s[i] == h[i - 1]);
        } else if 13 < i < 18 {
            assert(s[i] == h[i - 2]);
        } else if 18 < i < 23 {
            assert(s[i] == h[i - 3]);
        } else if 23 < i {
            assert(s[i] == h[i - 4]);
        }
    }
}

/// The text of an account identifier holds no NUL character, so the
/// listing hands it across the C boundary unchanged.
pub proof fn lemma_account_id_text_nul_free(id: Seq<u8>)
    requires
        id.len() == 16,
    ensures
        nul_free(uuid_text(id)),
        uuid_text(id).len() == 36,
{
    lemma_uuid_text_shape(id);
    lemma_hex_digits(id);
    let s = uuid_text(id);
    let h = hex_text(id);
    assert forall|i: int| 0 <= i < s.len() implies s[i] != '\0' by {
        if i < 8 {
            assert(s[i] == h[i]);
        } else if 8 < i < 13 {
            assert(s[i] == h[i - 1]);
        } else if 13 < i < 18 {
            assert(s[i] == h[i - 2]);
        } else if 18 < i < 23 {
            assert(s[i] == h[i - 3]);
        } else if 23 < i {
            assert(s[i] == h[i - 4]);
        }
    }
}

/// Only texts of 32, 36, 38 or 45 characters can name an account: any other
/// text (such as `not-a-uuid`) is refused.
pub proof fn lemma_other_lengths_are_refused(s: Seq<char>)
    requires
        s.len() != 32 && s.len() != 36 && s.len() != 38 && s.len() != 45,
    ensures
        uuid_parse_result(s) is None,
{
}

/// The text `format_account_id` writes for an identifier is read back by
/// `parse_account_id` as that identifier.
pub proof fn lemma_formatted_id_parses(id: Seq<u8>)
    requires
        id.len() == 16,
    ensures
        uuid_parse_result(uuid_text(id)) == Some(id),
{
    lemma_account_id_roundtrip(id);
    assert(uuid_text(id)[8] == '-');
}

} // verus!
