//! Text encodings used by the wallet: lowercase hexadecimal and decimal.
use vstd::prelude::*;

verus! {

/// The lowercase hexadecimal digit of a nibble.
pub open spec fn hex_digit(n: int) -> char {
    if n < 10 {
        (48 + n) as char
    } else {
        (87 + n) as char
    }
}

/// Lowercase hexadecimal text of a byte string: two digits per byte,
/// high nibble first.
pub open spec fn hex_text(bytes: Seq<u8>) -> Seq<char> {
    Seq::new(
        2 * bytes.len(),
        |i: int|
            if i % 2 == 0 {
                hex_digit((bytes[i / 2] / 16) as int)
            } else {
                hex_digit((bytes[i / 2] % 16) as int)
            },
    )
}

/// The decimal digit character of a number below ten.
pub open spec fn digit_char(n: int) -> char {
    (48 + n) as char
}

/// Decimal text of a natural number, without leading zeros.
pub open spec fn decimal_text(n: nat) -> Seq<char>
    decreases n,
{
    if n < 10 {
        seq![digit_char(n as int)]
    } else {
        decimal_text(n / 10).push(digit_char((n % 10) as int))
    }
}

/// A text holds no NUL character (it can cross the C boundary unchanged).
pub open spec fn nul_free(s: Seq<char>) -> bool {
    forall|i: int| 0 <= i < s.len() ==> s[i] != '\0'
}

/// Appends one character to a string.
#[verifier::external_body]
pub(crate) fn push_char(s: &mut String, c: char)
    ensures
        final(s)@ == old(s)@.push(c),
{
    s.push(c);
}

fn nibble_char(n: u8) -> (c: char)
    requires
        n < 16,
    ensures
        c == hex_digit(n as int),
{
    if n < 10 {
        (n + 48) as char
    } else {
        (n + 87) as char
    }
}

/// Appends the hexadecimal text of `bytes[lo..hi]` to `s`.
pub fn append_hex(s: &mut String, bytes: &[u8], lo: usize, hi: usize)
    requires
        lo <= hi <= bytes@.len(),
    ensures
        final(s)@ == old(s)@ + hex_text(bytes@.subrange(lo as int, hi as int)),
{
    let ghost start = s@;
    let mut i = lo;
    while i < hi
        invariant
            lo <= i <= hi <= bytes@.len(),
            s@ =~= start + hex_text(bytes@.subrange(lo as int, i as int)),
        decreases hi - i,
    {
        let b = bytes[i];
        let ghost before = s@;
        push_char(s, nibble_char(b / 16));
        push_char(s, nibble_char(b % 16));
        proof {
            let prev = bytes@.subrange(lo as int, i as int);
            let next = bytes@.subrange(lo as int, i + 1);
            assert forall|k: int| 0 <= k < hex_text(next).len() implies
                hex_text(next)[k] == (hex_text(prev) + seq![hex_digit((b / 16) as int), hex_digit((b % 16) as int)])[k] by {
                if k < 2 * prev.len() {
                    assert(next[k / 2] == prev[k / 2]);
                }
            }
            assert(hex_text(next) =~= hex_text(prev) + seq![hex_digit((b / 16) as int), hex_digit((b % 16) as int)]);
        }
        i = i + 1;
    }
}

/// Lowercase hexadecimal text of a byte string.
pub fn encode_hex(bytes: &[u8]) -> (r: String)
    ensures
        r@ == hex_text(bytes@),
{
    let mut s = String::new();
    append_hex(&mut s, bytes, 0, bytes.len());
    assert(bytes@.subrange(0, bytes@.len() as int) =~= bytes@);
    s
}

/// Appends the decimal text of `n` to `s`.
pub fn append_decimal(s: &mut String, n: u64)
    ensures
        final(s)@ == old(s)@ + decimal_text(n as nat),
    decreases n,
{
    if n >= 10 {
        append_decimal(s, n / 10);
    }
    let d = (n % 10) as u8;
    push_char(s, (d + 48) as char);
    assert(n < 10 ==> n % 10 == n);
}

/// Decimal text of an unsigned number, as `to_string` writes it.
pub fn decimal_string(n: u64) -> (r: String)
    ensures
        r@ == decimal_text(n as nat),
        decimal_value(r@) == n,
        forall|i: int| 0 <= i < r@.len() ==> '0' <= #[trigger] r@[i] <= '9',
        r@.len() >= 1,
        r@[0] == '0' ==> n == 0,
{
    let mut s = String::new();
    append_decimal(&mut s, n);
    assert(s@ =~= decimal_text(n as nat));
    proof {
        lemma_decimal_text_spells(n as nat);
    }
    s
}

/// Decimal text holds digits only.
pub proof fn lemma_decimal_digits(n: nat)
    ensures
        forall|i: int| 0 <= i < decimal_text(n).len() ==> '0' <= #[trigger] decimal_text(n)[i] <= '9',
        decimal_text(n).len() >= 1,
    decreases n,
{
    if n >= 10 {
        lemma_decimal_digits(n / 10);
    }
}

/// The number that a text of decimal digits spells, most significant digit
/// first (the empty text spells zero).
pub open spec fn decimal_value(s: Seq<char>) -> nat
    decreases s.len(),
{
    if s.len() == 0 {
        0
    } else {
        decimal_value(s.drop_last()) * 10 + ((s.last() as int - 48) as nat)
    }
}

/// Decimal text spells its number: it holds digits only, reading them back
/// gives the number, and it starts with a zero only for zero itself.
pub proof fn lemma_decimal_text_spells(n: nat)
    ensures
        forall|i: int| 0 <= i < decimal_text(n).len() ==> '0' <= #[trigger] decimal_text(n)[i] <= '9',
        decimal_value(decimal_text(n)) == n,
        decimal_text(n).len() >= 1,
        decimal_text(n)[0] == '0' ==> n == 0,
        n < 10 ==> decimal_text(n).len() == 1,
        n >= 10 ==> decimal_text(n).len() == decimal_text(n / 10).len() + 1,
    decreases n,
{
    lemma_decimal_digits(n);
    let d = (n % 10) as int;
    assert(digit_char(d) as int == 48 + d);
    if n >= 10 {
        lemma_decimal_text_spells(n / 10);
        let t = decimal_text(n / 10);
        assert(decimal_text(n).drop_last() =~= t);
        assert(decimal_text(n).last() == digit_char(d));
        assert(decimal_text(n)[0] == t[0]);
        assert(decimal_value(decimal_text(n)) == decimal_value(t) * 10 + d);
        assert((n / 10) * 10 + d == n);
    } else {
        assert(d == n);
        assert(decimal_text(n).drop_last() =~= Seq::<char>::empty());
        assert(decimal_value(decimal_text(n)) == decimal_value(Seq::<char>::empty()) * 10 + d);
    }
}

/// Hexadecimal text holds hexadecimal digits only.
pub proof fn lemma_hex_digits(bytes: Seq<u8>)
    ensures
        forall|i: int| 0 <= i < hex_text(bytes).len() ==> {
            let c = #[trigger] hex_text(bytes)[i];
            ('0' <= c <= '9') || ('a' <= c <= 'f')
        },
{
}

} // verus!
