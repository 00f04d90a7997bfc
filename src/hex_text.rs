//! Hexadecimal text, as the `hex` crate writes and reads it.

use vstd::prelude::*;

verus! {

/// The lower-case hexadecimal digit for a value below sixteen.
pub open spec fn hex_digit(n: int) -> char {
    seq!['0', '1', '2', '3', '4', '5', '6', '7', '8', '9', 'a', 'b', 'c', 'd', 'e', 'f'][n]
}

/// Two lower-case digits per byte, high half first.
pub open spec fn hex_chars(b: Seq<u8>) -> Seq<char>
    decreases b.len(),
{
    if b.len() == 0 {
        seq![]
    } else {
        seq![hex_digit(b[0] as int / 16), hex_digit(b[0] as int % 16)] + hex_chars(b.drop_first())
    }
}

/// The value of one hexadecimal digit byte, of either case.
pub open spec fn hex_value(c: u8) -> Option<int> {
    if 0x30 <= c <= 0x39 {
        Some(c - 0x30)
    } else if 0x61 <= c <= 0x66 {
        Some(c - 0x61 + 10)
    } else if 0x41 <= c <= 0x46 {
        Some(c - 0x41 + 10)
    } else {
        None
    }
}

/// The bytes that a hexadecimal text (as bytes) stands for: `None` unless it
/// has an even length and holds only hexadecimal digits.
pub open spec fn hex_decoded(d: Seq<u8>) -> Option<Seq<u8>>
    decreases d.len(),
{
    if d.len() == 0 {
        Some(seq![])
    } else if d.len() == 1 {
        None
    } else {
        match (hex_value(d[0]), hex_value(d[1]), hex_decoded(d.subrange(2, d.len() as int))) {
            (Some(h), Some(l), Some(rest)) => Some(seq![(h * 16 + l) as u8] + rest),
            _ => None,
        }
    }
}

/// The bytes of a text made only of ASCII characters.
pub open spec fn ascii_bytes(s: Seq<char>) -> Seq<u8> {
    Seq::new(s.len(), |i: int| s[i] as u8)
}

#[verifier::external_type_specification]
#[verifier::external_body]
pub struct ExFromHexError(hex::FromHexError);

/// Relies on `hex::encode`: two lower-case digits for each byte, high half first.
#[verifier::external_body]
pub(crate) fn hex_encode(data: &[u8]) -> (r: String)
    ensures
        r@ == hex_chars(data@),
{
    hex::encode(data)
}

/// Relies on `hex::decode`: succeeds exactly on an even number of digits of
/// either case, two per byte, high half first.
#[verifier::external_body]
pub(crate) fn hex_decode(data: &[u8]) -> (r: Result<Vec<u8>, hex::FromHexError>)
    ensures
        match r {
            Ok(v) => hex_decoded(data@) == Some(v@),
            Err(_) => hex_decoded(data@) is None,
        },
{
    hex::decode(data)
}

proof fn lemma_digit_round_trip(n: int)
    requires
        0 <= n < 16,
    ensures
        hex_value(hex_digit(n) as u8) == Some(n),
        hex_digit(n) != '.',
        '\0' <= hex_digit(n) <= '\u{7f}',
{
}

/// Hexadecimal text is ASCII and holds no `.`.
pub proof fn lemma_hex_chars_plain(b: Seq<u8>)
    ensures
        hex_chars(b).len() == 2 * b.len(),
        forall|i: int|
            0 <= i < hex_chars(b).len() ==> #[trigger] hex_chars(b)[i] != '.' && '\0'
                <= hex_chars(b)[i] <= '\u{7f}',
    decreases b.len(),
{
    if b.len() > 0 {
        lemma_digit_round_trip(b[0] as int / 16);
        lemma_digit_round_trip(b[0] as int % 16);
        lemma_hex_chars_plain(b.drop_first());
        let h = hex_chars(b);
        let t = hex_chars(b.drop_first());
        assert forall|i: int| 0 <= i < h.len() implies #[trigger] h[i] != '.' && '\0' <= h[i]
            <= '\u{7f}' by {
            if i >= 2 {
                assert(h[i] == t[i - 2]);
            }
        }
    }
}

/// Reading back what `hex_chars` wrote gives the bytes again.
pub proof fn lemma_hex_round_trip(b: Seq<u8>)
    ensures
        hex_decoded(ascii_bytes(hex_chars(b))) == Some(b),
    decreases b.len(),
{
    if b.len() > 0 {
        let hi = b[0] as int / 16;
        let lo = b[0] as int % 16;
        lemma_digit_round_trip(hi);
        lemma_digit_round_trip(lo);
        lemma_hex_chars_plain(b.drop_first());
        lemma_hex_round_trip(b.drop_first());
        let d = ascii_bytes(hex_chars(b));
        assert(d.subrange(2, d.len() as int) =~= ascii_bytes(hex_chars(b.drop_first())));
        assert(d[0] == hex_digit(hi) as u8);
        assert(d[1] == hex_digit(lo) as u8);
        assert((hi * 16 + lo) as u8 == b[0]);
        assert(seq![b[0]] + b.drop_first() =~= b);
    }
}

} // verus!
