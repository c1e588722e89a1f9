use vstd::prelude::*;
use vstd::utf8::decode_utf8;
use crate::textenc::{ascii_bytes, lemma_ascii_bytes_valid_utf8, string_from_utf8};

verus! {

/// ASCII byte of the hex digit for a value below 16: '0'..'9' then 'a'..'f'.
pub open spec fn hex_digit_byte(n: u8) -> u8
    recommends
        n < 16,
{
    if n < 10 {
        (0x30 + n) as u8
    } else {
        (0x57 + n) as u8
    }
}

/// The ASCII bytes of the lower-case hex encoding of a byte sequence:
/// two digits per byte, high nibble first.
pub open spec fn hex_bytes_of(b: Seq<u8>) -> Seq<u8>
    decreases b.len(),
{
    if b.len() == 0 {
        Seq::empty()
    } else {
        seq![hex_digit_byte(b[0] / 16), hex_digit_byte(b[0] % 16)] + hex_bytes_of(b.drop_first())
    }
}

/// The lower-case hex encoding of a byte sequence, as text.
pub open spec fn hex_of(b: Seq<u8>) -> Seq<char> {
    decode_utf8(hex_bytes_of(b))
}

proof fn lemma_hex_bytes_props(b: Seq<u8>)
    ensures
        hex_bytes_of(b).len() == 2 * b.len(),
        ascii_bytes(hex_bytes_of(b)),
    decreases b.len(),
{
    if b.len() > 0 {
        lemma_hex_bytes_props(b.drop_first());
    }
}

proof fn lemma_hex_bytes_push(b: Seq<u8>, x: u8)
    ensures
        hex_bytes_of(b.push(x)) == hex_bytes_of(b) + seq![
            hex_digit_byte(x / 16),
            hex_digit_byte(x % 16),
        ],
    decreases b.len(),
{
    let s = b.push(x);
    assert(s.len() == b.len() + 1);
    if b.len() == 0 {
        assert(s[0] == x);
        assert(s.drop_first() =~= Seq::<u8>::empty());
        assert(hex_bytes_of(s.drop_first()) == Seq::<u8>::empty());
        assert(hex_bytes_of(s) == seq![hex_digit_byte(s[0] / 16), hex_digit_byte(s[0] % 16)]
            + hex_bytes_of(s.drop_first()));
        assert(hex_bytes_of(b) == Seq::<u8>::empty());
        assert(hex_bytes_of(s) =~= hex_bytes_of(b) + seq![
            hex_digit_byte(x / 16),
            hex_digit_byte(x % 16),
        ]);
    } else {
        assert(s[0] == b[0]);
        assert(s.drop_first() =~= b.drop_first().push(x));
        lemma_hex_bytes_push(b.drop_first(), x);
        assert(hex_bytes_of(s) == seq![hex_digit_byte(s[0] / 16), hex_digit_byte(s[0] % 16)]
            + hex_bytes_of(s.drop_first()));
        assert(hex_bytes_of(b) == seq![hex_digit_byte(b[0] / 16), hex_digit_byte(b[0] % 16)]
            + hex_bytes_of(b.drop_first()));
        assert(hex_bytes_of(s) =~= hex_bytes_of(b) + seq![
            hex_digit_byte(x / 16),
            hex_digit_byte(x % 16),
        ]);
    }
}

/// Lower-case hex encoding of a byte sequence.
pub fn hex_encode(b: &Vec<u8>) -> (r: String)
    ensures
        r@ == hex_of(b@),
{
    let mut out: Vec<u8> = Vec::new();
    let n = b.len();
    let mut i: usize = 0;
    while i < n
        invariant
            n == b@.len(),
            0 <= i <= n,
            out@ == hex_bytes_of(b@.subrange(0, i as int)),
        decreases n - i,
    {
        let x = b[i];
        let hi = x / 16;
        let lo = x % 16;
        let d1 = if hi < 10 {
            0x30 + hi
        } else {
            0x57 + hi
        };
        let d2 = if lo < 10 {
            0x30 + lo
        } else {
            0x57 + lo
        };
        out.push(d1);
        out.push(d2);
        proof {
            lemma_hex_bytes_push(b@.subrange(0, i as int), b@[i as int]);
            assert(b@.subrange(0, i + 1 as int) =~= b@.subrange(0, i as int).push(b@[i as int]));
        }
        i = i + 1;
    }
    proof {
        assert(b@.subrange(0, n as int) =~= b@);
        lemma_hex_bytes_props(b@);
        lemma_ascii_bytes_valid_utf8(out@);
    }
    string_from_utf8(out).unwrap()
}

} // verus!
