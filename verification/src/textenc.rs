use vstd::prelude::*;
use vstd::utf8::{
    decode_first_codepoint, decode_utf8, is_leading_byte_width_1, length_of_first_scalar,
    not_overlong_encoding, not_surrogate, pop_first_scalar, valid_first_scalar, valid_utf8,
};

verus! {

/// Every byte is a plain ASCII byte.
pub open spec fn ascii_bytes(b: Seq<u8>) -> bool {
    forall|i: int| 0 <= i < b.len() ==> b[i] <= 0x7f
}

/// A sequence of ASCII bytes is a valid UTF-8 encoding.
pub proof fn lemma_ascii_bytes_valid_utf8(b: Seq<u8>)
    requires
        ascii_bytes(b),
    ensures
        valid_utf8(b),
    decreases b.len(),
{
    if b.len() > 0 {
        let b0 = b[0];
        assert(b0 <= 0x7f);
        assert(is_leading_byte_width_1(b0));
        assert(b0 & 0x7f == b0) by (bit_vector)
            requires
                b0 <= 0x7f,
        ;
        assert(decode_first_codepoint(b) == b0 as u32);
        assert(not_overlong_encoding(b0 as u32, 1));
        assert(not_surrogate(b0 as u32));
        assert(valid_first_scalar(b));
        assert(length_of_first_scalar(b) == 1);
        assert(pop_first_scalar(b) =~= b.drop_first());
        assert(ascii_bytes(b.drop_first()));
        lemma_ascii_bytes_valid_utf8(b.drop_first());
    }
}

/// Relies on String::from_utf8: it returns the decoded string exactly
/// when the bytes are a valid UTF-8 encoding.
#[verifier::external_body]
pub(crate) fn string_from_utf8(b: Vec<u8>) -> (r: Option<String>)
    ensures
        r matches Some(s) ==> valid_utf8(b@) && s@ == decode_utf8(b@),
        r is Some <==> valid_utf8(b@),
{
    match String::from_utf8(b) {
        Ok(s) => Some(s),
        Err(_) => None,
    }
}

} // verus!
