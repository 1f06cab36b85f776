//! Base64url (unpadded) encoding, the segment codec of the compact token
//! wire format.
//!
//! The encoding itself is stated exactly by [`spec_b64url`]; the executable
//! encoder and decoder call the `base64` crate against that statement.

use base64::Engine;
use vstd::prelude::*;

verus! {

/// The base64url digit for a 6-bit value `n < 64`:
/// `A`..`Z`, `a`..`z`, `0`..`9`, `-`, `_`.
pub open spec fn b64url_digit(n: u8) -> u8 {
    if n < 26 {
        (65 + n) as u8
    } else if n < 52 {
        (97 + (n - 26)) as u8
    } else if n < 62 {
        (48 + (n - 52)) as u8
    } else if n == 62 {
        45
    } else {
        95
    }
}

/// The unpadded base64url encoding of `s`: each 3-byte group becomes 4
/// digits, a trailing group of 1 or 2 bytes becomes 2 or 3 digits, and no
/// padding is appended.
pub open spec fn spec_b64url(s: Seq<u8>) -> Seq<u8>
    decreases s.len(),
{
    if s.len() == 0 {
        Seq::empty()
    } else if s.len() == 1 {
        let b0 = s[0];
        seq![b64url_digit(b0 / 4), b64url_digit(((b0 % 4) * 16) as u8)]
    } else if s.len() == 2 {
        let b0 = s[0];
        let b1 = s[1];
        seq![
            b64url_digit(b0 / 4),
            b64url_digit(((b0 % 4) * 16 + b1 / 16) as u8),
            b64url_digit(((b1 % 16) * 4) as u8),
        ]
    } else {
        let b0 = s[0];
        let b1 = s[1];
        let b2 = s[2];
        seq![
            b64url_digit(b0 / 4),
            b64url_digit(((b0 % 4) * 16 + b1 / 16) as u8),
            b64url_digit(((b1 % 16) * 4 + b2 / 64) as u8),
            b64url_digit((b2 % 64) as u8),
        ] + spec_b64url(s.skip(3))
    }
}

/// No 6-bit value maps to an ASCII dot.
pub proof fn lemma_digit_not_dot(n: u8)
    ensures
        b64url_digit(n) != 46,
{
}

/// Every byte of a base64url encoding is a digit of the alphabet; in
/// particular it is never an ASCII dot, so the `.` separators of the compact
/// serialization cannot occur inside a segment.
pub proof fn lemma_b64url_no_dot(s: Seq<u8>)
    ensures
        forall|i: int| 0 <= i < spec_b64url(s).len() ==> spec_b64url(s)[i] != 46,
    decreases s.len(),
{
    assert forall|n: u8| b64url_digit(n) != 46 by {
        lemma_digit_not_dot(n);
    }
    if s.len() > 2 {
        lemma_b64url_no_dot(s.skip(3));
        assert forall|i: int| 0 <= i < spec_b64url(s).len() implies spec_b64url(s)[i] != 46 by {
            if i >= 4 {
                assert(spec_b64url(s)[i] == spec_b64url(s.skip(3))[i - 4]);
            }
        }
    }
}

/// No two 6-bit values share a digit.
proof fn lemma_digit_injective(x: u8, y: u8)
    requires
        x < 64,
        y < 64,
        b64url_digit(x) == b64url_digit(y),
    ensures
        x == y,
{
}

/// The length of an encoding, by input length.
proof fn lemma_b64url_len_cases(s: Seq<u8>)
    ensures
        s.len() == 0 ==> spec_b64url(s).len() == 0,
        s.len() == 1 ==> spec_b64url(s).len() == 2,
        s.len() == 2 ==> spec_b64url(s).len() == 3,
        s.len() >= 3 ==> spec_b64url(s).len() == 4 + spec_b64url(s.skip(3)).len(),
{
}

/// The encoding is injective: byte strings with the same encoding are the
/// same, so a decoded segment pins the bytes that were encoded.
pub proof fn lemma_b64url_injective(s1: Seq<u8>, s2: Seq<u8>)
    requires
        spec_b64url(s1) == spec_b64url(s2),
    ensures
        s1 == s2,
    decreases s1.len(),
{
    lemma_b64url_len_cases(s1);
    lemma_b64url_len_cases(s2);
    if s1.len() == 0 {
        if s2.len() >= 3 {
            assert(spec_b64url(s2).len() >= 4);
        }
        assert(s2.len() == 0);
        assert(s1 =~= s2);
    } else if s1.len() == 1 {
        if s2.len() >= 3 {
            assert(spec_b64url(s2).len() >= 4);
        }
        assert(s2.len() == 1);
        let a0 = s1[0];
        let b0 = s2[0];
        assert(spec_b64url(s1)[0] == b64url_digit(a0 / 4));
        assert(spec_b64url(s2)[0] == b64url_digit(b0 / 4));
        lemma_digit_injective(a0 / 4, b0 / 4);
        assert(spec_b64url(s1)[1] == b64url_digit(((a0 % 4) * 16) as u8));
        assert(spec_b64url(s2)[1] == b64url_digit(((b0 % 4) * 16) as u8));
        lemma_digit_injective(((a0 % 4) * 16) as u8, ((b0 % 4) * 16) as u8);
        assert(a0 == b0);
        assert(s1 =~= s2);
    } else if s1.len() == 2 {
        if s2.len() >= 3 {
            assert(spec_b64url(s2).len() >= 4);
        }
        assert(s2.len() == 2);
        let a0 = s1[0];
        let a1 = s1[1];
        let b0 = s2[0];
        let b1 = s2[1];
        assert(spec_b64url(s1)[0] == b64url_digit(a0 / 4));
        assert(spec_b64url(s2)[0] == b64url_digit(b0 / 4));
        lemma_digit_injective(a0 / 4, b0 / 4);
        assert(spec_b64url(s1)[1] == b64url_digit(((a0 % 4) * 16 + a1 / 16) as u8));
        assert(spec_b64url(s2)[1] == b64url_digit(((b0 % 4) * 16 + b1 / 16) as u8));
        lemma_digit_injective(((a0 % 4) * 16 + a1 / 16) as u8, ((b0 % 4) * 16 + b1 / 16) as u8);
        assert(spec_b64url(s1)[2] == b64url_digit(((a1 % 16) * 4) as u8));
        assert(spec_b64url(s2)[2] == b64url_digit(((b1 % 16) * 4) as u8));
        lemma_digit_injective(((a1 % 16) * 4) as u8, ((b1 % 16) * 4) as u8);
        assert(a0 == b0);
        assert(a1 == b1);
        assert(s1 =~= s2);
    } else {
        if s2.len() == 1 || s2.len() == 2 {
            assert(spec_b64url(s1).len() >= 4);
        }
        assert(s2.len() >= 3);
        let a0 = s1[0];
        let a1 = s1[1];
        let a2 = s1[2];
        let b0 = s2[0];
        let b1 = s2[1];
        let b2 = s2[2];
        assert(spec_b64url(s1)[0] == b64url_digit(a0 / 4));
        assert(spec_b64url(s2)[0] == b64url_digit(b0 / 4));
        lemma_digit_injective(a0 / 4, b0 / 4);
        assert(spec_b64url(s1)[1] == b64url_digit(((a0 % 4) * 16 + a1 / 16) as u8));
        assert(spec_b64url(s2)[1] == b64url_digit(((b0 % 4) * 16 + b1 / 16) as u8));
        lemma_digit_injective(((a0 % 4) * 16 + a1 / 16) as u8, ((b0 % 4) * 16 + b1 / 16) as u8);
        assert(spec_b64url(s1)[2] == b64url_digit(((a1 % 16) * 4 + a2 / 64) as u8));
        assert(spec_b64url(s2)[2] == b64url_digit(((b1 % 16) * 4 + b2 / 64) as u8));
        lemma_digit_injective(((a1 % 16) * 4 + a2 / 64) as u8, ((b1 % 16) * 4 + b2 / 64) as u8);
        assert(spec_b64url(s1)[3] == b64url_digit((a2 % 64) as u8));
        assert(spec_b64url(s2)[3] == b64url_digit((b2 % 64) as u8));
        lemma_digit_injective((a2 % 64) as u8, (b2 % 64) as u8);
        assert(a0 == b0);
        assert(a1 == b1);
        assert(a2 == b2);
        assert(spec_b64url(s1.skip(3)) =~= spec_b64url(s2.skip(3))) by {
            assert forall|i: int| 0 <= i < spec_b64url(s1.skip(3)).len() implies spec_b64url(
                s1.skip(3),
            )[i] == spec_b64url(s2.skip(3))[i] by {
                assert(spec_b64url(s1)[i + 4] == spec_b64url(s1.skip(3))[i]);
                assert(spec_b64url(s2)[i + 4] == spec_b64url(s2.skip(3))[i]);
            }
        }
        lemma_b64url_injective(s1.skip(3), s2.skip(3));
        assert forall|i: int| 0 <= i < s1.len() implies s1[i] == s2[i] by {
            if i >= 3 {
                assert(s1.skip(3)[i - 3] == s2.skip(3)[i - 3]);
            }
        }
        assert(s1 =~= s2);
    }
}

/// Relies on the `base64` crate's `URL_SAFE_NO_PAD` engine: it encodes with
/// the base64url alphabet and emits no padding.
#[verifier::external_body]
pub fn b64url_encode(b: &[u8]) -> (r: Vec<u8>)
    ensures
        r@ == spec_b64url(b@),
{
    base64::engine::general_purpose::URL_SAFE_NO_PAD.encode(b).into_bytes()
}

/// Relies on the `base64` crate's `URL_SAFE_NO_PAD` engine: decoding
/// inverts encoding, and with padding required absent and trailing bits
/// rejected it accepts exactly the canonical encodings.
#[verifier::external_body]
pub fn b64url_decode(s: &[u8]) -> (r: Option<Vec<u8>>)
    ensures
        r matches Some(v) ==> s@ == spec_b64url(v@),
        r matches Some(v) ==> forall|b: Seq<u8>| s@ == spec_b64url(b) ==> v@ == b,
        r is None ==> forall|b: Seq<u8>| s@ != spec_b64url(b),
{
    base64::engine::general_purpose::URL_SAFE_NO_PAD.decode(s).ok()
}

} // verus!
