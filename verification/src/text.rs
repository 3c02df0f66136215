//! Comparison of text, byte by byte.

use vstd::prelude::*;
use vstd::utf8::encode_utf8;

verus! {

/// Whether `a` and `b` are the same text.
///
/// Texts of one length are compared through to the last byte, so the time
/// taken does not tell where they first differ.
pub fn same_text(a: &str, b: &str) -> (same: bool)
    ensures
        same == (a@ == b@),
{
    let x = a.as_bytes();
    let y = b.as_bytes();
    proof {
        vstd::utf8::encode_utf8_decode_utf8(a@);
        vstd::utf8::encode_utf8_decode_utf8(b@);
    }
    if x.len() != y.len() {
        return false;
    }
    let mut diff: u8 = 0;
    let mut i: usize = 0;
    while i < x.len()
        invariant
            i <= x@.len(),
            x@.len() == y@.len(),
            diff == 0 <==> x@.take(i as int) =~= y@.take(i as int),
        decreases x@.len() - i,
    {
        let p = x[i];
        let q = y[i];
        let ghost before = diff;
        diff = diff | (p ^ q);
        proof {
            assert((before | (p ^ q)) == 0u8 <==> (before == 0u8 && p == q)) by (bit_vector);
            let xi = x@.take(i as int);
            let yi = y@.take(i as int);
            let xn = x@.take(i + 1);
            let yn = y@.take(i + 1);
            assert(xn.drop_last() =~= xi && yn.drop_last() =~= yi);
            assert(xn.last() == p && yn.last() == q);
            if xi == yi && p == q {
                assert(xn =~= yn);
            }
        }
        i = i + 1;
    }
    proof {
        assert(x@.take(i as int) =~= x@ && y@.take(i as int) =~= y@);
    }
    diff == 0
}

} // verus!
