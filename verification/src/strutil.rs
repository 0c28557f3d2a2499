use vstd::prelude::*;
use vstd::string::StringSliceAdditionalSpecFns;

verus! {

/// Relies on std's String::push: appends the given character to the string.
#[verifier::external_body]
pub(crate) fn push_char(s: &mut String, c: char)
    ensures
        final(s)@ == old(s)@.push(c),
{
    s.push(c);
}

/// Equality of two strings, decided in constant time for a given pair of
/// lengths: every byte is visited and folded into an accumulator, with no
/// early exit on the first difference.
pub fn ct_str_eq(a: &str, b: &str) -> (r: bool)
    ensures
        r == (a@ == b@),
{
    broadcast use vstd::utf8::encode_utf8_decode_utf8;

    let ab = a.as_bytes();
    let bb = b.as_bytes();
    if ab.len() != bb.len() {
        proof {
            assert(a.spec_bytes() != b.spec_bytes());
            assert(a@ != b@);
        }
        return false;
    }
    let n = ab.len();
    let mut diff: u8 = 0;
    let mut i: usize = 0;
    proof {
        assert(ab@.subrange(0, 0) =~= bb@.subrange(0, 0));
    }
    while i < n
        invariant
            i <= n,
            n == ab@.len() == bb@.len(),
            (diff == 0) <==> (ab@.subrange(0, i as int) == bb@.subrange(0, i as int)),
        decreases n - i,
    {
        let x = ab[i];
        let y = bb[i];
        proof {
            let d0 = diff;
            assert(((d0 | (x ^ y)) == 0) == (d0 == 0 && x == y)) by (bit_vector);
            if d0 == 0 && x == y {
                assert(ab@.subrange(0, i + 1) =~= ab@.subrange(0, i as int).push(x));
                assert(bb@.subrange(0, i + 1) =~= bb@.subrange(0, i as int).push(y));
            } else if d0 == 0 {
                assert(ab@.subrange(0, i + 1)[i as int] != bb@.subrange(0, i + 1)[i as int]);
            } else {
                assert(ab@.subrange(0, i as int) != bb@.subrange(0, i as int));
                assert(ab@.subrange(0, i + 1).subrange(0, i as int) =~= ab@.subrange(0, i as int));
                assert(bb@.subrange(0, i + 1).subrange(0, i as int) =~= bb@.subrange(0, i as int));
            }
        }
        diff = diff | (x ^ y);
        i = i + 1;
    }
    proof {
        assert(ab@.subrange(0, n as int) =~= ab@);
        assert(bb@.subrange(0, n as int) =~= bb@);
        if diff == 0 {
            assert(a.spec_bytes() == b.spec_bytes());
            assert(vstd::utf8::decode_utf8(vstd::utf8::encode_utf8(a@)) == a@);
            assert(vstd::utf8::decode_utf8(vstd::utf8::encode_utf8(b@)) == b@);
            assert(a@ == b@);
        } else {
            assert(a.spec_bytes() != b.spec_bytes());
            assert(a@ != b@);
        }
    }
    diff == 0
}

} // verus!
