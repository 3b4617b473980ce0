//! Exact, byte-wise string comparison, proved to decide equality of the
//! character views.

use vstd::prelude::*;
use vstd::string::StringSliceAdditionalSpecFns;

verus! {

/// Equal character sequences encode to equal byte sequences, and conversely.
proof fn lemma_bytes_decide_chars(a: Seq<char>, b: Seq<char>)
    ensures
        (vstd::utf8::encode_utf8(a) == vstd::utf8::encode_utf8(b)) <==> (a == b),
{
    vstd::utf8::encode_utf8_decode_utf8(a);
    vstd::utf8::encode_utf8_decode_utf8(b);
}

/// Whether two strings hold the same characters, decided byte by byte.
pub fn str_eq(a: &str, b: &str) -> (r: bool)
    ensures
        r == (a@ == b@),
{
    let ab = a.as_bytes();
    let bb = b.as_bytes();
    proof {
        lemma_bytes_decide_chars(a@, b@);
    }
    if ab.len() != bb.len() {
        return false;
    }
    let n = ab.len();
    let mut i: usize = 0;
    #[verifier::loop_isolation(false)]
    while i < n
        invariant
            n == ab@.len() == bb@.len(),
            i <= n,
            forall|j: int| 0 <= j < i ==> ab@[j] == bb@[j],
        decreases n - i,
    {
        if ab[i] != bb[i] {
            proof {
                assert(ab@ == a.spec_bytes());
                assert(a.spec_bytes() == vstd::utf8::encode_utf8(a@));
                assert(bb@ == vstd::utf8::encode_utf8(b@));
                assert(ab@ != bb@);
            }
            return false;
        }
        i += 1;
    }
    assert(ab@ =~= bb@);
    true
}

} // verus!
