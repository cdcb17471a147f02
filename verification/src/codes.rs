//! Currency-code normalization.
//!
//! Currency codes travel as short ASCII byte strings. Lookups against the
//! upstream document use the lowercase form; codes echoed in a response use
//! the uppercase form.

use vstd::prelude::*;

verus! {

/// The lowercase image of one byte: ASCII letters `A`..`Z` move to
/// `a`..`z`, every other byte is unchanged.
pub open spec fn lower_byte(b: u8) -> u8 {
    if 65 <= b && b <= 90 {
        (b + 32) as u8
    } else {
        b
    }
}

/// The uppercase image of one byte: ASCII letters `a`..`z` move to
/// `A`..`Z`, every other byte is unchanged.
pub open spec fn upper_byte(b: u8) -> u8 {
    if 97 <= b && b <= 122 {
        (b - 32) as u8
    } else {
        b
    }
}

/// The lowercase form of a code, byte for byte.
pub open spec fn lower_code(s: Seq<u8>) -> Seq<u8> {
    s.map_values(|b: u8| lower_byte(b))
}

/// The uppercase form of a code, byte for byte.
pub open spec fn upper_code(s: Seq<u8>) -> Seq<u8> {
    s.map_values(|b: u8| upper_byte(b))
}

/// Lowercase a code for an upstream lookup.
pub fn to_lower(code: &Vec<u8>) -> (r: Vec<u8>)
    ensures
        r@ == lower_code(code@),
{
    let mut out: Vec<u8> = Vec::new();
    let mut i: usize = 0;
    while i < code.len()
        invariant
            i <= code.len(),
            out@.len() == i,
            forall|j: int| 0 <= j < i ==> out@[j] == lower_byte(code@[j]),
        decreases code.len() - i,
    {
        let b = code[i];
        if 65 <= b && b <= 90 {
            out.push(b + 32);
        } else {
            out.push(b);
        }
        i = i + 1;
    }
    proof {
        assert(out@ =~= lower_code(code@));
    }
    out
}

/// Uppercase a code for the echo in a response.
pub fn to_upper(code: &Vec<u8>) -> (r: Vec<u8>)
    ensures
        r@ == upper_code(code@),
{
    let mut out: Vec<u8> = Vec::new();
    let mut i: usize = 0;
    while i < code.len()
        invariant
            i <= code.len(),
            out@.len() == i,
            forall|j: int| 0 <= j < i ==> out@[j] == upper_byte(code@[j]),
        decreases code.len() - i,
    {
        let b = code[i];
        if 97 <= b && b <= 122 {
            out.push(b - 32);
        } else {
            out.push(b);
        }
        i = i + 1;
    }
    proof {
        assert(out@ =~= upper_code(code@));
    }
    out
}

/// Byte-string equality.
pub fn bytes_eq(a: &Vec<u8>, b: &Vec<u8>) -> (r: bool)
    ensures
        r == (a@ == b@),
{
    if a.len() != b.len() {
        proof {
            assert(a@.len() != b@.len());
        }
        return false;
    }
    let mut i: usize = 0;
    while i < a.len()
        invariant
            i <= a.len(),
            a@.len() == b@.len(),
            forall|j: int| 0 <= j < i ==> a@[j] == b@[j],
        decreases a.len() - i,
    {
        if a[i] != b[i] {
            return false;
        }
        i = i + 1;
    }
    proof {
        assert(a@ =~= b@);
    }
    true
}

/// Copy a byte string.
pub fn copy_bytes(v: &Vec<u8>) -> (r: Vec<u8>)
    ensures
        r@ == v@,
{
    let mut out: Vec<u8> = Vec::new();
    let mut i: usize = 0;
    while i < v.len()
        invariant
            i <= v.len(),
            out@.len() == i,
            forall|j: int| 0 <= j < i ==> out@[j] == v@[j],
        decreases v.len() - i,
    {
        out.push(v[i]);
        i = i + 1;
    }
    proof {
        assert(out@ =~= v@);
    }
    out
}

/// Lowercasing is idempotent: a code already in lowercase form is left
/// exactly as it is, so a mixed-case request and its lowercased twin
/// normalize to the same lookup key.
pub proof fn lemma_lower_idempotent(s: Seq<u8>)
    ensures
        lower_code(lower_code(s)) == lower_code(s),
{
    assert(lower_code(lower_code(s)) =~= lower_code(s));
}

/// The uppercase echo does not depend on the input's case: uppercasing a
/// code and uppercasing its lowercase form give the same bytes.
pub proof fn lemma_upper_after_lower(s: Seq<u8>)
    ensures
        upper_code(lower_code(s)) == upper_code(s),
{
    assert(upper_code(lower_code(s)) =~= upper_code(s));
}

} // verus!
