//! Comparing strings by their bytes.
use vstd::prelude::*;
use vstd::string::StringSliceAdditionalSpecFns;

verus! {

/// Whether `a` and `b` hold the same bytes.
pub fn bytes_eq(a: &[u8], b: &[u8]) -> (r: bool)
    ensures
        r == (a@ == b@),
{
    if a.len() != b.len() {
        return false;
    }
    let n = a.len();
    let mut i: usize = 0;
    while i < n
        invariant
            n == a@.len(),
            n == b@.len(),
            i <= n,
            forall|j: int| 0 <= j < i ==> a@[j] == b@[j],
        decreases n - i,
    {
        if a[i] != b[i] {
            return false;
        }
        i = i + 1;
    }
    assert(a@ =~= b@);
    true
}

/// Whether `a` and `b` are the same string.
pub fn str_eq(a: &str, b: &str) -> (r: bool)
    ensures
        r == (a.spec_bytes() == b.spec_bytes()),
{
    bytes_eq(a.as_bytes(), b.as_bytes())
}

/// Whether `o` is present and equals `lit`.
pub fn opt_str_is(o: Option<&str>, lit: &str) -> (r: bool)
    ensures
        r == (o matches Some(s) && s.spec_bytes() == lit.spec_bytes()),
{
    match o {
        Some(s) => str_eq(s, lit),
        None => false,
    }
}

/// Whether `s` is a unique connection name, that is, starts with `:`.
pub fn is_unique_name(s: &str) -> (r: bool)
    ensures
        r == (s.spec_bytes().len() > 0 && s.spec_bytes()[0] == 58u8),
{
    let b = s.as_bytes();
    b.len() > 0 && b[0] == 58u8
}

/// Whether `o` is present and holds the bytes of `lit`.
pub open spec fn opt_is(o: Option<&str>, lit: &str) -> bool {
    o matches Some(s) && s.spec_bytes() == lit.spec_bytes()
}

/// Whether `s` holds the bytes of `lit`.
pub open spec fn str_is(s: &str, lit: &str) -> bool {
    s.spec_bytes() == lit.spec_bytes()
}

/// Whether `s` is a unique connection name (starts with `:`).
pub open spec fn spec_is_unique_name(s: &str) -> bool {
    s.spec_bytes().len() > 0 && s.spec_bytes()[0] == 58u8
}

} // verus!
