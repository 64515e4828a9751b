//! Byte text: decimal numerals and appending string literals.
use vstd::prelude::*;
use vstd::string::StringSliceAdditionalSpecFns;

verus! {

/// The decimal numeral of `n`, most significant digit first, in ASCII.
pub open spec fn decimal_spec(n: nat) -> Seq<u8>
    decreases n,
{
    if n < 10 {
        seq![(48 + n) as u8]
    } else {
        decimal_spec(n / 10).push((48 + n % 10) as u8)
    }
}

/// The decimal numeral of `n`.
pub fn decimal(n: u64) -> (r: Vec<u8>)
    ensures
        r@ == decimal_spec(n as nat),
    decreases n,
{
    if n < 10 {
        let mut r: Vec<u8> = Vec::new();
        r.push(48 + n as u8);
        assert(r@ =~= decimal_spec(n as nat));
        r
    } else {
        let mut r = decimal(n / 10);
        r.push(48 + (n % 10) as u8);
        r
    }
}

/// Appends the UTF-8 bytes of `s` to `v`.
pub fn push_str(v: &mut Vec<u8>, s: &str)
    ensures
        final(v)@ == old(v)@ + s.spec_bytes(),
{
    let b = s.as_bytes();
    let ghost start = v@;
    let mut i: usize = 0;
    while i < b.len()
        invariant
            i <= b@.len(),
            b@ == s.spec_bytes(),
            v@ == start + b@.subrange(0, i as int),
        decreases b@.len() - i,
    {
        v.push(b[i]);
        i += 1;
        assert(v@ =~= start + b@.subrange(0, i as int));
    }
    assert(b@.subrange(0, b@.len() as int) =~= b@);
}

/// Appends `w` to `v`.
pub fn push_bytes(v: &mut Vec<u8>, w: &Vec<u8>)
    ensures
        final(v)@ == old(v)@ + w@,
{
    let ghost start = v@;
    let mut i: usize = 0;
    while i < w.len()
        invariant
            i <= w@.len(),
            v@ == start + w@.subrange(0, i as int),
        decreases w@.len() - i,
    {
        v.push(w[i]);
        i += 1;
        assert(v@ =~= start + w@.subrange(0, i as int));
    }
    assert(w@.subrange(0, w@.len() as int) =~= w@);
}

} // verus!
