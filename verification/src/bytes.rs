//! Small verified helpers for moving bytes between slices, vectors and arrays.
use vstd::prelude::*;

verus! {

/// Appends all of `s` to `v`.
pub fn append_bytes(v: &mut Vec<u8>, s: &[u8])
    ensures
        final(v)@ == old(v)@ + s@,
{
    let mut i: usize = 0;
    while i < s.len()
        invariant
            i <= s@.len(),
            v@ == old(v)@ + s@.subrange(0, i as int),
        decreases s@.len() - i,
    {
        v.push(s[i]);
        i = i + 1;
        assert(v@ =~= old(v)@ + s@.subrange(0, i as int));
    }
    assert(s@.subrange(0, s@.len() as int) =~= s@);
}

/// The bytes `s[start..start + 32]` as an array.
pub fn array32_at(s: &[u8], start: usize) -> (a: [u8; 32])
    requires
        start + 32 <= s@.len(),
    ensures
        a@ == s@.subrange(start as int, start + 32),
{
    let mut a = [0u8; 32];
    let mut i: usize = 0;
    while i < 32
        invariant
            i <= 32,
            start + 32 <= s.len(),
            forall|j: int| 0 <= j < i ==> a@[j] == s@[start + j],
        decreases 32 - i,
    {
        a[i] = s[start + i];
        i = i + 1;
    }
    assert(a@ =~= s@.subrange(start as int, start + 32));
    a
}

/// The bytes `s[start..start + 24]` as an array.
pub fn array24_at(s: &[u8], start: usize) -> (a: [u8; 24])
    requires
        start + 24 <= s@.len(),
    ensures
        a@ == s@.subrange(start as int, start + 24),
{
    let mut a = [0u8; 24];
    let mut i: usize = 0;
    while i < 24
        invariant
            i <= 24,
            start + 24 <= s.len(),
            forall|j: int| 0 <= j < i ==> a@[j] == s@[start + j],
        decreases 24 - i,
    {
        a[i] = s[start + i];
        i = i + 1;
    }
    assert(a@ =~= s@.subrange(start as int, start + 24));
    a
}

/// The bytes `s[start..]` as a new vector.
pub fn tail_from(s: &[u8], start: usize) -> (v: Vec<u8>)
    requires
        start <= s@.len(),
    ensures
        v@ == s@.subrange(start as int, s@.len() as int),
{
    let mut v: Vec<u8> = Vec::new();
    let mut i: usize = start;
    while i < s.len()
        invariant
            start <= i <= s@.len(),
            v@ == s@.subrange(start as int, i as int),
        decreases s@.len() - i,
    {
        v.push(s[i]);
        i = i + 1;
        assert(v@ =~= s@.subrange(start as int, i as int));
    }
    v
}

} // verus!
