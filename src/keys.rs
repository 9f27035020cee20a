use vstd::prelude::*;

verus! {

/// The first `n` little-endian bytes of `x`.
pub open spec fn le_bytes(x: nat, n: nat) -> Seq<u8>
    decreases n,
{
    if n == 0 {
        Seq::empty()
    } else {
        seq![(x % 256) as u8].add(le_bytes(x / 256, (n - 1) as nat))
    }
}

/// Whether two 32-byte keys are the same key.
pub fn keys_equal(a: &[u8; 32], b: &[u8; 32]) -> (r: bool)
    ensures
        r == (a@ == b@),
{
    let mut i: usize = 0;
    while i < 32
        invariant
            i <= 32,
            a@.len() == 32,
            b@.len() == 32,
            forall|j: int| 0 <= j < i ==> a@[j] == b@[j],
        decreases 32 - i,
    {
        if a[i] != b[i] {
            assert(a@[i as int] != b@[i as int]);
            return false;
        }
        i = i + 1;
    }
    assert(a@ =~= b@);
    true
}

/// The eight little-endian bytes of `x`.
pub fn u64_le_bytes(x: u64) -> (r: Vec<u8>)
    ensures
        r@ == le_bytes(x as nat, 8),
{
    let mut out: Vec<u8> = Vec::new();
    let mut v: u64 = x;
    let mut i: usize = 0;
    while i < 8
        invariant
            i <= 8,
            out@.add(le_bytes(v as nat, (8 - i) as nat)) == le_bytes(x as nat, 8),
        decreases 8 - i,
    {
        let byte: u8 = (v % 256) as u8;
        let ghost rest = le_bytes((v / 256) as nat, (8 - i - 1) as nat);
        let ghost before = out@;
        assert(le_bytes(v as nat, (8 - i) as nat) == seq![byte].add(rest));
        out.push(byte);
        assert(out@.add(rest) =~= before.add(seq![byte].add(rest)));
        v = v / 256;
        i = i + 1;
    }
    assert(le_bytes(v as nat, 0) =~= Seq::<u8>::empty());
    assert(out@.add(Seq::<u8>::empty()) =~= out@);
    out
}

} // verus!
