//! Byte layouts of the signed message: fixed-width little-endian integers and
//! length prefixes in unsigned LEB128.

use vstd::prelude::*;

verus! {

/// `256` to the power `n`.
pub open spec fn pow256(n: nat) -> nat
    decreases n,
{
    if n == 0 {
        1
    } else {
        256 * pow256((n - 1) as nat)
    }
}

/// The `n` least significant bytes of `x`, least significant first.
pub open spec fn le_bytes(x: nat, n: nat) -> Seq<u8>
    decreases n,
{
    if n == 0 {
        seq![]
    } else {
        seq![(x % 256) as u8] + le_bytes(x / 256, (n - 1) as nat)
    }
}

/// Unsigned LEB128: seven bits per byte, least significant group first, the
/// high bit set on every byte but the last.
pub open spec fn uleb128(x: nat) -> Seq<u8>
    decreases x,
{
    if x < 128 {
        seq![x as u8]
    } else {
        seq![(x % 128 + 128) as u8] + uleb128(x / 128)
    }
}

pub proof fn lemma_le_bytes_len(x: nat, n: nat)
    ensures
        le_bytes(x, n).len() == n,
    decreases n,
{
    if n > 0 {
        lemma_le_bytes_len(x / 256, (n - 1) as nat);
    }
}

/// Below `256^n`, the `n` little-endian bytes determine the value.
pub proof fn lemma_le_bytes_injective(x: nat, y: nat, n: nat)
    requires
        x < pow256(n),
        y < pow256(n),
        le_bytes(x, n) == le_bytes(y, n),
    ensures
        x == y,
    decreases n,
{
    if n > 0 {
        let m = (n - 1) as nat;
        let p = pow256(m);
        let tx = le_bytes(x / 256, m);
        let ty = le_bytes(y / 256, m);
        assert(le_bytes(x, n)[0] == (x % 256) as u8);
        assert(le_bytes(y, n)[0] == (y % 256) as u8);
        assert(x % 256 == y % 256);
        assert(le_bytes(x, n).drop_first() =~= tx);
        assert(le_bytes(y, n).drop_first() =~= ty);
        assert(x / 256 < p) by (nonlinear_arith)
            requires
                x < 256 * p,
        ;
        assert(y / 256 < p) by (nonlinear_arith)
            requires
                y < 256 * p,
        ;
        lemma_le_bytes_injective(x / 256, y / 256, m);
    }
}

/// Appends the eight little-endian bytes of `x`.
pub fn push_u64_le(out: &mut Vec<u8>, x: u64)
    ensures
        final(out)@ == old(out)@ + le_bytes(x as nat, 8),
{
    let ghost start = out@;
    let mut v: u64 = x;
    let mut i: usize = 0;
    while i < 8
        invariant
            i <= 8,
            out@ + le_bytes(v as nat, (8 - i) as nat) == start + le_bytes(x as nat, 8),
        decreases 8 - i,
    {
        let ghost before = out@;
        let ghost rest = le_bytes(v as nat / 256, (8 - i - 1) as nat);
        out.push((v % 256) as u8);
        assert(le_bytes(v as nat, (8 - i) as nat) == seq![(v as nat % 256) as u8] + rest);
        assert(out@ + rest =~= before + (seq![(v as nat % 256) as u8] + rest));
        v = v / 256;
        i = i + 1;
    }
    assert(out@ + le_bytes(v as nat, 0) =~= out@);
}

/// Appends the unsigned LEB128 form of `x`.
pub fn push_uleb128(out: &mut Vec<u8>, x: usize)
    ensures
        final(out)@ == old(out)@ + uleb128(x as nat),
{
    let ghost start = out@;
    let mut v: usize = x;
    while v >= 128
        invariant
            out@ + uleb128(v as nat) == start + uleb128(x as nat),
        decreases v,
    {
        let ghost before = out@;
        let ghost rest = uleb128(v as nat / 128);
        out.push((v % 128 + 128) as u8);
        assert(uleb128(v as nat) == seq![(v as nat % 128 + 128) as u8] + rest);
        assert(out@ + rest =~= before + (seq![(v as nat % 128 + 128) as u8] + rest));
        v = v / 128;
    }
    out.push(v as u8);
    assert(out@ =~= start + uleb128(x as nat));
}

/// Appends `bytes` as they are.
pub fn push_bytes(out: &mut Vec<u8>, bytes: &[u8])
    ensures
        final(out)@ == old(out)@ + bytes@,
{
    let ghost start = out@;
    let mut i: usize = 0;
    while i < bytes.len()
        invariant
            i <= bytes@.len(),
            out@ == start + bytes@.subrange(0, i as int),
        decreases bytes@.len() - i,
    {
        out.push(bytes[i]);
        assert(bytes@.subrange(0, i + 1) =~= bytes@.subrange(0, i as int).push(bytes@[i as int]));
        i = i + 1;
    }
    assert(bytes@.subrange(0, bytes@.len() as int) =~= bytes@);
}

} // verus!
