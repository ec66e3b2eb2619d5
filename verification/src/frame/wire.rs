//! Big-endian integers as they appear on the wire.
use vstd::prelude::*;

verus! {

/// The unsigned integer that the bytes of `s` spell in big-endian order.
pub open spec fn be_value(s: Seq<u8>) -> nat
    decreases s.len(),
{
    if s.len() == 0 {
        0
    } else {
        be_value(s.drop_last()) * 256 + s.last() as nat
    }
}

/// The `n` low-order bytes of `v`, most significant first.
pub open spec fn be_bytes(v: nat, n: nat) -> Seq<u8>
    decreases n,
{
    if n == 0 {
        Seq::empty()
    } else {
        be_bytes(v / 256, (n - 1) as nat).push((v % 256) as u8)
    }
}

/// `be_bytes` of `n` bytes has length `n`, and reading it back gives `v` modulo `256^n`.
pub proof fn lemma_be_roundtrip(v: nat, n: nat)
    ensures
        be_bytes(v, n).len() == n,
        be_value(be_bytes(v, n)) == v % pow256(n),
    decreases n,
{
    if n > 0 {
        lemma_be_roundtrip(v / 256, (n - 1) as nat);
        let s = be_bytes(v, n);
        assert(s.drop_last() =~= be_bytes(v / 256, (n - 1) as nat));
        let p = pow256((n - 1) as nat);
        assert(p > 0) by { lemma_pow256_pos((n - 1) as nat); }
        // v = 256 * (v / 256) + v % 256 and (v / 256) % p * 256 + v % 256 == v % (256 * p)
        lemma_mod_split(v, p);
    }
}

/// `256^n`.
pub open spec fn pow256(n: nat) -> nat
    decreases n,
{
    if n == 0 {
        1
    } else {
        256 * pow256((n - 1) as nat)
    }
}

pub proof fn lemma_pow256_pos(n: nat)
    ensures
        pow256(n) > 0,
    decreases n,
{
    if n > 0 {
        lemma_pow256_pos((n - 1) as nat);
    }
}

proof fn lemma_mod_split(v: nat, p: nat)
    requires
        p > 0,
    ensures
        ((v / 256) % p) * 256 + v % 256 == v % (256 * p),
{
    let q = v / 256;
    let r = v % 256;
    assert(v == q * 256 + r);
    let q2 = q / p;
    let r2 = q % p;
    assert(q == q2 * p + r2) by (nonlinear_arith)
        requires
            p > 0,
            q2 == q / p,
            r2 == q % p,
    ;
    assert(v == q2 * (256 * p) + (r2 * 256 + r)) by (nonlinear_arith)
        requires
            v == q * 256 + r,
            q == q2 * p + r2,
    ;
    assert(0 <= r2 * 256 + r < 256 * p) by (nonlinear_arith)
        requires
            0 <= r2 < p,
            0 <= r < 256,
    ;
    vstd::arithmetic::div_mod::lemma_fundamental_div_mod_converse(
        v as int,
        (256 * p) as int,
        q2 as int,
        (r2 * 256 + r) as int,
    );
}

/// A value below `256^n` survives the trip through `n` big-endian bytes unchanged.
pub proof fn lemma_be_small_roundtrip(v: nat, n: nat)
    requires
        v < pow256(n),
    ensures
        be_bytes(v, n).len() == n,
        be_value(be_bytes(v, n)) == v,
{
    lemma_be_roundtrip(v, n);
    vstd::arithmetic::div_mod::lemma_small_mod(v, pow256(n));
}

/// Reads the big-endian integer spelled by `buf[at..at + 4]`.
pub fn read_u32(buf: &[u8], at: usize) -> (r: u32)
    requires
        at + 4 <= buf@.len(),
    ensures
        r as nat == be_value(buf@.subrange(at as int, at + 4)),
{
    let s = Ghost(buf@.subrange(at as int, at + 4));
    proof {
        reveal_with_fuel(be_value, 5);
        assert(s@.drop_last() =~= buf@.subrange(at as int, at + 3));
        assert(s@.drop_last().drop_last() =~= buf@.subrange(at as int, at + 2));
        assert(s@.drop_last().drop_last().drop_last() =~= buf@.subrange(at as int, at + 1));
        assert(s@.drop_last().drop_last().drop_last().drop_last() =~= Seq::<u8>::empty());
    }
    (buf[at] as u32) * 0x100_0000 + (buf[at + 1] as u32) * 0x1_0000 + (buf[at + 2] as u32) * 0x100
        + (buf[at + 3] as u32)
}

/// Appends `v` as one byte.
pub fn put_u8(dst: &mut Vec<u8>, v: u8)
    ensures
        final(dst)@ == old(dst)@ + be_bytes(v as nat, 1),
{
    proof {
        reveal_with_fuel(be_bytes, 2);
        assert(be_bytes(v as nat, 1) =~= seq![v]);
    }
    dst.push(v);
}

/// Appends `v` as two big-endian bytes.
pub fn put_u16(dst: &mut Vec<u8>, v: u16)
    ensures
        final(dst)@ == old(dst)@ + be_bytes(v as nat, 2),
{
    let lo = (v % 256) as u8;
    let hi = (v / 256) as u8;
    proof {
        reveal_with_fuel(be_bytes, 3);
        assert(be_bytes(v as nat, 2) =~= seq![hi, lo]);
    }
    dst.push(hi);
    dst.push(lo);
}

/// Appends the low three bytes of `v`, most significant first.
pub fn put_u24(dst: &mut Vec<u8>, v: u64)
    ensures
        final(dst)@ == old(dst)@ + be_bytes(v as nat, 3),
{
    let b2 = (v % 256) as u8;
    let t1 = v / 256;
    let b1 = (t1 % 256) as u8;
    let t2 = t1 / 256;
    let b0 = (t2 % 256) as u8;
    proof {
        reveal_with_fuel(be_bytes, 4);
        assert(be_bytes(v as nat, 3) =~= seq![b0, b1, b2]);
    }
    dst.push(b0);
    dst.push(b1);
    dst.push(b2);
}

/// Appends `v` as four big-endian bytes.
pub fn put_u32(dst: &mut Vec<u8>, v: u32)
    ensures
        final(dst)@ == old(dst)@ + be_bytes(v as nat, 4),
{
    let b3 = (v % 256) as u8;
    let t1 = v / 256;
    let b2 = (t1 % 256) as u8;
    let t2 = t1 / 256;
    let b1 = (t2 % 256) as u8;
    let t3 = t2 / 256;
    let b0 = (t3 % 256) as u8;
    proof {
        reveal_with_fuel(be_bytes, 5);
        assert(be_bytes(v as nat, 4) =~= seq![b0, b1, b2, b3]);
    }
    dst.push(b0);
    dst.push(b1);
    dst.push(b2);
    dst.push(b3);
}

/// Reads the big-endian integer spelled by `buf[at..at + 3]`.
pub fn read_u24(buf: &[u8], at: usize) -> (r: u32)
    requires
        at + 3 <= buf@.len(),
    ensures
        r as nat == be_value(buf@.subrange(at as int, at + 3)),
        r < 0x100_0000,
{
    let s = Ghost(buf@.subrange(at as int, at + 3));
    proof {
        reveal_with_fuel(be_value, 4);
        assert(s@.drop_last() =~= buf@.subrange(at as int, at + 2));
        assert(s@.drop_last().drop_last() =~= buf@.subrange(at as int, at + 1));
        assert(s@.drop_last().drop_last().drop_last() =~= Seq::<u8>::empty());
    }
    (buf[at] as u32) * 0x1_0000 + (buf[at + 1] as u32) * 0x100 + (buf[at + 2] as u32)
}

/// Reads the big-endian integer spelled by `buf[at..at + 2]`.
pub fn read_u16(buf: &[u8], at: usize) -> (r: u16)
    requires
        at + 2 <= buf@.len(),
    ensures
        r as nat == be_value(buf@.subrange(at as int, at + 2)),
{
    let s = Ghost(buf@.subrange(at as int, at + 2));
    proof {
        reveal_with_fuel(be_value, 3);
        assert(s@.drop_last() =~= buf@.subrange(at as int, at + 1));
        assert(s@.drop_last().drop_last() =~= Seq::<u8>::empty());
    }
    (buf[at] as u16) * 0x100 + (buf[at + 1] as u16)
}

/// The `n` low-order bytes of a value depend only on it modulo `256^n`.
pub proof fn lemma_be_bytes_mod(v: nat, n: nat)
    ensures
        pow256(n) > 0,
        be_bytes(v, n) == be_bytes(v % pow256(n), n),
    decreases n,
{
    lemma_pow256_pos(n);
    if n > 0 {
        let p = pow256((n - 1) as nat);
        lemma_pow256_pos((n - 1) as nat);
        let w = v % pow256(n);
        vstd::arithmetic::div_mod::lemma_mod_breakdown(v as int, 256, p as int);
        assert(w == 256 * ((v / 256) % p) + v % 256);
        assert(w / 256 == (v / 256) % p && w % 256 == v % 256) by {
            vstd::arithmetic::div_mod::lemma_fundamental_div_mod_converse(
                w as int,
                256,
                ((v / 256) % p) as int,
                (v % 256) as int,
            );
        }
        lemma_be_bytes_mod(v / 256, (n - 1) as nat);
    }
}

/// Appends `n` zero bytes.
pub fn put_zeros(dst: &mut Vec<u8>, n: u8)
    ensures
        final(dst)@ == old(dst)@ + Seq::new(n as nat, |i: int| 0u8),
{
    let ghost start = dst@;
    let mut i: u8 = 0;
    while i < n
        invariant
            i <= n,
            dst@ == start + Seq::new(i as nat, |k: int| 0u8),
        decreases n - i,
    {
        dst.push(0);
        proof {
            assert(Seq::new((i + 1) as nat, |k: int| 0u8) =~= Seq::new(i as nat, |k: int| 0u8).push(0u8));
        }
        i = i + 1;
    }
}

/// Copies a byte slice into a new vector.
pub fn slice_to_vec(src: &[u8]) -> (r: Vec<u8>)
    ensures
        r@ == src@,
{
    let mut v: Vec<u8> = Vec::new();
    put_slice(&mut v, src);
    v
}

/// Appends the bytes of `src`.
pub fn put_slice(dst: &mut Vec<u8>, src: &[u8])
    ensures
        final(dst)@ == old(dst)@ + src@,
{
    let ghost start = dst@;
    let mut i: usize = 0;
    while i < src.len()
        invariant
            i <= src@.len(),
            dst@ == start + src@.subrange(0, i as int),
        decreases src@.len() - i,
    {
        dst.push(src[i]);
        proof {
            assert(src@.subrange(0, i + 1) =~= src@.subrange(0, i as int).push(src@[i as int]));
        }
        i = i + 1;
    }
    proof {
        assert(src@.subrange(0, src@.len() as int) =~= src@);
    }
}

} // verus!
