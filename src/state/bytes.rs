use vstd::prelude::*;

verus! {

/// `256` to the power `n`.
pub open spec fn pow256(n: nat) -> nat
    decreases n,
{
    if n == 0 {
        1
    } else {
        256 * pow256((n - 1) as nat)
    }
}

/// The `n` low-order bytes of `v`, least significant first.
pub open spec fn le_bytes(v: nat, n: nat) -> Seq<u8>
    decreases n,
{
    if n == 0 {
        Seq::empty()
    } else {
        seq![(v % 256) as u8] + le_bytes(v / 256, (n - 1) as nat)
    }
}

/// The number whose bytes, least significant first, are `s`.
pub open spec fn le_value(s: Seq<u8>) -> nat
    decreases s.len(),
{
    if s.len() == 0 {
        0
    } else {
        s[0] as nat + 256 * le_value(s.drop_first())
    }
}

/// The unsigned 64-bit pattern of a signed value (two's complement).
pub open spec fn i64_bits(v: i64) -> nat {
    if v >= 0 {
        v as nat
    } else {
        (v + 0x1_0000_0000_0000_0000) as nat
    }
}

/// The signed value of a 64-bit pattern (two's complement).
pub open spec fn i64_from_bits(b: nat) -> int {
    if b < 0x8000_0000_0000_0000 {
        b as int
    } else {
        b - 0x1_0000_0000_0000_0000
    }
}

pub proof fn lemma_le_bytes_len(v: nat, n: nat)
    ensures
        le_bytes(v, n).len() == n,
    decreases n,
{
    if n > 0 {
        lemma_le_bytes_len(v / 256, (n - 1) as nat);
    }
}

/// Encoding a value that fits in `n` bytes and reading it back gives it again.
pub proof fn lemma_le_value_of_bytes(v: nat, n: nat)
    requires
        v < pow256(n),
    ensures
        le_value(le_bytes(v, n)) == v,
    decreases n,
{
    if n > 0 {
        let p = pow256((n - 1) as nat);
        assert(v / 256 < p) by (nonlinear_arith)
            requires
                v < 256 * p,
        ;
        lemma_le_value_of_bytes(v / 256, (n - 1) as nat);
        let s = le_bytes(v, n);
        assert(s.drop_first() =~= le_bytes(v / 256, (n - 1) as nat));
        assert(v == v % 256 + 256 * (v / 256)) by (nonlinear_arith);
    }
}

/// Reading `n` bytes as a number and encoding it again gives the bytes back,
/// and the number fits in `n` bytes.
pub proof fn lemma_le_bytes_of_value(s: Seq<u8>)
    ensures
        le_bytes(le_value(s), s.len()) == s,
        le_value(s) < pow256(s.len()),
    decreases s.len(),
{
    if s.len() > 0 {
        let t = s.drop_first();
        lemma_le_bytes_of_value(t);
        let v = le_value(s);
        let w = le_value(t);
        let b = s[0] as nat;
        assert(v % 256 == b && v / 256 == w) by (nonlinear_arith)
            requires
                v == b + 256 * w,
                b < 256,
        ;
        assert(le_bytes(v, s.len()) =~= s);
        let p = pow256(t.len());
        assert(v < 256 * p) by (nonlinear_arith)
            requires
                v == b + 256 * w,
                b < 256,
                w < p,
        ;
    }
}

/// Equal encodings of two values that fit in `n` bytes come from equal values.
pub proof fn lemma_le_bytes_injective(a: nat, b: nat, n: nat)
    requires
        a < pow256(n),
        b < pow256(n),
        le_bytes(a, n) == le_bytes(b, n),
    ensures
        a == b,
{
    lemma_le_value_of_bytes(a, n);
    lemma_le_value_of_bytes(b, n);
}

pub proof fn lemma_pow256_values()
    ensures
        pow256(1) == 0x100,
        pow256(2) == 0x1_0000,
        pow256(4) == 0x1_0000_0000,
        pow256(8) == 0x1_0000_0000_0000_0000,
{
    reveal_with_fuel(pow256, 9);
}

pub proof fn lemma_i64_bits(v: i64)
    ensures
        i64_bits(v) < pow256(8),
        i64_from_bits(i64_bits(v)) == v,
{
    lemma_pow256_values();
}

/// Appends the `n` low-order bytes of `v` to `out`, least significant first.
pub fn push_le(out: &mut Vec<u8>, v: u64, n: usize)
    ensures
        final(out)@ == old(out)@ + le_bytes(v as nat, n as nat),
{
    let ghost start = old(out)@;
    let mut cur: u64 = v;
    let mut k: usize = 0;
    while k < n
        invariant
            k <= n,
            out@ + le_bytes(cur as nat, (n - k) as nat) == start + le_bytes(v as nat, n as nat),
        decreases n - k,
    {
        let ghost before = out@;
        let b: u8 = (cur % 256) as u8;
        out.push(b);
        assert(le_bytes(cur as nat, (n - k) as nat) == seq![b] + le_bytes(
            (cur / 256) as nat,
            (n - k - 1) as nat,
        ));
        assert(out@ + le_bytes((cur / 256) as nat, (n - k - 1) as nat) =~= before + le_bytes(
            cur as nat,
            (n - k) as nat,
        ));
        cur = cur / 256;
        k = k + 1;
    }
    assert(le_bytes(cur as nat, 0) =~= Seq::<u8>::empty());
    assert(out@ =~= out@ + le_bytes(cur as nat, 0));
}

/// The number stored in `src[start..start + n]`, least significant byte first.
pub fn read_le(src: &[u8], start: usize, n: usize) -> (r: u64)
    requires
        start + n <= src@.len(),
        n <= 8,
    ensures
        r == le_value(src@.subrange(start as int, start + n)),
{
    let ghost end = start + n;
    let len: usize = src.len();
    let mut acc: u64 = 0;
    let mut i: usize = n;
    proof {
        lemma_pow256_values();
        assert(src@.subrange(end as int, end as int) =~= Seq::<u8>::empty());
    }
    while i > 0
        invariant
            i <= n <= 8,
            start + n <= src@.len(),
            src@.len() == len,
            end == start + n,
            acc == le_value(src@.subrange(start + i, end as int)),
            acc < pow256((n - i) as nat),
            pow256(8) == 0x1_0000_0000_0000_0000,
        decreases i,
    {
        let b: u8 = src[start + (i - 1)];
        let ghost p = pow256((n - i) as nat);
        proof {
            lemma_pow256_monotonic((n - i + 1) as nat, 8);
            assert(acc * 256 + b < 256 * p) by (nonlinear_arith)
                requires
                    acc < p,
                    b < 256,
            ;
            let s = src@.subrange(start + i - 1, end as int);
            assert(s.drop_first() =~= src@.subrange(start + i, end as int));
        }
        acc = acc * 256 + b as u64;
        i = i - 1;
    }
    acc
}

pub proof fn lemma_pow256_monotonic(a: nat, b: nat)
    requires
        a <= b,
    ensures
        pow256(a) <= pow256(b),
    decreases b,
{
    if a < b {
        lemma_pow256_monotonic(a, (b - 1) as nat);
    }
}

/// The two's-complement pattern of `v`.
pub fn i64_to_bits(v: i64) -> (r: u64)
    ensures
        r == i64_bits(v),
{
    if v >= 0 {
        v as u64
    } else {
        ((v + 9223372036854775807 + 1) as u64) + 9223372036854775808u64
    }
}

/// The signed value of the two's-complement pattern `b`.
pub fn i64_from_u64_bits(b: u64) -> (r: i64)
    ensures
        r == i64_from_bits(b as nat),
{
    if b < 9223372036854775808u64 {
        b as i64
    } else {
        ((b - 9223372036854775808u64) as i64) - 9223372036854775807 - 1
    }
}

} // verus!
