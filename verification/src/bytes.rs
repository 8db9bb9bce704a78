//! Little-endian encodings of natural numbers as bytes and as 64-bit limbs.
use vstd::prelude::*;

verus! {

/// `256^n`.
pub open spec fn pow256(n: nat) -> nat
    decreases n,
{
    if n == 0 {
        1
    } else {
        256 * pow256((n - 1) as nat)
    }
}

/// The number that a little-endian byte string stands for.
pub open spec fn le_bytes_nat(s: Seq<u8>) -> nat
    decreases s.len(),
{
    if s.len() == 0 {
        0
    } else {
        s[0] as nat + 256 * le_bytes_nat(s.drop_first())
    }
}

/// The number that little-endian 64-bit limbs stand for.
pub open spec fn le_limbs_nat(s: Seq<u64>) -> nat
    decreases s.len(),
{
    if s.len() == 0 {
        0
    } else {
        s[0] as nat + pow256(8) * le_limbs_nat(s.drop_first())
    }
}

/// The `len` low bytes of `n`, least significant first.
pub open spec fn nat_to_le_bytes(n: nat, len: nat) -> Seq<u8>
    decreases len,
{
    if len == 0 {
        Seq::empty()
    } else {
        seq![(n % 256) as u8] + nat_to_le_bytes(n / 256, (len - 1) as nat)
    }
}

pub proof fn lemma_pow256_8()
    ensures
        pow256(8) == 0x1_0000_0000_0000_0000,
{
    reveal_with_fuel(pow256, 9);
}

/// `256^32 = 2^256`: 32 bytes hold the numbers below `2^256`.
pub proof fn lemma_pow256_32()
    ensures
        pow256(32) == 0x1_0000_0000_0000_0000_0000_0000_0000_0000_0000_0000_0000_0000_0000_0000_0000_0000nat,
{
    lemma_pow256_8();
    lemma_pow256_adds(8, 8);
    lemma_pow256_adds(8, 16);
    lemma_pow256_adds(8, 24);
    assert(pow256(16) == pow256(8) * pow256(8));
    assert(pow256(24) == pow256(8) * pow256(16));
    assert(pow256(32) == pow256(8) * pow256(24));
}

pub proof fn lemma_pow256_positive(n: nat)
    ensures
        pow256(n) >= 1,
    decreases n,
{
    if n > 0 {
        lemma_pow256_positive((n - 1) as nat);
    }
}

pub proof fn lemma_pow256_adds(a: nat, b: nat)
    ensures
        pow256(a + b) == pow256(a) * pow256(b),
    decreases a,
{
    if a > 0 {
        let a1 = (a - 1) as nat;
        lemma_pow256_adds(a1, b);
        assert((a + b - 1) as nat == a1 + b);
        assert(pow256(a + b) == 256 * pow256(a1 + b));
        vstd::arithmetic::mul::lemma_mul_is_associative(256, pow256(a1) as int, pow256(b) as int);
        assert(pow256(a) == 256 * pow256(a1));
        assert(pow256(a + b) == 256 * (pow256(a1) * pow256(b)));
        assert(pow256(a + b) == (256 * pow256(a1)) * pow256(b));
    } else {
        assert(pow256(0) == 1);
        assert(a + b == b);
    }
}

/// A byte string of length `n` stands for a number below `256^n`.
pub proof fn lemma_le_bytes_bound(s: Seq<u8>)
    ensures
        le_bytes_nat(s) < pow256(s.len()),
    decreases s.len(),
{
    if s.len() > 0 {
        lemma_le_bytes_bound(s.drop_first());
    }
}

/// The number of a concatenation: the low part, then the high part shifted.
pub proof fn lemma_le_bytes_append(a: Seq<u8>, b: Seq<u8>)
    ensures
        le_bytes_nat(a + b) == le_bytes_nat(a) + pow256(a.len()) * le_bytes_nat(b),
    decreases a.len(),
{
    if a.len() == 0 {
        assert(a + b =~= b);
        assert(pow256(0) == 1);
    } else {
        let rest = a.drop_first();
        assert((a + b).drop_first() =~= rest + b);
        lemma_le_bytes_append(rest, b);
        vstd::arithmetic::mul::lemma_mul_is_associative(
            256,
            pow256(rest.len()) as int,
            le_bytes_nat(b) as int,
        );
        vstd::arithmetic::mul::lemma_mul_is_distributive_add(
            256,
            le_bytes_nat(rest) as int,
            (pow256(rest.len()) * le_bytes_nat(b)) as int,
        );
        assert(pow256(a.len()) == 256 * pow256(rest.len()));
        assert((a + b)[0] == a[0]);
    }
}

/// All-zero bytes stand for zero.
pub proof fn lemma_le_bytes_zeros(s: Seq<u8>)
    requires
        forall|i: int| 0 <= i < s.len() ==> s[i] == 0,
    ensures
        le_bytes_nat(s) == 0,
    decreases s.len(),
{
    if s.len() > 0 {
        lemma_le_bytes_zeros(s.drop_first());
    }
}

/// Writing a number and reading it back gives the number, when it fits.
pub proof fn lemma_nat_to_le_bytes_roundtrip(n: nat, len: nat)
    requires
        n < pow256(len),
    ensures
        nat_to_le_bytes(n, len).len() == len,
        le_bytes_nat(nat_to_le_bytes(n, len)) == n,
    decreases len,
{
    if len > 0 {
        let s = nat_to_le_bytes(n, len);
        assert(n / 256 < pow256((len - 1) as nat)) by {
            vstd::arithmetic::div_mod::lemma_fundamental_div_mod(n as int, 256);
        }
        lemma_nat_to_le_bytes_roundtrip(n / 256, (len - 1) as nat);
        assert(s.drop_first() =~= nat_to_le_bytes(n / 256, (len - 1) as nat));
        vstd::arithmetic::div_mod::lemma_fundamental_div_mod(n as int, 256);
    }
}

/// Reading bytes and writing the number back gives the bytes.
pub proof fn lemma_le_bytes_to_nat_roundtrip(s: Seq<u8>)
    ensures
        nat_to_le_bytes(le_bytes_nat(s), s.len()) == s,
    decreases s.len(),
{
    if s.len() > 0 {
        let rest = s.drop_first();
        lemma_le_bytes_to_nat_roundtrip(rest);
        let n = le_bytes_nat(s);
        assert(n % 256 == s[0] as nat && n / 256 == le_bytes_nat(rest)) by {
            vstd::arithmetic::div_mod::lemma_fundamental_div_mod_converse(
                n as int,
                256,
                le_bytes_nat(rest) as int,
                s[0] as int,
            );
        }
        assert(nat_to_le_bytes(n, s.len()) =~= s);
    }
}

/// Two byte strings of one length that stand for one number are equal.
pub proof fn lemma_le_bytes_injective(a: Seq<u8>, b: Seq<u8>)
    requires
        a.len() == b.len(),
        le_bytes_nat(a) == le_bytes_nat(b),
    ensures
        a == b,
{
    lemma_le_bytes_to_nat_roundtrip(a);
    lemma_le_bytes_to_nat_roundtrip(b);
}

/// Reads eight little-endian bytes starting at `start` as a `u64`.
pub fn u64_from_le_bytes(bytes: &[u8], start: usize) -> (r: u64)
    requires
        start + 8 <= bytes@.len(),
    ensures
        r as nat == le_bytes_nat(bytes@.subrange(start as int, start + 8)),
{
    let n = bytes.len();
    let mut v: u64 = 0;
    let mut k: usize = 8;
    proof {
        assert(bytes@.subrange(start + 8, start + 8) =~= Seq::<u8>::empty());
        lemma_pow256_8();
    }
    while k > 0
        invariant
            k <= 8,
            start + 8 <= bytes@.len(),
            n == bytes@.len(),
            v as nat == le_bytes_nat(bytes@.subrange(start + k, start + 8)),
            pow256(8) == 0x1_0000_0000_0000_0000,
        decreases k,
    {
        let ghost tail = bytes@.subrange(start + k, start + 8);
        proof {
            lemma_le_bytes_bound(tail);
            lemma_pow256_adds((8 - k) as nat, k as nat);
            lemma_pow256_positive(k as nat);
            lemma_pow256_adds((8 - k + 1) as nat, (k - 1) as nat);
            lemma_pow256_positive((k - 1) as nat);
        }
        let b = bytes[start + k - 1];
        assert(v * 256 + b < 0x1_0000_0000_0000_0000) by (nonlinear_arith)
            requires
                v < pow256((8 - k) as nat),
                pow256((8 - k) as nat) * 256 == pow256((8 - k + 1) as nat),
                pow256((8 - k + 1) as nat) * pow256((k - 1) as nat) == 0x1_0000_0000_0000_0000,
                pow256((k - 1) as nat) >= 1,
                b < 256,
        ;
        proof {
            assert(pow256((8 - k + 1) as nat) == 256 * pow256((8 - k) as nat));
            let whole = bytes@.subrange(start + k - 1, start + 8);
            assert(whole.drop_first() =~= tail);
        }
        v = v * 256 + b as u64;
        k = k - 1;
    }
    v
}

/// Writes `v` as eight little-endian bytes.
pub fn u64_to_le_bytes(v: u64) -> (r: [u8; 8])
    ensures
        r@ == nat_to_le_bytes(v as nat, 8),
        le_bytes_nat(r@) == v,
{
    let mut r = [0u8; 8];
    let mut x: u64 = v;
    let mut i: usize = 0;
    proof {
        assert(r@.subrange(0, 0) =~= Seq::<u8>::empty());
        assert(le_bytes_nat(Seq::<u8>::empty()) == 0);
        assert(pow256(0) == 1);
    }
    while i < 8
        invariant
            i <= 8,
            r@.len() == 8,
            le_bytes_nat(r@.subrange(0, i as int)) + pow256(i as nat) * x == v,
        decreases 8 - i,
    {
        let ghost before = r@;
        r[i] = (x % 256) as u8;
        proof {
            assert(r@.subrange(0, i + 1) =~= before.subrange(0, i as int) + seq![(x % 256) as u8]);
            let one = seq![(x % 256) as u8];
            assert(one.drop_first() =~= Seq::<u8>::empty());
            assert(le_bytes_nat(one.drop_first()) == 0);
            assert(le_bytes_nat(one) == (x % 256) as nat);
            lemma_le_bytes_append(before.subrange(0, i as int), one);
            assert(pow256((i + 1) as nat) == 256 * pow256(i as nat));
            let p = pow256(i as nat) as int;
            assert(p * (x as int) == p * ((x % 256) as int) + (256 * p) * ((x / 256) as int))
                by (nonlinear_arith)
                requires
                    x as int == 256 * (x as int / 256) + x as int % 256,
            ;
        }
        x = x / 256;
        i = i + 1;
    }
    proof {
        assert(r@.subrange(0, 8) =~= r@);
        lemma_pow256_8();
        assert(x == 0) by (nonlinear_arith)
            requires
                le_bytes_nat(r@) + 0x1_0000_0000_0000_0000 * x == v,
                v < 0x1_0000_0000_0000_0000,
        ;
        lemma_le_bytes_to_nat_roundtrip(r@);
    }
    r
}

/// Reads 32 little-endian bytes starting at `start` as four 64-bit limbs.
pub fn le_bytes_to_limbs(bytes: &[u8], start: usize) -> (r: [u64; 4])
    requires
        start + 32 <= bytes@.len(),
    ensures
        le_limbs_nat(r@) == le_bytes_nat(bytes@.subrange(start as int, start + 32)),
{
    let n = bytes.len();
    let a = u64_from_le_bytes(bytes, start);
    let b = u64_from_le_bytes(bytes, start + 8);
    let c = u64_from_le_bytes(bytes, start + 16);
    let d = u64_from_le_bytes(bytes, start + 24);
    let r = [a, b, c, d];
    proof {
        let s = bytes@.subrange(start as int, start + 32);
        let s0 = bytes@.subrange(start as int, start + 8);
        let s1 = bytes@.subrange(start + 8, start + 16);
        let s2 = bytes@.subrange(start + 16, start + 24);
        let s3 = bytes@.subrange(start + 24, start + 32);
        assert(s =~= s0 + (s1 + (s2 + s3)));
        lemma_le_bytes_append(s2, s3);
        lemma_le_bytes_append(s1, s2 + s3);
        lemma_le_bytes_append(s0, s1 + (s2 + s3));
        let l = r@;
        assert(l.drop_first().drop_first().drop_first().drop_first() =~= Seq::<u64>::empty());
        assert(le_limbs_nat(l.drop_first().drop_first().drop_first().drop_first()) == 0);
        assert(le_limbs_nat(l.drop_first().drop_first().drop_first()) == d as nat + pow256(8) * 0);
        assert(le_limbs_nat(l.drop_first().drop_first()) == c as nat + pow256(8) * le_limbs_nat(
            l.drop_first().drop_first().drop_first(),
        ));
        assert(le_limbs_nat(l.drop_first()) == b as nat + pow256(8) * le_limbs_nat(
            l.drop_first().drop_first(),
        ));
        assert(le_limbs_nat(l) == a as nat + pow256(8) * le_limbs_nat(l.drop_first()));
    }
    r
}

} // verus!
