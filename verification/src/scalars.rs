use vstd::prelude::*;

verus! {

/// 256 raised to the power `n`: the weight of the byte at position `n` of a
/// little-endian byte string.
pub open spec fn pow256(n: nat) -> nat
    decreases n,
{
    if n == 0 {
        1
    } else {
        256 * pow256((n - 1) as nat)
    }
}

/// The integer value of a little-endian byte string.
pub open spec fn le_value(s: Seq<u8>) -> nat
    decreases s.len(),
{
    if s.len() == 0 {
        0
    } else {
        s[0] as nat + 256 * le_value(s.skip(1))
    }
}

proof fn lemma_pow256_pos(n: nat)
    ensures
        pow256(n) >= 1,
    decreases n,
{
    if n > 0 {
        lemma_pow256_pos((n - 1) as nat);
    }
}

proof fn lemma_le_value_bound(s: Seq<u8>)
    ensures
        le_value(s) < pow256(s.len()),
    decreases s.len(),
{
    if s.len() > 0 {
        lemma_le_value_bound(s.skip(1));
        let x = le_value(s.skip(1));
        let p = pow256((s.len() - 1) as nat);
        assert(256 * (x + 1) <= 256 * p) by (nonlinear_arith)
            requires
                x + 1 <= p,
        ;
    }
}

proof fn lemma_le_value_split(s: Seq<u8>, i: int)
    requires
        0 <= i <= s.len(),
    ensures
        le_value(s) == le_value(s.take(i)) + pow256(i as nat) * le_value(s.skip(i)),
    decreases i,
{
    if i == 0 {
        assert(s.take(0) =~= Seq::<u8>::empty());
        assert(s.skip(0) =~= s);
        assert(le_value(s.take(0)) == 0);
        assert(pow256(0) == 1);
        let x = le_value(s.skip(i));
        assert(pow256(i as nat) * x == x) by (nonlinear_arith)
            requires
                pow256(i as nat) == 1,
        ;
    } else {
        lemma_le_value_split(s.skip(1), i - 1);
        assert(s.skip(1).take(i - 1) =~= s.take(i).skip(1));
        assert(s.skip(1).skip(i - 1) =~= s.skip(i));
        let a = le_value(s.take(i).skip(1));
        let b = le_value(s.skip(i));
        let p = pow256((i - 1) as nat);
        assert(le_value(s.skip(1)) == a + p * b);
        assert(s.take(i)[0] == s[0]);
        assert(le_value(s.take(i)) == s[0] as nat + 256 * a);
        assert(s[0] as nat + 256 * (a + p * b) == (s[0] as nat + 256 * a) + (256 * p) * b)
            by (nonlinear_arith);
        assert(pow256(i as nat) == 256 * p);
        assert(le_value(s) == le_value(s.take(i)) + (256 * p) * b);
        assert(pow256(i as nat) * b == (256 * p) * b) by (nonlinear_arith)
            requires
                pow256(i as nat) == 256 * p,
        ;
    }
}

proof fn lemma_le_value_lt(a: Seq<u8>, b: Seq<u8>, i: int)
    requires
        a.len() == b.len(),
        0 <= i < a.len(),
        a.skip(i + 1) == b.skip(i + 1),
        a[i] < b[i],
    ensures
        le_value(a) < le_value(b),
{
    lemma_le_value_split(a, i);
    lemma_le_value_split(b, i);
    lemma_le_value_bound(a.take(i));
    lemma_pow256_pos(i as nat);
    assert(a.skip(i).skip(1) =~= a.skip(i + 1));
    assert(b.skip(i).skip(1) =~= b.skip(i + 1));
    assert(a.skip(i)[0] == a[i]);
    assert(b.skip(i)[0] == b[i]);
    let xa = le_value(a.skip(i));
    let xb = le_value(b.skip(i));
    assert(xa == a[i] as nat + 256 * le_value(a.skip(i + 1)));
    assert(xb == b[i] as nat + 256 * le_value(b.skip(i + 1)));
    let p = pow256(i as nat);
    let ta = le_value(a.take(i));
    let tb = le_value(b.take(i));
    assert(ta + p * xa < tb + p * xb) by (nonlinear_arith)
        requires
            ta < p,
            xa + 1 <= xb,
            p >= 1,
    ;
}

/// Compares two equally long little-endian byte strings by value.
pub fn le_bytes_lt(a: &[u8], b: &[u8]) -> (r: bool)
    requires
        a@.len() == b@.len(),
    ensures
        r == (le_value(a@) < le_value(b@)),
{
    let mut i: usize = a.len();
    while i > 0
        invariant
            i <= a@.len(),
            a@.len() == b@.len(),
            forall|j: int| i <= j < a@.len() ==> a@[j] == b@[j],
        decreases i,
    {
        i -= 1;
        if a[i] < b[i] {
            proof {
                assert(a@.skip(i + 1) =~= b@.skip(i + 1));
                lemma_le_value_lt(a@, b@, i as int);
            }
            return true;
        }
        if a[i] > b[i] {
            proof {
                assert(b@.skip(i + 1) =~= a@.skip(i + 1));
                lemma_le_value_lt(b@, a@, i as int);
            }
            return false;
        }
    }
    proof {
        assert(a@ =~= b@);
    }
    false
}

/// The little-endian encoding of the group order
/// L = 2^252 + 27742317777372353535851937790883648493.
pub open spec fn group_order_le_bytes() -> Seq<u8> {
    seq![
        0xedu8, 0xd3u8, 0xf5u8, 0x5cu8, 0x1au8, 0x63u8, 0x12u8, 0x58u8,
        0xd6u8, 0x9cu8, 0xf7u8, 0xa2u8, 0xdeu8, 0xf9u8, 0xdeu8, 0x14u8,
        0u8, 0u8, 0u8, 0u8, 0u8, 0u8, 0u8, 0u8,
        0u8, 0u8, 0u8, 0u8, 0u8, 0u8, 0u8, 0x10u8,
    ]
}

/// The order L of the curve's prime-order subgroup.
pub open spec fn group_order() -> nat {
    le_value(group_order_le_bytes())
}

/// The byte constant spells the order of the prime-order subgroup,
/// 2^252 + 27742317777372353535851937790883648493.
#[verifier::rlimit(100)]
pub proof fn lemma_group_order_value()
    ensures
        group_order() == 0x1000000000000000000000000000000014def9dea2f79cd65812631a5cf5d3ed,
{
    reveal_with_fuel(le_value, 33);
}

/// A 32-byte string encodes a canonical scalar when its little-endian value
/// lies below the group order.
pub open spec fn scalar_canonical(s: Seq<u8>) -> bool {
    s.len() == 32 && le_value(s) < group_order()
}

fn group_order_bytes() -> (r: Vec<u8>)
    ensures
        r@ == group_order_le_bytes(),
{
    let r: Vec<u8> = vec![
        0xed, 0xd3, 0xf5, 0x5c, 0x1a, 0x63, 0x12, 0x58,
        0xd6, 0x9c, 0xf7, 0xa2, 0xde, 0xf9, 0xde, 0x14,
        0, 0, 0, 0, 0, 0, 0, 0,
        0, 0, 0, 0, 0, 0, 0, 0x10,
    ];
    proof {
        assert(r@ =~= group_order_le_bytes());
    }
    r
}

/// Decides whether 32 bytes encode a canonical scalar, that is, a value
/// strictly below the group order.
pub fn scalar_is_canonical(s: &[u8]) -> (r: bool)
    requires
        s@.len() == 32,
    ensures
        r == scalar_canonical(s@),
{
    let order = group_order_bytes();
    le_bytes_lt(s, order.as_slice())
}

} // verus!
