use vstd::prelude::*;

use vstd::arithmetic::div_mod::lemma_div_denominator;

use crate::types::ContractError;

verus! {

/// `256` to the power `n`.
pub open spec fn pow256(n: nat) -> nat
    decreases n,
{
    if n == 0 {
        1
    } else {
        256 * pow256((n - 1) as nat)
    }
}

/// The number that the bytes `s` spell in big-endian order.
pub open spec fn be_value(s: Seq<u8>) -> nat
    decreases s.len(),
{
    if s.len() == 0 {
        0
    } else {
        be_value(s.drop_last()) * 256 + s.last() as nat
    }
}

/// The `n` big-endian bytes of `v` (the low `n` bytes, when `v` needs more).
pub open spec fn be_bytes(v: nat, n: nat) -> Seq<u8> {
    Seq::new(n, |k: int| ((v / pow256((n - 1 - k) as nat)) % 256) as u8)
}

/// `buf` with its last `bytes.len()` bytes replaced by `bytes`.
pub open spec fn right_aligned(buf: Seq<u8>, bytes: Seq<u8>) -> Seq<u8> {
    buf.subrange(0, buf.len() - bytes.len()) + bytes
}

/// Powers of 256 grow with the exponent.
pub proof fn lemma_pow256_monotonic(a: nat, b: nat)
    requires
        a <= b,
    ensures
        pow256(a) <= pow256(b),
    decreases b - a,
{
    if a < b {
        lemma_pow256_monotonic(a, (b - 1) as nat);
        assert(pow256(b) == 256 * pow256((b - 1) as nat));
    }
}

/// `n` bytes spell a number below `256^n`.
pub proof fn lemma_be_value_bound(s: Seq<u8>)
    ensures
        be_value(s) < pow256(s.len()),
    decreases s.len(),
{
    if s.len() > 0 {
        let rest = s.drop_last();
        lemma_be_value_bound(rest);
        let a = be_value(rest);
        let p = pow256(rest.len());
        let b = s.last() as nat;
        assert(a * 256 + b < 256 * p) by (nonlinear_arith)
            requires
                a < p,
                b < 256,
        ;
    }
}

/// The largest values that the codec handles.
pub proof fn lemma_pow256_limits()
    ensures
        pow256(4) == 0x1_0000_0000,
        pow256(16) == 0x1_0000_0000_0000_0000_0000_0000_0000_0000,
{
    reveal_with_fuel(pow256, 17);
}

/// Reads the `n` bytes of `data` from `start` as a big-endian number.
pub fn read_be(data: &[u8], start: usize, n: usize) -> (r: u128)
    requires
        start + n <= data.len(),
        n <= 16,
    ensures
        r == be_value(data@.subrange(start as int, start + n)),
{
    let mut acc: u128 = 0;
    let mut i: usize = 0;
    while i < n
        invariant
            i <= n,
            start + n <= data.len(),
            n <= 16,
            acc == be_value(data@.subrange(start as int, start + i)),
        decreases n - i,
    {
        proof {
            let next = data@.subrange(start as int, start + i + 1);
            assert(next.drop_last() =~= data@.subrange(start as int, start + i));
            lemma_be_value_bound(next);
            lemma_pow256_monotonic((i + 1) as nat, 16);
            lemma_pow256_limits();
        }
        acc = acc * 256 + data[start + i] as u128;
        i = i + 1;
    }
    acc
}

/// Reads the four bytes of `data` from `start` as a big-endian `u32`.
pub fn read_u32_be(data: &[u8], start: usize) -> (r: u32)
    requires
        start + 4 <= data@.len(),
    ensures
        r == be_value(data@.subrange(start as int, start + 4)),
{
    let v = read_be(data, start, 4);
    proof {
        lemma_be_value_bound(data@.subrange(start as int, start + 4));
        lemma_pow256_limits();
    }
    v as u32
}

/// Writes the `n` big-endian bytes of `v` into `buf` so that they end just
/// before position `end`; the other bytes are kept.
pub fn write_be(buf: &mut [u8; 32], end: usize, v: u128, n: usize)
    requires
        n <= end <= 32,
        n <= 16,
    ensures
        final(buf)@.len() == 32,
        forall|k: int|
            0 <= k < 32 ==> #[trigger] final(buf)@[k] == if end - n <= k < end {
                be_bytes(v as nat, n as nat)[k - (end - n)]
            } else {
                old(buf)@[k]
            },
{
    let mut x: u128 = v;
    let mut i: usize = 0;
    assert(pow256(0) == 1);
    while i < n
        invariant
            i <= n,
            n <= end <= 32,
            buf@.len() == 32,
            x == v as nat / pow256(i as nat),
            forall|k: int|
                0 <= k < 32 && !(end - i <= k < end) ==> #[trigger] buf@[k] == old(buf)@[k],
            forall|j: int|
                0 <= j < i ==> #[trigger] buf@[end - 1 - j] == ((v as nat / pow256(j as nat))
                    % 256) as u8,
        decreases n - i,
    {
        buf[end - 1 - i] = (x % 256) as u8;
        proof {
            lemma_pow256_monotonic(0, i as nat);
            lemma_div_denominator(v as int, pow256(i as nat) as int, 256);
            assert(pow256((i + 1) as nat) == pow256(i as nat) * 256);
        }
        x = x / 256;
        i = i + 1;
    }
    assert forall|k: int| 0 <= k < 32 implies #[trigger] buf@[k] == if end - n <= k < end {
        be_bytes(v as nat, n as nat)[k - (end - n)]
    } else {
        old(buf)@[k]
    } by {
        if end - n <= k < end {
            let j = end - 1 - k;
            assert(buf@[end - 1 - j] == ((v as nat / pow256(j as nat)) % 256) as u8);
        }
    }
}


/// `buf` with its last byte, the error slot, holding the code of `e`.
pub open spec fn with_error_code(buf: Seq<u8>, e: ContractError) -> Seq<u8> {
    buf.update(31, e.spec_code())
}

/// Puts the code of `e` in the last byte of `buf`; the other bytes are kept.
pub fn write_error_code(buf: &mut [u8; 32], e: ContractError)
    ensures
        final(buf)@ == with_error_code(old(buf)@, e),
{
    buf[31] = e.code();
    assert(buf@ =~= with_error_code(old(buf)@, e));
}

/// Puts the big-endian bytes of `v` in the last four bytes of `buf`; the
/// other bytes are kept.
pub fn write_u32_right_aligned(buf: &mut [u8; 32], v: u32)
    ensures
        final(buf)@ == right_aligned(old(buf)@, be_bytes(v as nat, 4)),
{
    write_be(buf, 32, v as u128, 4);
    assert(buf@ =~= right_aligned(old(buf)@, be_bytes(v as nat, 4)));
}

} // verus!
