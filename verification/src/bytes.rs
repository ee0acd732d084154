//! Fixed-width integers as bytes, and byte-buffer building blocks.

use vstd::prelude::*;

verus! {

/// Order of the bytes of a multi-byte integer.
#[derive(Debug, Clone, Copy, PartialEq, Eq, Structural)]
pub enum ByteOrder {
    Little,
    Big,
}

/// The `width` bytes of `value`, least significant first.
pub open spec fn le_bytes(value: nat, width: nat) -> Seq<u8>
    decreases width,
{
    if width == 0 {
        Seq::empty()
    } else {
        seq![(value % 256) as u8] + le_bytes(value / 256, (width - 1) as nat)
    }
}

/// The `width` bytes of `value` in the given order.
pub open spec fn ordered_bytes(value: nat, width: nat, order: ByteOrder) -> Seq<u8> {
    match order {
        ByteOrder::Little => le_bytes(value, width),
        ByteOrder::Big => le_bytes(value, width).reverse(),
    }
}

/// The number whose `bytes` are given least significant first.
pub open spec fn le_value(bytes: Seq<u8>) -> nat
    decreases bytes.len(),
{
    if bytes.len() == 0 {
        0
    } else {
        bytes[0] as nat + 256 * le_value(bytes.drop_first())
    }
}

/// The number whose `bytes` are given in `order`.
pub open spec fn ordered_value(bytes: Seq<u8>, order: ByteOrder) -> nat {
    match order {
        ByteOrder::Little => le_value(bytes),
        ByteOrder::Big => le_value(bytes.reverse()),
    }
}

/// `n` zero bytes.
pub open spec fn zeros(n: nat) -> Seq<u8> {
    Seq::new(n, |i: int| 0u8)
}

/// A value written in `width` bytes takes `width` bytes, whatever it is.
pub proof fn lemma_le_bytes_len(value: nat, width: nat)
    ensures
        le_bytes(value, width).len() == width,
    decreases width,
{
    if width > 0 {
        lemma_le_bytes_len(value / 256, (width - 1) as nat);
    }
}

/// Reading back the bytes of a value gives the value, when it fits.
pub proof fn lemma_le_roundtrip(value: nat, width: nat)
    requires
        value < pow256(width),
    ensures
        le_bytes(value, width).len() == width,
        le_value(le_bytes(value, width)) == value,
    decreases width,
{
    if width > 0 {
        lemma_le_roundtrip(value / 256, (width - 1) as nat);
        assert(le_bytes(value, width).drop_first() =~= le_bytes(value / 256, (width - 1) as nat));
    }
}

/// Reading back the bytes of a value in either order gives the value, when
/// it fits.
pub proof fn lemma_ordered_roundtrip(value: nat, width: nat, order: ByteOrder)
    requires
        value < pow256(width),
    ensures
        ordered_bytes(value, width, order).len() == width,
        ordered_value(ordered_bytes(value, width, order), order) == value,
{
    lemma_le_roundtrip(value, width);
    assert(le_bytes(value, width).reverse().reverse() =~= le_bytes(value, width));
}

/// `256` to the power `width`.
pub open spec fn pow256(width: nat) -> nat
    decreases width,
{
    if width == 0 {
        1
    } else {
        256 * pow256((width - 1) as nat)
    }
}

/// Append the `width` bytes of `value`, in `order`.
pub fn push_uint(out: &mut Vec<u8>, value: u64, width: u8, order: ByteOrder)
    requires
        width <= 8,
    ensures
        final(out)@ == old(out)@ + ordered_bytes(value as nat, width as nat, order),
{
    let mut digits: Vec<u8> = Vec::new();
    let mut rest: u64 = value;
    let mut count: u8 = 0;
    while count < width
        invariant
            count <= width <= 8,
            digits@ + le_bytes(rest as nat, (width - count) as nat) == le_bytes(
                value as nat,
                width as nat,
            ),
        decreases width - count,
    {
        let ghost before = rest;
        digits.push((rest % 256) as u8);
        rest = rest / 256;
        count = count + 1;
        assert(digits@ + le_bytes(rest as nat, (width - count) as nat) =~= le_bytes(
            value as nat,
            width as nat,
        )) by {
            assert(le_bytes(before as nat, (width - count + 1) as nat) == seq![(before % 256) as u8]
                + le_bytes(rest as nat, (width - count) as nat));
        }
    }
    assert(digits@ =~= le_bytes(value as nat, width as nat));
    match order {
        ByteOrder::Little => {
            push_all(out, digits.as_slice());
        },
        ByteOrder::Big => {
            let ghost start = out@;
            let mut index: usize = digits.len();
            while index > 0
                invariant
                    index <= digits.len(),
                    out@ == start + digits@.subrange(index as int, digits.len() as int).reverse(),
                decreases index,
            {
                index = index - 1;
                out.push(digits[index]);
                assert(digits@.subrange(index as int, digits.len() as int).reverse() =~= digits@.subrange(
                    index as int + 1,
                    digits.len() as int,
                ).reverse().push(digits@[index as int]));
            }
            assert(digits@.subrange(0, digits.len() as int) =~= digits@);
        },
    }
}

/// Append every byte of `bytes`.
pub fn push_all(out: &mut Vec<u8>, bytes: &[u8])
    ensures
        final(out)@ == old(out)@ + bytes@,
{
    let ghost start = out@;
    let mut index: usize = 0;
    while index < bytes.len()
        invariant
            index <= bytes.len(),
            out@ == start + bytes@.subrange(0, index as int),
        decreases bytes.len() - index,
    {
        out.push(bytes[index]);
        index = index + 1;
        assert(bytes@.subrange(0, index as int) =~= bytes@.subrange(0, index - 1).push(
            bytes@[index - 1],
        ));
    }
    assert(bytes@.subrange(0, bytes.len() as int) =~= bytes@);
}

/// Append `n` zero bytes.
pub fn push_zeros(out: &mut Vec<u8>, n: usize)
    ensures
        final(out)@ == old(out)@ + zeros(n as nat),
{
    let ghost start = out@;
    let mut index: usize = 0;
    while index < n
        invariant
            index <= n,
            out@ == start + zeros(index as nat),
        decreases n - index,
    {
        out.push(0u8);
        index = index + 1;
        assert(zeros(index as nat) =~= zeros((index - 1) as nat).push(0u8));
    }
}

/// The number held by `bytes` in `order`.
pub fn read_uint(bytes: &[u8], order: ByteOrder) -> (value: u64)
    requires
        bytes.len() <= 8,
    ensures
        value == ordered_value(bytes@, order),
{
    let mut value: u64 = 0;
    let len: usize = bytes.len();
    let mut index: usize = 0;
    // Accumulate from the most significant byte down.
    while index < len
        invariant
            index <= len == bytes.len() <= 8,
            value as nat == ordered_value(significant_prefix(bytes@, order, index as nat), order),
            value < pow256(index as nat),
        decreases len - index,
    {
        let byte: u8 = match order {
            ByteOrder::Little => bytes[len - 1 - index],
            ByteOrder::Big => bytes[index],
        };
        proof {
            lemma_pow256_bound(index as nat);
            lemma_significant_prefix_step(bytes@, order, index as nat);
        }
        value = value * 256 + byte as u64;
        index = index + 1;
    }
    proof {
        lemma_significant_prefix_full(bytes@, order);
    }
    value
}

/// The `k` most significant bytes of `bytes`, kept in `order`.
pub open spec fn significant_prefix(bytes: Seq<u8>, order: ByteOrder, k: nat) -> Seq<u8> {
    match order {
        ByteOrder::Little => bytes.subrange(bytes.len() - k, bytes.len() as int),
        ByteOrder::Big => bytes.subrange(0, k as int),
    }
}

proof fn lemma_pow256_bound(k: nat)
    requires
        k < 8,
    ensures
        pow256(k) * 256 <= 0x1_0000_0000_0000_0000,
        pow256(k + 1) == 256 * pow256(k),
{
    lemma_pow256_monotonic(k, 7);
    assert(pow256(7) == 0x100_0000_0000_0000) by {
        reveal_with_fuel(pow256, 8);
    }
}

proof fn lemma_pow256_monotonic(k: nat, m: nat)
    requires
        k <= m,
    ensures
        pow256(k) <= pow256(m),
    decreases m - k,
{
    if k < m {
        lemma_pow256_monotonic(k, (m - 1) as nat);
    }
}

proof fn lemma_le_value_push_front(b: u8, rest: Seq<u8>)
    ensures
        le_value(seq![b] + rest) == b as nat + 256 * le_value(rest),
{
    assert((seq![b] + rest).drop_first() =~= rest);
}

proof fn lemma_significant_prefix_step(bytes: Seq<u8>, order: ByteOrder, k: nat)
    requires
        k < bytes.len(),
    ensures
        ordered_value(significant_prefix(bytes, order, k + 1), order) == ordered_value(
            significant_prefix(bytes, order, k),
            order,
        ) * 256 + (match order {
            ByteOrder::Little => bytes[bytes.len() - 1 - k],
            ByteOrder::Big => bytes[k as int],
        }) as nat,
{
    match order {
        ByteOrder::Little => {
            let longer = bytes.subrange(bytes.len() - k - 1, bytes.len() as int);
            let shorter = bytes.subrange(bytes.len() - k, bytes.len() as int);
            assert(longer =~= seq![bytes[bytes.len() - 1 - k]] + shorter);
            lemma_le_value_push_front(bytes[bytes.len() - 1 - k], shorter);
        },
        ByteOrder::Big => {
            let longer = bytes.subrange(0, k as int + 1);
            let shorter = bytes.subrange(0, k as int);
            assert(longer.reverse() =~= seq![bytes[k as int]] + shorter.reverse());
            lemma_le_value_push_front(bytes[k as int], shorter.reverse());
        },
    }
}

proof fn lemma_significant_prefix_full(bytes: Seq<u8>, order: ByteOrder)
    ensures
        significant_prefix(bytes, order, bytes.len()) == bytes,
{
    assert(bytes.subrange(0, bytes.len() as int) =~= bytes);
}

} // verus!
