//! Little-endian numbers as byte sequences: the mathematical model of the
//! fixed-width integer encoding.

use vstd::prelude::*;

verus! {

/// `256` to the power of `n`.
pub open spec fn pow256(n: nat) -> nat
    decreases n,
{
    if n == 0 {
        1
    } else {
        256 * pow256((n - 1) as nat)
    }
}

/// The `width` low-order bytes of `value`, least significant first.
pub open spec fn le_bytes(value: nat, width: nat) -> Seq<u8>
    decreases width,
{
    if width == 0 {
        Seq::empty()
    } else {
        seq![(value % 256) as u8].add(le_bytes(value / 256, (width - 1) as nat))
    }
}

/// The number whose little-endian digits are `bytes`.
pub open spec fn le_value(bytes: Seq<u8>) -> nat
    decreases bytes.len(),
{
    if bytes.len() == 0 {
        0
    } else {
        bytes[0] as nat + 256 * le_value(bytes.drop_first())
    }
}

/// `le_bytes` yields exactly `width` bytes.
pub proof fn lemma_le_bytes_len(value: nat, width: nat)
    ensures
        le_bytes(value, width).len() == width,
    decreases width,
{
    if width > 0 {
        lemma_le_bytes_len(value / 256, (width - 1) as nat);
    }
}

/// Reading back the bytes of a number that fits in `width` bytes gives the number.
pub proof fn lemma_le_value_of_le_bytes(value: nat, width: nat)
    requires
        value < pow256(width),
    ensures
        le_value(le_bytes(value, width)) == value,
    decreases width,
{
    if width > 0 {
        let rest = le_bytes(value / 256, (width - 1) as nat);
        let all = le_bytes(value, width);
        lemma_le_bytes_len(value / 256, (width - 1) as nat);
        lemma_le_value_of_le_bytes(value / 256, (width - 1) as nat);
        assert(all.drop_first() =~= rest);
        assert(all[0] == (value % 256) as u8);
    }
}

/// Writing out the number read from `bytes`, at the same width, gives `bytes`.
pub proof fn lemma_le_bytes_of_le_value(bytes: Seq<u8>)
    ensures
        le_bytes(le_value(bytes), bytes.len()) =~= bytes,
    decreases bytes.len(),
{
    if bytes.len() > 0 {
        let tail = bytes.drop_first();
        lemma_le_bytes_of_le_value(tail);
        let value = le_value(bytes);
        assert(value % 256 == bytes[0] as nat && value / 256 == le_value(tail)) by {
            let high: int = le_value(tail) as int;
            let low: int = bytes[0] as int;
            assert((low + 256 * high) % 256 == low && (low + 256 * high) / 256 == high)
                by (nonlinear_arith)
                requires
                    0 <= low < 256,
                    0 <= high,
            ;
        }
        assert(le_bytes(value, bytes.len())[0] == bytes[0]);
        assert(le_bytes(value, bytes.len()).drop_first() =~= le_bytes(
            value / 256,
            (bytes.len() - 1) as nat,
        ));
    }
}

/// Two numbers that fit in `width` bytes and have the same bytes are equal.
pub proof fn lemma_le_bytes_injective(a: nat, b: nat, width: nat)
    requires
        a < pow256(width),
        b < pow256(width),
        le_bytes(a, width) == le_bytes(b, width),
    ensures
        a == b,
{
    lemma_le_value_of_le_bytes(a, width);
    lemma_le_value_of_le_bytes(b, width);
}

/// The ranges of the unsigned integer types, as powers of 256.
pub proof fn lemma_pow256_widths()
    ensures
        pow256(4) == 0x1_0000_0000,
        pow256(8) == 0x1_0000_0000_0000_0000,
        pow256(16) == 0x1_0000_0000_0000_0000_0000_0000_0000_0000,
{
    reveal_with_fuel(pow256, 17);
}

} // verus!
