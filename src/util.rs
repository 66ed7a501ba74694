//! Integer, range and bit-field helpers.

use vstd::prelude::*;

verus! {

/// The bit of `bits` at position `off`, as `0` or `1`.
pub open spec fn bit_of(bits: usize, off: usize) -> usize {
    (bits >> off) & 1usize
}

/// The number of positions `i` in `start..end` whose bit in `bitmap` is `bit`.
pub open spec fn count_bits(bitmap: usize, start: int, end: int, bit: usize) -> nat
    decreases end - start,
{
    if end <= start {
        0
    } else {
        count_bits(bitmap, start, end - 1, bit) + if bit_of(bitmap, (end - 1) as usize) == bit {
            1nat
        } else {
            0nat
        }
    }
}

/// The bit value that `set` asks for.
pub open spec fn bit_value(set: bool) -> usize {
    if set {
        1
    } else {
        0
    }
}

/// Rounds `value` up to the nearest multiple of `to`.
pub fn round_up(value: usize, to: usize) -> (r: usize)
    requires
        to > 0,
        value + to - 1 <= usize::MAX,
    ensures
        r as int % to as int == 0,
        value <= r < value + to,
{
    let s = value + (to - 1);
    let q = s / to;
    proof {
        assert(q * to <= s) by (nonlinear_arith)
            requires
                q == s / to,
                to > 0,
        ;
        assert(s - to < q * to) by (nonlinear_arith)
            requires
                q == s / to,
                to > 0,
        ;
        assert((q * to) % (to as int) == 0) by (nonlinear_arith)
            requires
                to > 0,
        ;
    }
    q * to
}

/// Clears the bits of `value` below the single set bit of `to`; for a power
/// of two `to` this rounds `value` down to a multiple of `to`.
pub fn round_down(value: usize, to: usize) -> (r: usize)
    requires
        to > 0,
    ensures
        r == value & !((to - 1) as usize),
{
    value & !(to - 1)
}

/// Whether the range `[base1, base1 + size1)` lies inside `[base2, base2 + size2)`.
pub fn range_in_range(base1: usize, size1: usize, base2: usize, size2: usize) -> (r: bool)
    requires
        base1 + size1 <= usize::MAX,
        base2 + size2 <= usize::MAX,
    ensures
        r == (base1 >= base2 && base1 + size1 <= base2 + size2),
{
    (base1 >= base2) && ((base1 + size1) <= (base2 + size2))
}

/// Whether `addr` lies in `[base, base + size]`, the end included as in an
/// empty range placed at `addr`.
pub fn in_range(addr: usize, base: usize, size: usize) -> (r: bool)
    requires
        base + size <= usize::MAX,
    ensures
        r == (base <= addr && addr <= base + size),
{
    range_in_range(addr, 0, base, size)
}

/// The `len`-bit field of `bits` that starts at bit `off`.
pub fn bit_extract(bits: usize, off: usize, len: usize) -> (r: usize)
    requires
        off < usize::BITS,
        len < usize::BITS,
    ensures
        r == (bits >> off) & (((1usize << len) - 1) as usize),
        r < (1usize << len),
{
    let m: usize = 1usize << len;
    assert(m >= 1) by (bit_vector)
        requires
            m == 1usize << len,
            len < usize::BITS,
    ;
    let x = bits >> off;
    let r = x & (m - 1);
    assert(r < m) by (bit_vector)
        requires
            m == 1usize << len,
            len < usize::BITS,
            r == x & ((m - 1) as usize),
    ;
    r
}

/// The bit of `bits` at position `off`.
pub fn bit_get(bits: usize, off: usize) -> (r: usize)
    requires
        off < usize::BITS,
    ensures
        r == bit_of(bits, off),
        r <= 1,
{
    let r = (bits >> off) & 1;
    assert(r <= 1) by (bit_vector)
        requires
            r == (bits >> off) & 1usize,
    ;
    r
}

/// `bits` with the bit at position `off` set.
pub fn bit_set(bits: usize, off: usize) -> (r: usize)
    requires
        off < usize::BITS,
    ensures
        r == bits | (1usize << off),
{
    bits | (1 << off)
}

/// The position of the `nth` bit equal to `set` within `start..start + size`,
/// counting from one; `None` when the range passes the word's last bit or
/// holds fewer such bits.
pub fn bitmap_find_nth(bitmap: usize, start: usize, size: usize, nth: usize, set: bool) -> (r:
    Option<usize>)
    requires
        start + size <= usize::MAX,
    ensures
        match r {
            Some(i) => {
                &&& start + size <= usize::BITS
                &&& start <= i < start + size
                &&& bit_of(bitmap, i) == bit_value(set)
                &&& count_bits(bitmap, start as int, i + 1, bit_value(set)) == nth
            },
            None => start + size > usize::BITS || count_bits(
                bitmap,
                start as int,
                start + size,
                bit_value(set),
            ) < nth || nth == 0,
        },
{
    if size + start > 64 || start + size > usize::BITS as usize {
        return None;
    }
    let mut count: usize = 0;
    let bit: usize = if set {
        1
    } else {
        0
    };
    assert(bit == bit_value(set));
    let end = start + size;
    let mut i = start;
    while i < end
        invariant
            start <= i <= end,
            end == start + size,
            end <= usize::BITS,
            bit == bit_value(set),
            count == count_bits(bitmap, start as int, i as int, bit),
            count <= i - start,
            nth == 0 || count < nth,
        decreases end - i,
    {
        let b = bit_extract(bitmap, i, 1);
        assert(b == bit_of(bitmap, i)) by (bit_vector)
            requires
                b == (bitmap >> i) & (((1usize << 1usize) - 1) as usize),
        ;
        assert(count_bits(bitmap, start as int, i + 1, bit) == count_bits(
            bitmap,
            start as int,
            i as int,
            bit,
        ) + if b == bit {
            1nat
        } else {
            0nat
        });
        if b == bit {
            count += 1;
            if count == nth {
                return Some(i);
            }
        }
        i += 1;
    }
    None
}

} // verus!
