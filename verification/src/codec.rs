//! Little-endian integers in byte records.
//!
//! A field of `width` bytes holds an unsigned integer below `radix(width)`,
//! lowest byte first. Signed fields hold the two's complement image.

use vstd::prelude::*;

verus! {

/// 256 to the power `width`: the number of values that `width` bytes hold.
pub open spec fn radix(width: nat) -> nat
    decreases width,
{
    if width == 0 {
        1
    } else {
        256 * radix((width - 1) as nat)
    }
}

/// The unsigned integer that `bytes` spell, lowest byte first.
pub open spec fn le_value(bytes: Seq<u8>) -> nat
    decreases bytes.len(),
{
    if bytes.len() == 0 {
        0
    } else {
        bytes[0] as nat + 256 * le_value(bytes.drop_first())
    }
}

/// The `width` lowest bytes of `value`, lowest byte first.
pub open spec fn le_bytes(value: nat, width: nat) -> Seq<u8>
    decreases width,
{
    if width == 0 {
        Seq::<u8>::empty()
    } else {
        seq![(value % 256) as u8] + le_bytes(value / 256, (width - 1) as nat)
    }
}

/// The signed integer whose two's complement image in `width` bytes is `raw`.
pub open spec fn signed_value(raw: nat, width: nat) -> int {
    if 2 * raw >= radix(width) {
        raw - radix(width)
    } else {
        raw as int
    }
}

/// The two's complement image of `value` in `width` bytes.
pub open spec fn unsigned_image(value: int, width: nat) -> nat {
    if value < 0 {
        (value + radix(width)) as nat
    } else {
        value as nat
    }
}

/// `bytes` with the `field.len()` bytes from `start` on replaced by `field`.
pub open spec fn overwritten(bytes: Seq<u8>, start: int, field: Seq<u8>) -> Seq<u8> {
    bytes.subrange(0, start) + field + bytes.subrange(start + field.len(), bytes.len() as int)
}

/// Overwriting a record field by field, from its start on: a field written
/// right after a prefix that was written before extends the prefix.
pub proof fn overwritten_appends(initial: Seq<u8>, prefix: Seq<u8>, field: Seq<u8>)
    requires
        prefix.len() + field.len() <= initial.len(),
    ensures
        overwritten(overwritten(initial, 0, prefix), prefix.len() as int, field) == overwritten(
            initial,
            0,
            prefix + field,
        ),
{
    assert(overwritten(overwritten(initial, 0, prefix), prefix.len() as int, field)
        =~= overwritten(initial, 0, prefix + field));
}

/// The values of `radix` at the widths of the integer types.
pub proof fn radix_values()
    ensures
        radix(0) == 1,
        radix(1) == 0x100,
        radix(8) == 0x1_0000_0000_0000_0000,
        radix(16) == 0x1_0000_0000_0000_0000_0000_0000_0000_0000,
{
    reveal_with_fuel(radix, 17);
}

/// `radix` grows with the width.
pub proof fn radix_grows(narrow: nat, wide: nat)
    requires
        narrow <= wide,
    ensures
        0 < radix(narrow) <= radix(wide),
    decreases wide,
{
    if narrow < wide {
        radix_grows(narrow, (wide - 1) as nat);
    } else if wide > 0 {
        radix_grows((narrow - 1) as nat, (wide - 1) as nat);
    }
}

/// The bytes of a field spell a value below `radix` of their number.
pub proof fn le_value_bound(bytes: Seq<u8>)
    ensures
        le_value(bytes) < radix(bytes.len()),
    decreases bytes.len(),
{
    if bytes.len() > 0 {
        le_value_bound(bytes.drop_first());
    }
}

/// `le_bytes` gives as many bytes as asked for.
pub proof fn le_bytes_len(value: nat, width: nat)
    ensures
        le_bytes(value, width).len() == width,
    decreases width,
{
    if width > 0 {
        le_bytes_len(value / 256, (width - 1) as nat);
    }
}

/// Byte `i` of `le_bytes` is digit `i` of the value in base 256.
pub proof fn le_bytes_digit(value: nat, width: nat, i: nat)
    requires
        i < width,
    ensures
        le_bytes(value, width)[i as int] == (value / radix(i)) % 256,
    decreases width,
{
    le_bytes_len(value / 256, (width - 1) as nat);
    if i > 0 {
        let j = (i - 1) as nat;
        le_bytes_digit(value / 256, (width - 1) as nat, j);
        radix_grows(0, j);
        vstd::arithmetic::div_mod::lemma_div_denominator(value as int, 256, radix(j) as int);
    } else {
        assert(radix(0) == 1);
    }
}

/// Reading back what was written gives the value, where it fits the width.
pub proof fn le_value_of_le_bytes(value: nat, width: nat)
    requires
        value < radix(width),
    ensures
        le_value(le_bytes(value, width)) == value,
    decreases width,
{
    if width > 0 {
        let rest = le_bytes(value / 256, (width - 1) as nat);
        le_value_of_le_bytes(value / 256, (width - 1) as nat);
        assert(le_bytes(value, width).drop_first() =~= rest);
    }
}

/// Writing back what was read gives the bytes.
pub proof fn le_bytes_of_le_value(bytes: Seq<u8>)
    ensures
        le_bytes(le_value(bytes), bytes.len()) == bytes,
    decreases bytes.len(),
{
    if bytes.len() > 0 {
        le_bytes_of_le_value(bytes.drop_first());
    }
}

/// The signed reading and the two's complement image undo each other.
pub proof fn signed_round_trip(width: nat)
    requires
        width > 0,
    ensures
        forall|value: int|
            -(radix(width) / 2) <= value < radix(width) / 2 ==> unsigned_image(value, width)
                < radix(width) && #[trigger] signed_value(unsigned_image(value, width), width)
                == value,
        forall|raw: nat|
            raw < radix(width) ==> -(radix(width) / 2) <= signed_value(raw, width) < radix(width)
                / 2 && #[trigger] unsigned_image(signed_value(raw, width), width) == raw,
{
    assert(radix(width) == 256 * radix((width - 1) as nat));
}

/// Reads the unsigned integer that the `width` bytes from `start` on spell.
fn read_le(bytes: &[u8], start: usize, width: usize) -> (r: u128)
    requires
        width <= 16,
        start + width <= bytes@.len(),
    ensures
        r == le_value(bytes@.subrange(start as int, start + width)),
        r < radix(width as nat),
{
    let len = bytes.len();
    let mut acc: u128 = 0;
    let mut k: usize = width;
    while k > 0
        invariant
            k <= width <= 16,
            start + width <= bytes@.len() == len,
            acc == le_value(bytes@.subrange(start + k, start + width)),
            acc < radix((width - k) as nat),
        decreases k,
    {
        proof {
            let field = bytes@.subrange(start + k - 1, start + width);
            assert(field.drop_first() =~= bytes@.subrange(start + k, start + width));
            radix_grows((width - k + 1) as nat, 16);
            radix_values();
        }
        k -= 1;
        acc = acc * 256 + bytes[start + k] as u128;
    }
    acc
}

/// Writes the `width` lowest bytes of `value` into `dst` from `start` on.
fn write_le(dst: &mut [u8], start: usize, width: usize, value: u128)
    requires
        width <= 16,
        start + width <= old(dst)@.len(),
    ensures
        final(dst)@ == overwritten(old(dst)@, start as int, le_bytes(value as nat, width as nat)),
{
    let len = dst.len();
    let mut rest: u128 = value;
    let mut i: usize = 0;
    proof {
        le_bytes_len(value as nat, width as nat);
        assert(radix(0) == 1);
    }
    while i < width
        invariant
            i <= width <= 16,
            start + width <= dst@.len() == len,
            dst@.len() == old(dst)@.len(),
            le_bytes(value as nat, width as nat).len() == width,
            rest == value as nat / radix(i as nat),
            forall|j: int| 0 <= j < start ==> dst@[j] == old(dst)@[j],
            forall|j: int| start + i <= j < dst@.len() ==> dst@[j] == old(dst)@[j],
            forall|j: int|
                0 <= j < i ==> dst@[start + j] == le_bytes(value as nat, width as nat)[j],
        decreases width - i,
    {
        proof {
            le_bytes_digit(value as nat, width as nat, i as nat);
            radix_grows(0, i as nat);
            vstd::arithmetic::div_mod::lemma_div_denominator(
                value as int,
                radix(i as nat) as int,
                256,
            );
        }
        dst[start + i] = (rest % 256) as u8;
        rest = rest / 256;
        i += 1;
    }
    proof {
        assert(dst@ =~= overwritten(
            old(dst)@,
            start as int,
            le_bytes(value as nat, width as nat),
        ));
    }
}

/// Reads the `u64` in the eight bytes from `start` on.
pub fn read_u64(bytes: &[u8], start: usize) -> (r: u64)
    requires
        start + 8 <= bytes@.len(),
    ensures
        r == le_value(bytes@.subrange(start as int, start + 8)),
{
    let raw = read_le(bytes, start, 8);
    proof {
        radix_values();
    }
    raw as u64
}

/// Reads the `u128` in the sixteen bytes from `start` on.
pub fn read_u128(bytes: &[u8], start: usize) -> (r: u128)
    requires
        start + 16 <= bytes@.len(),
    ensures
        r == le_value(bytes@.subrange(start as int, start + 16)),
{
    read_le(bytes, start, 16)
}

/// Reads the `i64` whose two's complement image lies in the eight bytes from
/// `start` on.
pub fn read_i64(bytes: &[u8], start: usize) -> (r: i64)
    requires
        start + 8 <= bytes@.len(),
    ensures
        r == signed_value(le_value(bytes@.subrange(start as int, start + 8)), 8),
{
    let raw = read_le(bytes, start, 8);
    proof {
        radix_values();
    }
    if raw >= 0x8000_0000_0000_0000 {
        let low = (raw - 0x8000_0000_0000_0000) as i64;
        low + i64::MIN
    } else {
        raw as i64
    }
}

/// Reads the `i128` whose two's complement image lies in the sixteen bytes
/// from `start` on.
pub fn read_i128(bytes: &[u8], start: usize) -> (r: i128)
    requires
        start + 16 <= bytes@.len(),
    ensures
        r == signed_value(le_value(bytes@.subrange(start as int, start + 16)), 16),
{
    let raw = read_le(bytes, start, 16);
    proof {
        radix_values();
    }
    if raw >= 0x8000_0000_0000_0000_0000_0000_0000_0000 {
        let low = (raw - 0x8000_0000_0000_0000_0000_0000_0000_0000) as i128;
        low + i128::MIN
    } else {
        raw as i128
    }
}

/// Writes `value` into the eight bytes of `dst` from `start` on.
pub fn write_u64(dst: &mut [u8], start: usize, value: u64)
    requires
        start + 8 <= old(dst)@.len(),
    ensures
        final(dst)@ == overwritten(old(dst)@, start as int, le_bytes(value as nat, 8)),
{
    write_le(dst, start, 8, value as u128);
}

/// Writes `value` into the sixteen bytes of `dst` from `start` on.
pub fn write_u128(dst: &mut [u8], start: usize, value: u128)
    requires
        start + 16 <= old(dst)@.len(),
    ensures
        final(dst)@ == overwritten(old(dst)@, start as int, le_bytes(value as nat, 16)),
{
    write_le(dst, start, 16, value);
}

/// Writes the two's complement image of `value` into the eight bytes of
/// `dst` from `start` on.
pub fn write_i64(dst: &mut [u8], start: usize, value: i64)
    requires
        start + 8 <= old(dst)@.len(),
    ensures
        final(dst)@ == overwritten(
            old(dst)@,
            start as int,
            le_bytes(unsigned_image(value as int, 8), 8),
        ),
{
    proof {
        radix_values();
    }
    let raw: u128 = if value < 0 {
        (value - i64::MIN) as u128 + 0x8000_0000_0000_0000
    } else {
        value as u128
    };
    write_le(dst, start, 8, raw);
}

/// Writes the two's complement image of `value` into the sixteen bytes of
/// `dst` from `start` on.
pub fn write_i128(dst: &mut [u8], start: usize, value: i128)
    requires
        start + 16 <= old(dst)@.len(),
    ensures
        final(dst)@ == overwritten(
            old(dst)@,
            start as int,
            le_bytes(unsigned_image(value as int, 16), 16),
        ),
{
    proof {
        radix_values();
    }
    let raw: u128 = if value < 0 {
        (value - i128::MIN) as u128 + 0x8000_0000_0000_0000_0000_0000_0000_0000
    } else {
        value as u128
    };
    write_le(dst, start, 16, raw);
}

/// Reads the 32-byte key from `start` on.
pub fn read_key(bytes: &[u8], start: usize) -> (r: [u8; 32])
    requires
        start + 32 <= bytes@.len(),
    ensures
        r@ == bytes@.subrange(start as int, start + 32),
{
    let len = bytes.len();
    let mut key = [0u8; 32];
    let mut i: usize = 0;
    while i < 32
        invariant
            i <= 32,
            start + 32 <= bytes@.len() == len,
            forall|j: int| 0 <= j < i ==> key@[j] == bytes@[start + j],
        decreases 32 - i,
    {
        key[i] = bytes[start + i];
        i += 1;
    }
    key
}

/// Writes the 32-byte `key` into `dst` from `start` on.
pub fn write_key(dst: &mut [u8], start: usize, key: &[u8; 32])
    requires
        start + 32 <= old(dst)@.len(),
    ensures
        final(dst)@ == overwritten(old(dst)@, start as int, key@),
{
    let len = dst.len();
    let mut i: usize = 0;
    while i < 32
        invariant
            i <= 32,
            start + 32 <= dst@.len() == len,
            dst@.len() == old(dst)@.len(),
            forall|j: int| 0 <= j < start ==> dst@[j] == old(dst)@[j],
            forall|j: int| start + i <= j < dst@.len() ==> dst@[j] == old(dst)@[j],
            forall|j: int| 0 <= j < i ==> dst@[start + j] == key@[j],
        decreases 32 - i,
    {
        dst[start + i] = key[i];
        i += 1;
    }
}

} // verus!
