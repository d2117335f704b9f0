use vstd::prelude::*;

verus! {

/// Bit `n` (0 = least significant) of the byte `x`.
pub open spec fn bit_of(x: u8, n: int) -> bool {
    (x as int / vstd::arithmetic::power2::pow2(n as nat) as int) % 2 == 1
}

/// The two's complement reading of a byte.
pub open spec fn signed_byte(b: u8) -> int {
    if b < 128 { b as int } else { b as int - 256 }
}

pub proof fn lemma_bit_of_shift(x: u8, n: u8)
    requires
        n < 8,
    ensures
        bit_of(x, n as int) == ((x >> n) & 1u8 == 1u8),
{
    vstd::arithmetic::power2::lemma_pow2(n as nat);
    vstd::arithmetic::power::lemma_pow_positive(2, n as nat);
    assert(x >> n == x / ((1u8 << n) as u8)) by (bit_vector)
        requires n < 8;
    assert((x >> n) & 1u8 == (x >> n) % 2) by (bit_vector);
    assert((1u8 << n) as int == vstd::arithmetic::power2::pow2(n as nat)) by {
        vstd::arithmetic::power2::lemma2_to64();
        assert(n == 0 || n == 1 || n == 2 || n == 3 || n == 4 || n == 5 || n == 6 || n == 7);
        assert(1u8 << 0u8 == 1 && 1u8 << 1u8 == 2 && 1u8 << 2u8 == 4 && 1u8 << 3u8 == 8 && 1u8 << 4u8 == 16
            && 1u8 << 5u8 == 32 && 1u8 << 6u8 == 64 && 1u8 << 7u8 == 128) by (bit_vector);
    }
}

/// Combines two u8s into a little endian u16: `ms` is the high byte.
pub fn combine_ms_ls(ms: u8, ls: u8) -> (r: u16)
    ensures
        r == ms as int * 256 + ls as int,
{
    let r = ((ms as u16) << 8) | (ls as u16);
    assert(((ms as u16) << 8) | (ls as u16) == (ms as u16) * 256 + (ls as u16)) by (bit_vector);
    r
}

/// Splits a u16 into its high byte and its low byte.
pub fn split_ms_ls(a: u16) -> (r: (u8, u8))
    ensures
        r.0 == a / 256,
        r.1 == a % 256,
{
    let ms = ((a & 0xFF00) >> 8) as u8;
    let ls = (a & 0x00FF) as u8;
    assert(((a & 0xFF00) >> 8) == a / 256) by (bit_vector);
    assert((a & 0x00FF) == a % 256) by (bit_vector);
    (ms, ls)
}

/// Whether bit `n` of `input` is set.
pub fn check_bit(input: u8, n: u8) -> (r: bool)
    requires
        n < 8,
    ensures
        r == bit_of(input, n as int),
{
    proof {
        lemma_bit_of_shift(input, n);
    }
    assert((input & (1u8 << n) != 0) == ((input >> n) & 1u8 == 1u8)) by (bit_vector)
        requires n < 8;
    (input & (1 << n)) != 0
}

/// `x` with bit `n` set to `b`.
pub open spec fn with_bit(x: u8, n: u8, b: bool) -> u8 {
    if b {
        x | (1u8 << n)
    } else {
        x & !(1u8 << n)
    }
}

/// `input` with bit `n` set to `b` and every other bit kept.
pub fn set_bit(input: u8, n: u8, b: bool) -> (r: u8)
    requires
        n < 8,
    ensures
        r == with_bit(input, n, b),
        forall|i: u8| i < 8 ==> #[trigger] bit_of(r, i as int) == if i == n { b } else { bit_of(input, i as int) },
{
    let r = if b {
        input | (1 << n)
    } else {
        input & !(1 << n)
    };
    assert forall|i: u8| i < 8 implies #[trigger] bit_of(r, i as int) == if i == n { b } else { bit_of(input, i as int) } by {
        lemma_bit_of_shift(r, i);
        lemma_bit_of_shift(input, i);
        if b {
            assert(((input | (1u8 << n)) >> i) & 1u8 == if i == n { 1u8 } else { (input >> i) & 1u8 }) by (bit_vector)
                requires i < 8, n < 8;
        } else {
            assert(((input & !(1u8 << n)) >> i) & 1u8 == if i == n { 0u8 } else { (input >> i) & 1u8 }) by (bit_vector)
                requires i < 8, n < 8;
        }
    }
    r
}


/// Adds the signed byte `b` to `a`, wrapping around 16 bits. Returns the sum, whether it
/// wrapped, and the half carry of the low byte (taken as an addition for a non-negative `b`
/// and as a subtraction for a negative one, in both cases against the raw byte `b`).
pub fn add_unsigned_signed(a: u16, b: u8) -> (r: (u16, bool, bool))
    requires
        b != 0x80,
    ensures
        r.0 == (a as int + signed_byte(b)) % 65536,
        r.1 == (a as int + signed_byte(b) > 65535 || a as int + signed_byte(b) < 0),
        r.2 == if b < 128 { (a % 16) + (b % 16) > 15 } else { a % 16 < b % 16 },
{
    let al = (a & 0x00FF) as u8;
    assert((a & 0x00FF) as u8 % 16 == a % 16) by (bit_vector);
    if b < 128 {
        let v = a.wrapping_add(b as u16);
        let overflow = a as u32 + b as u32 > 0xFFFF;
        let hc = check_half_carry8(al, b);
        (v, overflow, hc)
    } else {
        let m: u16 = (256 - b as u16) as u16;
        let v = a.wrapping_sub(m);
        let overflow = a < m;
        let hc = check_half_carry_sub8(al, b);
        (v, overflow, hc)
    }
}

/// Whether adding the low twelve bits of `a` and `b` carries into bit 12.
pub fn check_half_carry16(a: u16, b: u16) -> (r: bool)
    ensures
        r == ((a % 4096) + (b % 4096) > 4095),
{
    assert((a & 0x0FFF) == a % 4096 && (b & 0x0FFF) == b % 4096) by (bit_vector);
    (a & 0x0FFF) + (b & 0x0FFF) > 0x0FFF
}

/// Whether adding the low nibbles of `a` and `b` carries into bit 4.
pub fn check_half_carry8(a: u8, b: u8) -> (r: bool)
    ensures
        r == ((a % 16) + (b % 16) > 15),
{
    assert((a & 0x0F) == a % 16 && (b & 0x0F) == b % 16) by (bit_vector);
    ((a & 0x0F) + (b & 0x0F)) > 0x0F
}

/// Whether subtracting the low nibble of `b` from that of `a` borrows from bit 4.
pub fn check_half_carry_sub8(a: u8, b: u8) -> (r: bool)
    ensures
        r == (a % 16 < b % 16),
{
    assert((a & 0x0F) == a % 16 && (b & 0x0F) == b % 16) by (bit_vector);
    (a & 0x0F) < (b & 0x0F)
}

/// Whether subtracting the low twelve bits of `b` from those of `a` borrows from bit 12.
pub fn check_half_carry_sub16(a: u16, b: u16) -> (r: bool)
    ensures
        r == (a % 4096 < b % 4096),
{
    assert((a & 0x0FFF) == a % 4096 && (b & 0x0FFF) == b % 4096) by (bit_vector);
    (a & 0x0FFF) < (b & 0x0FFF)
}

/// Splitting a combined value gives back its two bytes.
pub proof fn lemma_split_combine(ms: u8, ls: u8)
    ensures
        (ms as int * 256 + ls as int) / 256 == ms as int,
        (ms as int * 256 + ls as int) % 256 == ls as int,
{
}

/// Combining the two bytes of a split value gives back the value.
pub proof fn lemma_combine_split(a: u16)
    ensures
        (a / 256) as int * 256 + (a % 256) as int == a as int,
{
}


/// The byte whose bit `i` is `b_i`.
pub open spec fn byte_of_bits(b0: bool, b1: bool, b2: bool, b3: bool, b4: bool, b5: bool, b6: bool, b7: bool) -> u8 {
    ((if b0 { 1int } else { 0 }) + (if b1 { 2int } else { 0 }) + (if b2 { 4int } else { 0 }) + (if b3 { 8int } else { 0 })
        + (if b4 { 16int } else { 0 }) + (if b5 { 32int } else { 0 }) + (if b6 { 64int } else { 0 }) + (if b7 { 128int } else { 0 })) as u8
}

/// A byte is the sum of its bits.
pub proof fn lemma_byte_of_bits(x: u8, b0: bool, b1: bool, b2: bool, b3: bool, b4: bool, b5: bool, b6: bool, b7: bool)
    requires
        bit_of(x, 0) == b0,
        bit_of(x, 1) == b1,
        bit_of(x, 2) == b2,
        bit_of(x, 3) == b3,
        bit_of(x, 4) == b4,
        bit_of(x, 5) == b5,
        bit_of(x, 6) == b6,
        bit_of(x, 7) == b7,
    ensures
        x == byte_of_bits(b0, b1, b2, b3, b4, b5, b6, b7),
{
    lemma_bit_of_shift(x, 0);
    lemma_bit_of_shift(x, 1);
    lemma_bit_of_shift(x, 2);
    lemma_bit_of_shift(x, 3);
    lemma_bit_of_shift(x, 4);
    lemma_bit_of_shift(x, 5);
    lemma_bit_of_shift(x, 6);
    lemma_bit_of_shift(x, 7);
    assert(x == ((if b0 { 1u8 } else { 0u8 }) | (if b1 { 2u8 } else { 0u8 }) | (if b2 { 4u8 } else { 0u8 }) | (if b3 { 8u8 } else { 0u8 })
        | (if b4 { 16u8 } else { 0u8 }) | (if b5 { 32u8 } else { 0u8 }) | (if b6 { 64u8 } else { 0u8 }) | (if b7 { 128u8 } else { 0u8 }))) by (bit_vector)
        requires
            ((x >> 0u8) & 1u8 == 1u8) == b0,
            ((x >> 1u8) & 1u8 == 1u8) == b1,
            ((x >> 2u8) & 1u8 == 1u8) == b2,
            ((x >> 3u8) & 1u8 == 1u8) == b3,
            ((x >> 4u8) & 1u8 == 1u8) == b4,
            ((x >> 5u8) & 1u8 == 1u8) == b5,
            ((x >> 6u8) & 1u8 == 1u8) == b6,
            ((x >> 7u8) & 1u8 == 1u8) == b7,
    ;
    assert(((if b0 { 1u8 } else { 0u8 }) | (if b1 { 2u8 } else { 0u8 }) | (if b2 { 4u8 } else { 0u8 }) | (if b3 { 8u8 } else { 0u8 })
        | (if b4 { 16u8 } else { 0u8 }) | (if b5 { 32u8 } else { 0u8 }) | (if b6 { 64u8 } else { 0u8 }) | (if b7 { 128u8 } else { 0u8 }))
        == ((if b0 { 1int } else { 0 }) + (if b1 { 2int } else { 0 }) + (if b2 { 4int } else { 0 }) + (if b3 { 8int } else { 0 })
        + (if b4 { 16int } else { 0 }) + (if b5 { 32int } else { 0 }) + (if b6 { 64int } else { 0 }) + (if b7 { 128int } else { 0 }))) by (bit_vector);
}

/// The bits of a sum of bits.
pub proof fn lemma_bits_of_byte(b0: bool, b1: bool, b2: bool, b3: bool, b4: bool, b5: bool, b6: bool, b7: bool)
    ensures
        bit_of(byte_of_bits(b0, b1, b2, b3, b4, b5, b6, b7), 0) == b0,
        bit_of(byte_of_bits(b0, b1, b2, b3, b4, b5, b6, b7), 1) == b1,
        bit_of(byte_of_bits(b0, b1, b2, b3, b4, b5, b6, b7), 2) == b2,
        bit_of(byte_of_bits(b0, b1, b2, b3, b4, b5, b6, b7), 3) == b3,
        bit_of(byte_of_bits(b0, b1, b2, b3, b4, b5, b6, b7), 4) == b4,
        bit_of(byte_of_bits(b0, b1, b2, b3, b4, b5, b6, b7), 5) == b5,
        bit_of(byte_of_bits(b0, b1, b2, b3, b4, b5, b6, b7), 6) == b6,
        bit_of(byte_of_bits(b0, b1, b2, b3, b4, b5, b6, b7), 7) == b7,
{
    let x = byte_of_bits(b0, b1, b2, b3, b4, b5, b6, b7);
    assert(((if b0 { 1u8 } else { 0u8 }) | (if b1 { 2u8 } else { 0u8 }) | (if b2 { 4u8 } else { 0u8 }) | (if b3 { 8u8 } else { 0u8 })
        | (if b4 { 16u8 } else { 0u8 }) | (if b5 { 32u8 } else { 0u8 }) | (if b6 { 64u8 } else { 0u8 }) | (if b7 { 128u8 } else { 0u8 }))
        == ((if b0 { 1int } else { 0 }) + (if b1 { 2int } else { 0 }) + (if b2 { 4int } else { 0 }) + (if b3 { 8int } else { 0 })
        + (if b4 { 16int } else { 0 }) + (if b5 { 32int } else { 0 }) + (if b6 { 64int } else { 0 }) + (if b7 { 128int } else { 0 }))) by (bit_vector);
    let y: u8 = (if b0 { 1u8 } else { 0u8 }) | (if b1 { 2u8 } else { 0u8 }) | (if b2 { 4u8 } else { 0u8 }) | (if b3 { 8u8 } else { 0u8 })
        | (if b4 { 16u8 } else { 0u8 }) | (if b5 { 32u8 } else { 0u8 }) | (if b6 { 64u8 } else { 0u8 }) | (if b7 { 128u8 } else { 0u8 });
    assert(x == y);
    assert(((y >> 0u8) & 1u8 == 1u8) == b0 && ((y >> 1u8) & 1u8 == 1u8) == b1 && ((y >> 2u8) & 1u8 == 1u8) == b2
        && ((y >> 3u8) & 1u8 == 1u8) == b3 && ((y >> 4u8) & 1u8 == 1u8) == b4 && ((y >> 5u8) & 1u8 == 1u8) == b5
        && ((y >> 6u8) & 1u8 == 1u8) == b6 && ((y >> 7u8) & 1u8 == 1u8) == b7) by (bit_vector)
        requires
            y == (if b0 { 1u8 } else { 0u8 }) | (if b1 { 2u8 } else { 0u8 }) | (if b2 { 4u8 } else { 0u8 }) | (if b3 { 8u8 } else { 0u8 })
                | (if b4 { 16u8 } else { 0u8 }) | (if b5 { 32u8 } else { 0u8 }) | (if b6 { 64u8 } else { 0u8 }) | (if b7 { 128u8 } else { 0u8 }),
    ;
    lemma_bit_of_shift(x, 0);
    lemma_bit_of_shift(x, 1);
    lemma_bit_of_shift(x, 2);
    lemma_bit_of_shift(x, 3);
    lemma_bit_of_shift(x, 4);
    lemma_bit_of_shift(x, 5);
    lemma_bit_of_shift(x, 6);
    lemma_bit_of_shift(x, 7);
}

/// No bit of zero is set.
pub proof fn lemma_bits_of_zero()
    ensures
        forall|i: int| 0 <= i < 8 ==> !#[trigger] bit_of(0, i),
{
    assert forall|i: int| 0 <= i < 8 implies !#[trigger] bit_of(0, i) by {
        vstd::arithmetic::power2::lemma_pow2_pos(i as nat);
    }
}


/// Keeping the low three, five or seven bits of a byte.
pub proof fn lemma_low_bits(x: u8)
    ensures
        byte_of_bits(bit_of(x, 0), bit_of(x, 1), bit_of(x, 2), false, false, false, false, false) == x % 8,
        byte_of_bits(bit_of(x, 0), bit_of(x, 1), bit_of(x, 2), bit_of(x, 3), bit_of(x, 4), false, false, false) == x % 32,
        byte_of_bits(bit_of(x, 0), bit_of(x, 1), bit_of(x, 2), bit_of(x, 3), bit_of(x, 4), bit_of(x, 5), bit_of(x, 6), false) == x % 128,
{
    lemma_bit_of_shift(x, 0);
    lemma_bit_of_shift(x, 1);
    lemma_bit_of_shift(x, 2);
    lemma_bit_of_shift(x, 3);
    lemma_bit_of_shift(x, 4);
    lemma_bit_of_shift(x, 5);
    lemma_bit_of_shift(x, 6);
    let b0 = bit_of(x, 0);
    let b1 = bit_of(x, 1);
    let b2 = bit_of(x, 2);
    let b3 = bit_of(x, 3);
    let b4 = bit_of(x, 4);
    let b5 = bit_of(x, 5);
    let b6 = bit_of(x, 6);
    assert(x % 8 == (if b0 { 1u8 } else { 0u8 }) + (if b1 { 2u8 } else { 0u8 }) + (if b2 { 4u8 } else { 0u8 })
        && x % 32 == (if b0 { 1u8 } else { 0u8 }) + (if b1 { 2u8 } else { 0u8 }) + (if b2 { 4u8 } else { 0u8 })
            + (if b3 { 8u8 } else { 0u8 }) + (if b4 { 16u8 } else { 0u8 })
        && x % 128 == (if b0 { 1u8 } else { 0u8 }) + (if b1 { 2u8 } else { 0u8 }) + (if b2 { 4u8 } else { 0u8 })
            + (if b3 { 8u8 } else { 0u8 }) + (if b4 { 16u8 } else { 0u8 }) + (if b5 { 32u8 } else { 0u8 }) + (if b6 { 64u8 } else { 0u8 }))
        by (bit_vector)
        requires
            ((x >> 0u8) & 1u8 == 1u8) == b0,
            ((x >> 1u8) & 1u8 == 1u8) == b1,
            ((x >> 2u8) & 1u8 == 1u8) == b2,
            ((x >> 3u8) & 1u8 == 1u8) == b3,
            ((x >> 4u8) & 1u8 == 1u8) == b4,
            ((x >> 5u8) & 1u8 == 1u8) == b5,
            ((x >> 6u8) & 1u8 == 1u8) == b6,
    ;
}

}
