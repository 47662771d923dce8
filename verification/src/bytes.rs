//! Integers as they lie in memory: a fixed number of bytes in the byte order of
//! the machine.
use vstd::arithmetic::power::pow;
use vstd::prelude::*;

verus! {

/// The order in which a machine stores the bytes of an integer.
#[derive(Clone, Copy, PartialEq, Eq, Structural, Debug)]
pub enum ByteOrder {
    /// The least significant byte comes first.
    Little,
    /// The most significant byte comes first.
    Big,
}

/// How many values `len` bytes can hold.
pub open spec fn radix(len: nat) -> nat
    decreases len,
{
    if len == 0 {
        1
    } else {
        256 * radix((len - 1) as nat)
    }
}

/// The unsigned number that `bytes` hold with the least significant byte first.
pub open spec fn little_value(bytes: Seq<u8>) -> nat
    decreases bytes.len(),
{
    if bytes.len() == 0 {
        0
    } else {
        bytes[0] as nat + 256 * little_value(bytes.drop_first())
    }
}

/// The low `len` bytes of `value`, the least significant byte first.
pub open spec fn little_bytes(value: nat, len: nat) -> Seq<u8>
    decreases len,
{
    if len == 0 {
        Seq::empty()
    } else {
        seq![(value % 256) as u8] + little_bytes(value / 256, (len - 1) as nat)
    }
}

/// The unsigned number that `bytes` hold in the byte order `order`.
pub open spec fn value_of(order: ByteOrder, bytes: Seq<u8>) -> nat {
    match order {
        ByteOrder::Little => little_value(bytes),
        ByteOrder::Big => little_value(bytes.reverse()),
    }
}

/// The low `len` bytes of `value` in the byte order `order`.
pub open spec fn bytes_of(order: ByteOrder, value: nat, len: nat) -> Seq<u8> {
    match order {
        ByteOrder::Little => little_bytes(value, len),
        ByteOrder::Big => little_bytes(value, len).reverse(),
    }
}

/// The signed number that the 32 bits of `bits` stand for in two's complement.
pub open spec fn signed_32(bits: nat) -> int {
    if bits < 0x8000_0000 {
        bits as int
    } else {
        bits - 0x1_0000_0000
    }
}

/// The 32 bits that stand for `value` in two's complement.
pub open spec fn unsigned_32(value: int) -> nat {
    if value >= 0 {
        value as nat
    } else {
        (value + 0x1_0000_0000) as nat
    }
}

/// The number that `bytes` hold is smaller than the number of values they can hold.
proof fn little_value_bound(bytes: Seq<u8>)
    ensures
        little_value(bytes) < radix(bytes.len()),
    decreases bytes.len(),
{
    if bytes.len() > 0 {
        little_value_bound(bytes.drop_first());
    }
}

/// Up to eight bytes hold no more values than a `u64`.
proof fn radix_fits(len: nat)
    requires
        len <= 8,
    ensures
        radix(len) <= 0x1_0000_0000_0000_0000,
{
    reveal_with_fuel(radix, 9);
}

/// `little_bytes` gives as many bytes as it is asked for.
proof fn little_bytes_len(value: nat, len: nat)
    ensures
        little_bytes(value, len).len() == len,
    decreases len,
{
    if len > 0 {
        little_bytes_len(value / 256, (len - 1) as nat);
    }
}

proof fn little_round_trip(value: nat, len: nat)
    requires
        value < radix(len),
    ensures
        little_value(little_bytes(value, len)) == value,
    decreases len,
{
    if len > 0 {
        little_round_trip(value / 256, (len - 1) as nat);
        assert(little_bytes(value, len).drop_first() =~= little_bytes(
            value / 256,
            (len - 1) as nat,
        ));
    }
}

proof fn little_reads_back(bytes: Seq<u8>)
    ensures
        little_bytes(little_value(bytes), bytes.len()) =~= bytes,
    decreases bytes.len(),
{
    if bytes.len() > 0 {
        little_reads_back(bytes.drop_first());
        let rest = little_value(bytes.drop_first());
        assert((bytes[0] as nat + 256 * rest) % 256 == bytes[0] as nat);
        assert((bytes[0] as nat + 256 * rest) / 256 == rest);
        assert(bytes =~= seq![bytes[0]] + bytes.drop_first());
    }
}

/// Law: a number that fits in `len` bytes is read back from them as it was
/// written, in either byte order.
pub proof fn number_round_trip(order: ByteOrder, value: nat, len: nat)
    requires
        value < radix(len),
    ensures
        bytes_of(order, value, len).len() == len,
        value_of(order, bytes_of(order, value, len)) == value,
{
    little_bytes_len(value, len);
    little_round_trip(value, len);
    let little = little_bytes(value, len);
    assert(little.reverse().reverse() =~= little);
}

/// Law: bytes that were read as a number are what writing that number gives, in
/// either byte order.
pub proof fn bytes_round_trip(order: ByteOrder, bytes: Seq<u8>)
    ensures
        value_of(order, bytes) < radix(bytes.len()),
        bytes_of(order, value_of(order, bytes), bytes.len()) == bytes,
{
    little_value_bound(bytes);
    little_value_bound(bytes.reverse());
    little_reads_back(bytes);
    little_reads_back(bytes.reverse());
    assert(bytes.reverse().reverse() =~= bytes);
}

/// The number of values is the power of 256.
proof fn radix_is_power(len: nat)
    ensures
        radix(len) == pow(256, len),
    decreases len,
{
    reveal(pow);
    if len > 0 {
        radix_is_power((len - 1) as nat);
    }
}

/// The bytes of a number are its digits to the base 256.
proof fn little_digit(value: nat, len: nat, i: nat)
    requires
        i < len,
    ensures
        little_bytes(value, len).len() == len,
        little_bytes(value, len)[i as int] == (value as int / pow(256, i)) % 256,
    decreases len,
{
    little_bytes_len(value, len);
    little_bytes_len(value / 256, (len - 1) as nat);
    reveal(pow);
    if i == 0 {
        assert(pow(256, 0) == 1);
    } else {
        let lower = (i - 1) as nat;
        little_digit(value / 256, (len - 1) as nat, lower);
        vstd::arithmetic::power::lemma_pow_positive(256, lower);
        vstd::arithmetic::div_mod::lemma_div_denominator(value as int, 256, pow(256, lower));
    }
}

/// Law: the bytes that stand for a number are its digits to the base 256, of which
/// the byte order tells the first: the lowest, or the highest.
pub proof fn bytes_are_digits(order: ByteOrder, value: nat, len: nat, i: nat)
    requires
        i < len,
    ensures
        bytes_of(order, value, len).len() == len,
        order == ByteOrder::Little ==> bytes_of(order, value, len)[i as int] == (value as int / pow(
            256,
            i,
        )) % 256,
        order == ByteOrder::Big ==> bytes_of(order, value, len)[len - 1 - i] == (value as int / pow(
            256,
            i,
        )) % 256,
{
    little_digit(value, len, i);
}

/// Law: the number that bytes stand for is the one below the power of 256 to their
/// number whose digits they are: from the lowest on, or from the highest.
pub proof fn value_has_digits(order: ByteOrder, bytes: Seq<u8>, i: nat)
    requires
        i < bytes.len(),
    ensures
        value_of(order, bytes) < pow(256, bytes.len()),
        (value_of(order, bytes) as int / pow(256, i)) % 256 == match order {
            ByteOrder::Little => bytes[i as int],
            ByteOrder::Big => bytes[bytes.len() - 1 - i],
        },
{
    bytes_round_trip(order, bytes);
    bytes_are_digits(order, value_of(order, bytes), bytes.len(), i);
    radix_is_power(bytes.len());
}

/// Law: two bytes and four bytes stand for the sum of their values, each weighed by
/// its place; no bytes stand for zero.
pub proof fn value_is_weighed(order: ByteOrder, a: u8, b: u8, c: u8, d: u8)
    ensures
        value_of(order, Seq::empty()) == 0,
        value_of(order, seq![a, b]) == match order {
            ByteOrder::Little => a + 256 * b,
            ByteOrder::Big => 256 * a + b,
        },
        value_of(order, seq![a, b, c, d]) == match order {
            ByteOrder::Little => a + 256 * b + 0x1_0000 * c + 0x100_0000 * d,
            ByteOrder::Big => 0x100_0000 * a + 0x1_0000 * b + 256 * c + d,
        },
{
    reveal_with_fuel(little_value, 5);
    assert(Seq::<u8>::empty().reverse() =~= Seq::<u8>::empty());
    assert(seq![a, b].reverse() =~= seq![b, a]);
    assert(seq![a, b, c, d].reverse() =~= seq![d, c, b, a]);
    assert(seq![a, b].drop_first() =~= seq![b]);
    assert(seq![b].drop_first() =~= Seq::<u8>::empty());
    assert(seq![b, a].drop_first() =~= seq![a]);
    assert(seq![a].drop_first() =~= Seq::<u8>::empty());
    assert(seq![a, b, c, d].drop_first() =~= seq![b, c, d]);
    assert(seq![b, c, d].drop_first() =~= seq![c, d]);
    assert(seq![c, d].drop_first() =~= seq![d]);
    assert(seq![d].drop_first() =~= Seq::<u8>::empty());
    assert(seq![d, c, b, a].drop_first() =~= seq![c, b, a]);
    assert(seq![c, b, a].drop_first() =~= seq![b, a]);
}

/// Law: 32 bits and the signed number that they stand for differ by a multiple of
/// two to the 32nd, and are below it: the bits from zero on, the number from minus
/// two to the 31st on.
pub proof fn signed_wraps(bits: nat, value: int)
    requires
        bits < 0x1_0000_0000,
        -0x8000_0000 <= value < 0x8000_0000,
    ensures
        -0x8000_0000 <= signed_32(bits) < 0x8000_0000,
        (signed_32(bits) - bits) % 0x1_0000_0000 == 0,
        0 <= unsigned_32(value) < 0x1_0000_0000,
        (unsigned_32(value) - value) % 0x1_0000_0000 == 0,
{
}

/// Law: 32 bits and the signed number that they stand for determine each other.
pub proof fn signed_round_trip(bits: nat, value: int)
    requires
        bits < 0x1_0000_0000,
        -0x8000_0000 <= value < 0x8000_0000,
    ensures
        -0x8000_0000 <= signed_32(bits) < 0x8000_0000,
        unsigned_32(value) < 0x1_0000_0000,
        unsigned_32(signed_32(bits)) == bits,
        signed_32(unsigned_32(value)) == value,
{
}

/// Reads the unsigned number that `bytes` hold in the byte order `order`.
pub fn decode(order: ByteOrder, bytes: &[u8]) -> (value: u64)
    requires
        bytes@.len() <= 8,
    ensures
        value == value_of(order, bytes@),
        value < radix(bytes@.len()),
{
    let len: usize = bytes.len();
    let mut value: u64 = 0;
    match order {
        ByteOrder::Little => {
            let mut i: usize = len;
            while i > 0
                invariant
                    i <= len,
                    len == bytes@.len(),
                    len <= 8,
                    value == little_value(bytes@.subrange(i as int, len as int)),
                decreases i,
            {
                i = i - 1;
                proof {
                    let tail = bytes@.subrange(i as int, len as int);
                    assert(tail.drop_first() =~= bytes@.subrange(i + 1, len as int));
                    little_value_bound(tail);
                    radix_fits(tail.len());
                }
                value = value * 256 + bytes[i] as u64;
            }
            assert(bytes@.subrange(0, len as int) =~= bytes@);
            proof {
                little_value_bound(bytes@);
            }
        },
        ByteOrder::Big => {
            let mut i: usize = 0;
            while i < len
                invariant
                    i <= len,
                    len == bytes@.len(),
                    len <= 8,
                    value == little_value(bytes@.take(i as int).reverse()),
                decreases len - i,
            {
                proof {
                    let head = bytes@.take(i + 1).reverse();
                    assert(head.drop_first() =~= bytes@.take(i as int).reverse());
                    little_value_bound(head);
                    radix_fits(head.len());
                }
                value = value * 256 + bytes[i] as u64;
                i = i + 1;
            }
            assert(bytes@.take(len as int) =~= bytes@);
            proof {
                little_value_bound(bytes@.reverse());
            }
        },
    }
    value
}

/// Writes the low `len` bytes of `value` in the byte order `order`.
pub fn encode(order: ByteOrder, value: u64, len: usize) -> (bytes: Vec<u8>)
    ensures
        bytes@ == bytes_of(order, value as nat, len as nat),
        bytes@.len() == len,
{
    let mut little: Vec<u8> = Vec::new();
    let mut rest: u64 = value;
    let mut i: usize = 0;
    while i < len
        invariant
            i <= len,
            little@.len() == i,
            little@ + little_bytes(rest as nat, (len - i) as nat) =~= little_bytes(
                value as nat,
                len as nat,
            ),
        decreases len - i,
    {
        let low: u8 = (rest % 256) as u8;
        little.push(low);
        rest = rest / 256;
        i = i + 1;
    }
    assert(little@ =~= little_bytes(value as nat, len as nat));
    match order {
        ByteOrder::Little => little,
        ByteOrder::Big => {
            let mut big: Vec<u8> = Vec::new();
            let mut left: usize = len;
            while left > 0
                invariant
                    left <= len,
                    little@.len() == len,
                    big@ =~= little@.skip(left as int).reverse(),
                decreases left,
            {
                left = left - 1;
                big.push(little[left]);
            }
            assert(little@.skip(0) =~= little@);
            big
        },
    }
}

/// Reads the signed 32-bit number at the start of `bytes`.
pub fn decode_int(order: ByteOrder, bytes: &[u8]) -> (value: i32)
    requires
        bytes@.len() >= 4,
    ensures
        value == signed_32(value_of(order, bytes@.take(4))),
{
    let bits: u64 = decode(order, vstd::slice::slice_subrange(bytes, 0, 4));
    proof {
        reveal_with_fuel(radix, 5);
    }
    assert(bytes@.subrange(0, 4) =~= bytes@.take(4));
    if bits < 0x8000_0000 {
        bits as i32
    } else {
        (bits as i64 - 0x1_0000_0000) as i32
    }
}

/// Writes a signed 32-bit number.
pub fn encode_int(order: ByteOrder, value: i32) -> (bytes: Vec<u8>)
    ensures
        bytes@ == bytes_of(order, unsigned_32(value as int), 4),
        bytes@.len() == 4,
{
    let bits: i64 = if value >= 0 {
        value as i64
    } else {
        value as i64 + 0x1_0000_0000
    };
    encode(order, bits as u64, 4)
}

} // verus!
