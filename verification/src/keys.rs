use vstd::prelude::*;
use crate::scan::{bytes_lt, bytes_lt_from};
use vstd::arithmetic::div_mod::{lemma_div_denominator, lemma_div_is_ordered};

verus! {

/// What the byte at position `i` of a key counts for: the first byte is the
/// most significant.
pub open spec fn weight(i: int) -> int {
    if i <= 0 {
        0x100_0000_0000_0000
    } else if i == 1 {
        0x1_0000_0000_0000
    } else if i == 2 {
        0x100_0000_0000
    } else if i == 3 {
        0x1_0000_0000
    } else if i == 4 {
        0x100_0000
    } else if i == 5 {
        0x1_0000
    } else if i == 6 {
        0x100
    } else {
        1
    }
}

/// The byte at position `i` of the key of `n`.
pub open spec fn be_byte(n: u64, i: int) -> u8 {
    ((n as int / weight(i)) % 256) as u8
}

/// The key of `n`: its eight bytes, the most significant first.
pub open spec fn be_bytes(n: u64) -> Seq<u8> {
    Seq::new(8, |i: int| be_byte(n, i))
}

/// The key under which poll `poll_id` is kept: the id as eight bytes, the
/// most significant first, so that keys are ordered as the ids are.
pub fn poll_key(poll_id: u64) -> (key: Vec<u8>)
    ensures
        key@ == be_bytes(poll_id),
{
    let n = poll_id;
    assert((n >> 56) & 0xff == (n / 0x100_0000_0000_0000) % 256 && (n >> 56) & 0xff < 256)
        by (bit_vector);
    assert((n >> 48) & 0xff == (n / 0x1_0000_0000_0000) % 256 && (n >> 48) & 0xff < 256)
        by (bit_vector);
    assert((n >> 40) & 0xff == (n / 0x100_0000_0000) % 256 && (n >> 40) & 0xff < 256)
        by (bit_vector);
    assert((n >> 32) & 0xff == (n / 0x1_0000_0000) % 256 && (n >> 32) & 0xff < 256)
        by (bit_vector);
    assert((n >> 24) & 0xff == (n / 0x100_0000) % 256 && (n >> 24) & 0xff < 256) by (bit_vector);
    assert((n >> 16) & 0xff == (n / 0x1_0000) % 256 && (n >> 16) & 0xff < 256) by (bit_vector);
    assert((n >> 8) & 0xff == (n / 0x100) % 256 && (n >> 8) & 0xff < 256) by (bit_vector);
    assert(n & 0xff == (n / 1) % 256 && n & 0xff < 256) by (bit_vector);
    let mut key: Vec<u8> = Vec::new();
    key.push(((n >> 56) & 0xff) as u8);
    key.push(((n >> 48) & 0xff) as u8);
    key.push(((n >> 40) & 0xff) as u8);
    key.push(((n >> 32) & 0xff) as u8);
    key.push(((n >> 24) & 0xff) as u8);
    key.push(((n >> 16) & 0xff) as u8);
    key.push(((n >> 8) & 0xff) as u8);
    key.push((n & 0xff) as u8);
    key
}

/// Of two numbers that agree above the digit that counts for `c`, the one
/// with the smaller digit is the smaller, and with the same digit they
/// agree from that digit up.
proof fn lemma_digit(a: int, b: int, c: int)
    requires
        0 <= a,
        0 <= b,
        0 < c,
        a / (c * 256) == b / (c * 256),
    ensures
        (a / c) % 256 < (b / c) % 256 ==> a < b,
        (a / c) % 256 > (b / c) % 256 ==> a > b,
        (a / c) % 256 == (b / c) % 256 ==> a / c == b / c,
{
    lemma_div_denominator(a, c, 256);
    lemma_div_denominator(b, c, 256);
    if a <= b {
        lemma_div_is_ordered(a, b, c);
    }
    if b <= a {
        lemma_div_is_ordered(b, a, c);
    }
}

proof fn lemma_key_order_from(a: u64, b: u64, i: int)
    requires
        0 <= i <= 8,
        i < 8 ==> a as int / (weight(i) * 256) == b as int / (weight(i) * 256),
        i == 8 ==> a == b,
    ensures
        bytes_lt_from(be_bytes(a), be_bytes(b), i) <==> a < b,
    decreases 8 - i,
{
    if i < 8 {
        lemma_digit(a as int, b as int, weight(i));
        if be_byte(a, i) == be_byte(b, i) {
            lemma_key_order_from(a, b, i + 1);
        }
    }
}

/// The keys of polls are ordered as the ids of the polls are.
pub proof fn law_keys_are_ordered_as_ids(a: u64, b: u64)
    ensures
        bytes_lt(be_bytes(a), be_bytes(b)) <==> a < b,
{
    assert(a as int / 0x1_0000_0000_0000_0000 == 0);
    assert(b as int / 0x1_0000_0000_0000_0000 == 0);
    lemma_key_order_from(a, b, 0);
}

} // verus!
