//! The 16-bit fields that win32 packs into a message's `wparam` and `lparam`.
use vstd::prelude::*;

verus! {

/// The low 16 bits of a message parameter.
pub open spec fn low_word(n: int) -> int {
    n % 0x10000
}

/// The next 16 bits of a message parameter.
pub open spec fn high_word(n: int) -> int {
    (n / 0x10000) % 0x10000
}

/// The value of a 16-bit field read as a signed number.
pub open spec fn signed16(n: int) -> int {
    if n < 0x8000 {
        n
    } else {
        n - 0x10000
    }
}

/// The value of the low 32 bits of `n` read as a signed number.
pub open spec fn signed32(n: int) -> int {
    let low = n % 0x1_0000_0000;
    if low < 0x8000_0000 {
        low
    } else {
        low - 0x1_0000_0000
    }
}

/// The low word of an `lparam`.
pub fn lparam_low(lparam: isize) -> (word: u16)
    ensures
        word == low_word(lparam as int),
{
    assert(0 <= lparam & 0xffff <= 0xffff && lparam & 0xffff == lparam % 0x10000) by (bit_vector);
    (lparam & 0xffff) as u16
}

/// The high word of an `lparam`.
pub fn lparam_high(lparam: isize) -> (word: u16)
    ensures
        word == high_word(lparam as int),
{
    assert(0 <= (lparam >> 16) & 0xffff <= 0xffff) by (bit_vector);
    assert((lparam >> 16) & 0xffff == (lparam >> 16) % 0x10000) by (bit_vector);
    assert((lparam >> 16) == lparam / 0x10000) by (bit_vector);
    ((lparam >> 16) & 0xffff) as u16
}

/// The high word of a `wparam`.
pub fn wparam_high(wparam: usize) -> (word: u16)
    ensures
        word == high_word(wparam as int),
{
    assert((wparam >> 16) & 0xffff <= 0xffff) by (bit_vector);
    assert((wparam >> 16) & 0xffff == (wparam / 0x10000) % 0x10000) by (bit_vector);
    ((wparam >> 16) & 0xffff) as u16
}

/// Reads a 16-bit field as a signed number.
pub fn as_signed(word: u16) -> (value: i16)
    ensures
        value == signed16(word as int),
{
    assert(word < 0x8000 ==> word as i16 == word) by (bit_vector);
    assert(word >= 0x8000 ==> word as i16 == word - 0x10000) by (bit_vector);
    word as i16
}

/// A `wparam` narrowed to a signed 32-bit number.
pub fn wparam_i32(wparam: usize) -> (value: i32)
    ensures
        value == signed32(wparam as int),
{
    let w: u64 = wparam as u64;
    assert(w % 0x1_0000_0000 < 0x8000_0000 ==> w as i32 == w % 0x1_0000_0000) by (bit_vector);
    assert(w % 0x1_0000_0000 >= 0x8000_0000 ==> w as i32 == w % 0x1_0000_0000 - 0x1_0000_0000)
        by (bit_vector);
    w as i32
}

/// A `wparam` narrowed to 32 bits.
pub fn wparam_u32(wparam: usize) -> (value: u32)
    ensures
        value == wparam as int % 0x1_0000_0000,
{
    let w: u64 = wparam as u64;
    assert(w as u32 == w % 0x1_0000_0000) by (bit_vector);
    w as u32
}

/// The two words of a number are its low 32 bits, each word below 2 to the
/// power of 16. No other pair of words is.
pub proof fn law_words_make_up_the_number(n: int)
    ensures
        0 <= low_word(n) < 0x10000,
        0 <= high_word(n) < 0x10000,
        n % 0x1_0000_0000 == high_word(n) * 0x10000 + low_word(n),
{
}

/// A word read as a signed number is congruent to it and takes 16 bits.
pub proof fn law_signed_word_is_congruent(word: int)
    requires
        0 <= word < 0x10000,
    ensures
        -0x8000 <= signed16(word) < 0x8000,
        signed16(word) == word || signed16(word) == word - 0x10000,
{
}

/// The low 32 bits read as a signed number are congruent to the number and take
/// 32 bits.
pub proof fn law_signed_bits_are_congruent(n: int)
    ensures
        -0x8000_0000 <= signed32(n) < 0x8000_0000,
        (n - signed32(n)) % 0x1_0000_0000 == 0,
{
}


} // verus!
