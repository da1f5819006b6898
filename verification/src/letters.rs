//! Small letters: the small letter of every character below U+8000 that has one.
//!
//! Keyboard layouts answer with characters of 15 bits, so these are all that a
//! key can stand for.
use vstd::prelude::*;

verus! {

/// The capitals of Latin
/// that stand right before their small letters.
pub open spec fn is_latin_pair(n: int) -> bool {
    if n % 2 == 0 {
        ||| 0x100 <= n <= 0x12e || 0x132 <= n <= 0x136 || 0x14a <= n <= 0x176
        ||| 0x182 <= n <= 0x184 || n == 0x198 || 0x1a0 <= n <= 0x1a4 || n == 0x1ac
        ||| n == 0x1b8 || n == 0x1bc || n == 0x1c8 || 0x1de <= n <= 0x1ee
        ||| 0x1f2 <= n <= 0x1f4 || 0x1f8 <= n <= 0x21e || 0x222 <= n <= 0x232
        ||| 0x246 <= n <= 0x24e
    } else {
        ||| 0x139 <= n <= 0x147 || 0x179 <= n <= 0x17d || n == 0x187 || n == 0x18b
        ||| n == 0x191 || n == 0x1a7 || n == 0x1af || 0x1b3 <= n <= 0x1b5
        ||| n == 0x1c5 || 0x1cb <= n <= 0x1db || n == 0x23b || n == 0x241
    }
}

/// How far the small letter of a capital lies above it, in
/// Latin.
pub open spec fn latin_offset(n: int) -> int {
    if 0x41 <= n <= 0x5a || 0xc0 <= n <= 0xd6 || 0xd8 <= n <= 0xde {
        32
    } else if n == 0x130 {
        0x69 - 0x130
    } else if n == 0x178 {
        0xff - 0x178
    } else if n == 0x181 {
        0x253 - 0x181
    } else if n == 0x186 {
        0x254 - 0x186
    } else if 0x189 <= n <= 0x18a || n == 0x193 {
        0x256 - 0x189
    } else if n == 0x18e {
        0x1dd - 0x18e
    } else if n == 0x18f {
        0x259 - 0x18f
    } else if n == 0x190 {
        0x25b - 0x190
    } else if n == 0x194 {
        0x263 - 0x194
    } else if n == 0x196 || n == 0x19c {
        0x269 - 0x196
    } else if n == 0x197 {
        0x268 - 0x197
    } else if n == 0x19d {
        0x272 - 0x19d
    } else if n == 0x19f {
        0x275 - 0x19f
    } else if n == 0x1a6 || n == 0x1a9 || n == 0x1ae {
        0x280 - 0x1a6
    } else if 0x1b1 <= n <= 0x1b2 {
        0x28a - 0x1b1
    } else if n == 0x1b7 {
        0x292 - 0x1b7
    } else if n == 0x1c4 || n == 0x1c7 || n == 0x1ca || n == 0x1f1 {
        2
    } else if n == 0x1f6 {
        0x195 - 0x1f6
    } else if n == 0x1f7 {
        0x1bf - 0x1f7
    } else if n == 0x220 {
        0x19e - 0x220
    } else if n == 0x23a {
        0x2c65 - 0x23a
    } else if n == 0x23d {
        0x19a - 0x23d
    } else if n == 0x23e {
        0x2c66 - 0x23e
    } else if n == 0x243 {
        0x180 - 0x243
    } else if n == 0x244 {
        0x289 - 0x244
    } else if n == 0x245 {
        0x28c - 0x245
    } else if is_latin_pair(n) {
        1
    } else {
        0
    }
}

/// The capitals of Greek
/// that stand right before their small letters.
pub open spec fn is_greek_pair(n: int) -> bool {
    if n % 2 == 0 {
        ||| 0x370 <= n <= 0x372 || n == 0x376 || 0x3d8 <= n <= 0x3ee || n == 0x3fa
    } else {
        ||| n == 0x3f7
    }
}

/// How far the small letter of a capital lies above it, in
/// Greek.
pub open spec fn greek_offset(n: int) -> int {
    if n == 0x37f {
        0x3f3 - 0x37f
    } else if n == 0x386 {
        0x3ac - 0x386
    } else if 0x388 <= n <= 0x38a {
        37
    } else if n == 0x38c {
        0x3cc - 0x38c
    } else if 0x38e <= n <= 0x38f {
        63
    } else if 0x391 <= n <= 0x3a1 || 0x3a3 <= n <= 0x3ab {
        32
    } else if n == 0x3cf {
        0x3d7 - 0x3cf
    } else if n == 0x3f4 {
        0x3b8 - 0x3f4
    } else if n == 0x3f9 {
        0x3f2 - 0x3f9
    } else if 0x3fd <= n <= 0x3ff {
        -130
    } else if is_greek_pair(n) {
        1
    } else {
        0
    }
}

/// The capitals of Cyrillic
/// that stand right before their small letters.
pub open spec fn is_cyrillic_pair(n: int) -> bool {
    if n % 2 == 0 {
        ||| 0x460 <= n <= 0x480 || 0x48a <= n <= 0x4be || 0x4d0 <= n <= 0x52e
    } else {
        ||| 0x4c1 <= n <= 0x4cd
    }
}

/// How far the small letter of a capital lies above it, in
/// Cyrillic.
pub open spec fn cyrillic_offset(n: int) -> int {
    if 0x400 <= n <= 0x40f {
        80
    } else if 0x410 <= n <= 0x42f {
        32
    } else if n == 0x4c0 {
        0x4cf - 0x4c0
    } else if is_cyrillic_pair(n) {
        1
    } else {
        0
    }
}

/// How far the small letter of a capital lies above it, in
/// Armenian.
pub open spec fn armenian_offset(n: int) -> int {
    if 0x531 <= n <= 0x556 {
        48
    } else {
        0
    }
}

/// How far the small letter of a capital lies above it, in
/// Georgian, Cherokee and Cyrillic Extended-C.
pub open spec fn georgian_offset(n: int) -> int {
    if 0x10a0 <= n <= 0x10c5 || n == 0x10c7 || n == 0x10cd {
        0x2d00 - 0x10a0
    } else if 0x13a0 <= n <= 0x13ef {
        0xab70 - 0x13a0
    } else if 0x13f0 <= n <= 0x13f5 {
        8
    } else if 0x1c90 <= n <= 0x1cba || 0x1cbd <= n <= 0x1cbf {
        0x10d0 - 0x1c90
    } else if n == 0x1c89 {
        1
    } else {
        0
    }
}

/// The capitals of Latin Extended Additional
/// that stand right before their small letters.
pub open spec fn is_vietnamese_pair(n: int) -> bool {
    if n % 2 == 0 {
        ||| 0x1e00 <= n <= 0x1e94 || 0x1ea0 <= n <= 0x1efe
    } else {
        false
    }
}

/// How far the small letter of a capital lies above it, in
/// Latin Extended Additional.
pub open spec fn vietnamese_offset(n: int) -> int {
    if n == 0x1e9e {
        0xdf - 0x1e9e
    } else if is_vietnamese_pair(n) {
        1
    } else {
        0
    }
}

/// How far the small letter of a capital lies above it, in
/// Greek Extended.
pub open spec fn polytonic_offset(n: int) -> int {
    if 0x1f08 <= n <= 0x1f0f || 0x1f18 <= n <= 0x1f1d
        || 0x1f28 <= n <= 0x1f2f || 0x1f38 <= n <= 0x1f3f
        || 0x1f48 <= n <= 0x1f4d || (0x1f59 <= n <= 0x1f5f && n % 2 == 1)
        || 0x1f68 <= n <= 0x1f6f || 0x1f88 <= n <= 0x1f8f
        || 0x1f98 <= n <= 0x1f9f || 0x1fa8 <= n <= 0x1faf
        || 0x1fb8 <= n <= 0x1fb9 || 0x1fd8 <= n <= 0x1fd9
        || 0x1fe8 <= n <= 0x1fe9 {
        -8
    } else if 0x1fba <= n <= 0x1fbb {
        -74
    } else if n == 0x1fbc || n == 0x1fcc || n == 0x1ffc {
        -9
    } else if 0x1fc8 <= n <= 0x1fcb {
        -86
    } else if 0x1fda <= n <= 0x1fdb {
        -100
    } else if 0x1fea <= n <= 0x1feb {
        -112
    } else if n == 0x1fec {
        0x1fe5 - 0x1fec
    } else if 0x1ff8 <= n <= 0x1ff9 {
        -128
    } else if 0x1ffa <= n <= 0x1ffb {
        -126
    } else {
        0
    }
}

/// How far the small letter of a capital lies above it, in
/// the letterlike symbols.
pub open spec fn letterlike_offset(n: int) -> int {
    if n == 0x2126 {
        0x3c9 - 0x2126
    } else if n == 0x212a {
        0x6b - 0x212a
    } else if n == 0x212b {
        0xe5 - 0x212b
    } else if n == 0x2132 {
        0x214e - 0x2132
    } else if 0x2160 <= n <= 0x216f {
        16
    } else if 0x24b6 <= n <= 0x24cf {
        26
    } else if n == 0x2183 {
        1
    } else {
        0
    }
}

/// The capitals of Glagolitic, Latin Extended-C and Coptic
/// that stand right before their small letters.
pub open spec fn is_glagolitic_pair(n: int) -> bool {
    if n % 2 == 0 {
        ||| n == 0x2c60 || n == 0x2c72 || 0x2c80 <= n <= 0x2ce2 || n == 0x2cf2
    } else {
        ||| 0x2c67 <= n <= 0x2c6b || n == 0x2c75 || 0x2ceb <= n <= 0x2ced
    }
}

/// How far the small letter of a capital lies above it, in
/// Glagolitic, Latin Extended-C and Coptic.
pub open spec fn glagolitic_offset(n: int) -> int {
    if 0x2c00 <= n <= 0x2c2f {
        48
    } else if n == 0x2c62 {
        0x26b - 0x2c62
    } else if n == 0x2c63 {
        0x1d7d - 0x2c63
    } else if n == 0x2c64 {
        0x27d - 0x2c64
    } else if n == 0x2c6d {
        0x251 - 0x2c6d
    } else if n == 0x2c6e {
        0x271 - 0x2c6e
    } else if n == 0x2c6f {
        0x250 - 0x2c6f
    } else if n == 0x2c70 {
        0x252 - 0x2c70
    } else if 0x2c7e <= n <= 0x2c7f {
        0x23f - 0x2c7e
    } else if is_glagolitic_pair(n) {
        1
    } else {
        0
    }
}

/// How far the small letter of a capital below U+8000 lies above it; zero for all
/// else.
pub open spec fn small_letter_offset(n: int) -> int {
    if n < 0x250 {
        latin_offset(n)
    } else if n < 0x400 {
        greek_offset(n)
    } else if n < 0x530 {
        cyrillic_offset(n)
    } else if n < 0x1000 {
        armenian_offset(n)
    } else if n < 0x1e00 {
        georgian_offset(n)
    } else if n < 0x1f00 {
        vietnamese_offset(n)
    } else if n < 0x2000 {
        polytonic_offset(n)
    } else if n < 0x2c00 {
        letterlike_offset(n)
    } else if n < 0x8000 {
        glagolitic_offset(n)
    } else {
        0
    }
}

/// The small letter of a capital below U+8000, and every other character as it
/// is. The small letter of the dotted capital I is the plain small i.
pub open spec fn lower_case(c: char) -> char {
    (c as int + small_letter_offset(c as int)) as char
}

/// Whether a number lies in a range, both ends counted in.
fn between(n: u32, first: u32, last: u32) -> (inside: bool)
    ensures
        inside == (first <= n <= last),
{
    first <= n && n <= last
}

/// Whether this is a capital of Latin
/// that stands right before its small letter.
fn latin_pair(n: u32) -> (pair: bool)
    ensures
        pair == is_latin_pair(n as int),
{
    if n % 2 == 0 {
        between(n, 0x100, 0x12e) || between(n, 0x132, 0x136)
            || between(n, 0x14a, 0x176) || between(n, 0x182, 0x184) || n == 0x198
            || between(n, 0x1a0, 0x1a4) || n == 0x1ac || n == 0x1b8 || n == 0x1bc
            || n == 0x1c8 || between(n, 0x1de, 0x1ee) || between(n, 0x1f2, 0x1f4)
            || between(n, 0x1f8, 0x21e) || between(n, 0x222, 0x232)
            || between(n, 0x246, 0x24e)
    } else {
        between(n, 0x139, 0x147) || between(n, 0x179, 0x17d) || n == 0x187
            || n == 0x18b || n == 0x191 || n == 0x1a7 || n == 0x1af
            || between(n, 0x1b3, 0x1b5) || n == 0x1c5 || between(n, 0x1cb, 0x1db)
            || n == 0x23b || n == 0x241
    }
}

/// How far the small letter of a capital lies above it, in
/// Latin.
fn offset_in_latin(n: u32) -> (offset: i32)
    ensures
        offset == latin_offset(n as int),
{
    if between(n, 0x41, 0x5a) || between(n, 0xc0, 0xd6)
        || between(n, 0xd8, 0xde) {
        32
    } else if n == 0x130 {
        0x69 - 0x130
    } else if n == 0x178 {
        0xff - 0x178
    } else if n == 0x181 {
        0x253 - 0x181
    } else if n == 0x186 {
        0x254 - 0x186
    } else if between(n, 0x189, 0x18a) || n == 0x193 {
        0x256 - 0x189
    } else if n == 0x18e {
        0x1dd - 0x18e
    } else if n == 0x18f {
        0x259 - 0x18f
    } else if n == 0x190 {
        0x25b - 0x190
    } else if n == 0x194 {
        0x263 - 0x194
    } else if n == 0x196 || n == 0x19c {
        0x269 - 0x196
    } else if n == 0x197 {
        0x268 - 0x197
    } else if n == 0x19d {
        0x272 - 0x19d
    } else if n == 0x19f {
        0x275 - 0x19f
    } else if n == 0x1a6 || n == 0x1a9 || n == 0x1ae {
        0x280 - 0x1a6
    } else if between(n, 0x1b1, 0x1b2) {
        0x28a - 0x1b1
    } else if n == 0x1b7 {
        0x292 - 0x1b7
    } else if n == 0x1c4 || n == 0x1c7 || n == 0x1ca || n == 0x1f1 {
        2
    } else if n == 0x1f6 {
        0x195 - 0x1f6
    } else if n == 0x1f7 {
        0x1bf - 0x1f7
    } else if n == 0x220 {
        0x19e - 0x220
    } else if n == 0x23a {
        0x2c65 - 0x23a
    } else if n == 0x23d {
        0x19a - 0x23d
    } else if n == 0x23e {
        0x2c66 - 0x23e
    } else if n == 0x243 {
        0x180 - 0x243
    } else if n == 0x244 {
        0x289 - 0x244
    } else if n == 0x245 {
        0x28c - 0x245
    } else if latin_pair(n) {
        1
    } else {
        0
    }
}

/// Whether this is a capital of Greek
/// that stands right before its small letter.
fn greek_pair(n: u32) -> (pair: bool)
    ensures
        pair == is_greek_pair(n as int),
{
    if n % 2 == 0 {
        between(n, 0x370, 0x372) || n == 0x376 || between(n, 0x3d8, 0x3ee)
            || n == 0x3fa
    } else {
        n == 0x3f7
    }
}

/// How far the small letter of a capital lies above it, in
/// Greek.
fn offset_in_greek(n: u32) -> (offset: i32)
    ensures
        offset == greek_offset(n as int),
{
    if n == 0x37f {
        0x3f3 - 0x37f
    } else if n == 0x386 {
        0x3ac - 0x386
    } else if between(n, 0x388, 0x38a) {
        37
    } else if n == 0x38c {
        0x3cc - 0x38c
    } else if between(n, 0x38e, 0x38f) {
        63
    } else if between(n, 0x391, 0x3a1) || between(n, 0x3a3, 0x3ab) {
        32
    } else if n == 0x3cf {
        0x3d7 - 0x3cf
    } else if n == 0x3f4 {
        0x3b8 - 0x3f4
    } else if n == 0x3f9 {
        0x3f2 - 0x3f9
    } else if between(n, 0x3fd, 0x3ff) {
        -130
    } else if greek_pair(n) {
        1
    } else {
        0
    }
}

/// Whether this is a capital of Cyrillic
/// that stands right before its small letter.
fn cyrillic_pair(n: u32) -> (pair: bool)
    ensures
        pair == is_cyrillic_pair(n as int),
{
    if n % 2 == 0 {
        between(n, 0x460, 0x480) || between(n, 0x48a, 0x4be)
            || between(n, 0x4d0, 0x52e)
    } else {
        between(n, 0x4c1, 0x4cd)
    }
}

/// How far the small letter of a capital lies above it, in
/// Cyrillic.
fn offset_in_cyrillic(n: u32) -> (offset: i32)
    ensures
        offset == cyrillic_offset(n as int),
{
    if between(n, 0x400, 0x40f) {
        80
    } else if between(n, 0x410, 0x42f) {
        32
    } else if n == 0x4c0 {
        0x4cf - 0x4c0
    } else if cyrillic_pair(n) {
        1
    } else {
        0
    }
}

/// How far the small letter of a capital lies above it, in
/// Armenian.
fn offset_in_armenian(n: u32) -> (offset: i32)
    ensures
        offset == armenian_offset(n as int),
{
    if between(n, 0x531, 0x556) {
        48
    } else {
        0
    }
}

/// How far the small letter of a capital lies above it, in
/// Georgian, Cherokee and Cyrillic Extended-C.
fn offset_in_georgian(n: u32) -> (offset: i32)
    ensures
        offset == georgian_offset(n as int),
{
    if between(n, 0x10a0, 0x10c5) || n == 0x10c7 || n == 0x10cd {
        0x2d00 - 0x10a0
    } else if between(n, 0x13a0, 0x13ef) {
        0xab70 - 0x13a0
    } else if between(n, 0x13f0, 0x13f5) {
        8
    } else if between(n, 0x1c90, 0x1cba) || between(n, 0x1cbd, 0x1cbf) {
        0x10d0 - 0x1c90
    } else if n == 0x1c89 {
        1
    } else {
        0
    }
}

/// Whether this is a capital of Latin Extended Additional
/// that stands right before its small letter.
fn vietnamese_pair(n: u32) -> (pair: bool)
    ensures
        pair == is_vietnamese_pair(n as int),
{
    if n % 2 == 0 {
        between(n, 0x1e00, 0x1e94) || between(n, 0x1ea0, 0x1efe)
    } else {
        false
    }
}

/// How far the small letter of a capital lies above it, in
/// Latin Extended Additional.
fn offset_in_vietnamese(n: u32) -> (offset: i32)
    ensures
        offset == vietnamese_offset(n as int),
{
    if n == 0x1e9e {
        0xdf - 0x1e9e
    } else if vietnamese_pair(n) {
        1
    } else {
        0
    }
}

/// How far the small letter of a capital lies above it, in
/// Greek Extended.
fn offset_in_polytonic(n: u32) -> (offset: i32)
    ensures
        offset == polytonic_offset(n as int),
{
    if between(n, 0x1f08, 0x1f0f) || between(n, 0x1f18, 0x1f1d)
        || between(n, 0x1f28, 0x1f2f) || between(n, 0x1f38, 0x1f3f)
        || between(n, 0x1f48, 0x1f4d)
        || (between(n, 0x1f59, 0x1f5f) && n % 2 == 1)
        || between(n, 0x1f68, 0x1f6f) || between(n, 0x1f88, 0x1f8f)
        || between(n, 0x1f98, 0x1f9f) || between(n, 0x1fa8, 0x1faf)
        || between(n, 0x1fb8, 0x1fb9) || between(n, 0x1fd8, 0x1fd9)
        || between(n, 0x1fe8, 0x1fe9) {
        -8
    } else if between(n, 0x1fba, 0x1fbb) {
        -74
    } else if n == 0x1fbc || n == 0x1fcc || n == 0x1ffc {
        -9
    } else if between(n, 0x1fc8, 0x1fcb) {
        -86
    } else if between(n, 0x1fda, 0x1fdb) {
        -100
    } else if between(n, 0x1fea, 0x1feb) {
        -112
    } else if n == 0x1fec {
        0x1fe5 - 0x1fec
    } else if between(n, 0x1ff8, 0x1ff9) {
        -128
    } else if between(n, 0x1ffa, 0x1ffb) {
        -126
    } else {
        0
    }
}

/// How far the small letter of a capital lies above it, in
/// the letterlike symbols.
fn offset_in_letterlike(n: u32) -> (offset: i32)
    ensures
        offset == letterlike_offset(n as int),
{
    if n == 0x2126 {
        0x3c9 - 0x2126
    } else if n == 0x212a {
        0x6b - 0x212a
    } else if n == 0x212b {
        0xe5 - 0x212b
    } else if n == 0x2132 {
        0x214e - 0x2132
    } else if between(n, 0x2160, 0x216f) {
        16
    } else if between(n, 0x24b6, 0x24cf) {
        26
    } else if n == 0x2183 {
        1
    } else {
        0
    }
}

/// Whether this is a capital of Glagolitic, Latin Extended-C and Coptic
/// that stands right before its small letter.
fn glagolitic_pair(n: u32) -> (pair: bool)
    ensures
        pair == is_glagolitic_pair(n as int),
{
    if n % 2 == 0 {
        n == 0x2c60 || n == 0x2c72 || between(n, 0x2c80, 0x2ce2)
            || n == 0x2cf2
    } else {
        between(n, 0x2c67, 0x2c6b) || n == 0x2c75
            || between(n, 0x2ceb, 0x2ced)
    }
}

/// How far the small letter of a capital lies above it, in
/// Glagolitic, Latin Extended-C and Coptic.
fn offset_in_glagolitic(n: u32) -> (offset: i32)
    ensures
        offset == glagolitic_offset(n as int),
{
    if between(n, 0x2c00, 0x2c2f) {
        48
    } else if n == 0x2c62 {
        0x26b - 0x2c62
    } else if n == 0x2c63 {
        0x1d7d - 0x2c63
    } else if n == 0x2c64 {
        0x27d - 0x2c64
    } else if n == 0x2c6d {
        0x251 - 0x2c6d
    } else if n == 0x2c6e {
        0x271 - 0x2c6e
    } else if n == 0x2c6f {
        0x250 - 0x2c6f
    } else if n == 0x2c70 {
        0x252 - 0x2c70
    } else if between(n, 0x2c7e, 0x2c7f) {
        0x23f - 0x2c7e
    } else if glagolitic_pair(n) {
        1
    } else {
        0
    }
}

/// How far the small letter of a capital below U+8000 lies above it; zero for all
/// else.
fn offset_of(n: u32) -> (offset: i32)
    ensures
        offset == small_letter_offset(n as int),
{
    if n < 0x250 {
        offset_in_latin(n)
    } else if n < 0x400 {
        offset_in_greek(n)
    } else if n < 0x530 {
        offset_in_cyrillic(n)
    } else if n < 0x1000 {
        offset_in_armenian(n)
    } else if n < 0x1e00 {
        offset_in_georgian(n)
    } else if n < 0x1f00 {
        offset_in_vietnamese(n)
    } else if n < 0x2000 {
        offset_in_polytonic(n)
    } else if n < 0x2c00 {
        offset_in_letterlike(n)
    } else if n < 0x8000 {
        offset_in_glagolitic(n)
    } else {
        0
    }
}

/// A small letter is no capital, and lies among the letters.
proof fn lemma_small_letters(n: int)
    requires
        0 <= n,
    ensures
        small_letter_offset(n + small_letter_offset(n)) == 0,
        ({
            let small = n + small_letter_offset(n);
            small == n || 0x61 <= small <= 0x7a || 0xa0 <= small < 0xd800
        }),
{
}

/// The small letter of a capital below U+8000, and every other character as it is.
pub fn to_lower_case(c: char) -> (lower: char)
    ensures
        lower == lower_case(c),
{
    let n: u32 = c as u32;
    proof {
        lemma_small_letters(n as int);
    }
    let small: u32 = (n as i32 + offset_of(n)) as u32;
    assert(crate::utf16::is_scalar(small as int));
    match char::from_u32(small) {
        Some(lower) => {
            proof {
                vstd::utf8::char_u32_cast(lower, small);
            }
            lower
        },
        None => c,
    }
}

/// The result has no small letter of its own: it is in lower case.
pub proof fn law_lower_case_is_final(c: char)
    ensures
        lower_case(lower_case(c)) == lower_case(c),
{
    lemma_small_letters(c as int);
    assert(crate::utf16::is_scalar(c as int + small_letter_offset(c as int)));
}

/// Lower case makes no control character of another character.
pub proof fn law_lower_case_makes_no_control(c: char)
    requires
        !crate::keycodes::is_control(c),
    ensures
        !crate::keycodes::is_control(lower_case(c)),
{
    lemma_small_letters(c as int);
    assert(crate::utf16::is_scalar(c as int + small_letter_offset(c as int)));
}

/// Among the ASCII characters the capitals alone are changed, each to its own
/// small letter.
pub proof fn law_ascii_capitals_become_small(c: char)
    requires
        c as int <= 0x7f,
    ensures
        0x41 <= c as int <= 0x5a ==> lower_case(c) as int == c as int + 0x20,
        !(0x41 <= c as int <= 0x5a) ==> lower_case(c) == c,
{
}


} // verus!
