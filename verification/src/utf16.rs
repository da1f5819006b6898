//! UTF-16, the text encoding of every "wide" win32 entry point.
//!
//! Text goes to the system as a NUL-terminated sequence of UTF-16 code units
//! and comes back as code units that may hold unpaired surrogates.
use vstd::prelude::*;

verus! {

/// U+FFFD, which stands for every code unit that encodes no character.
pub const REPLACEMENT: u16 = 0xfffd;

/// `char::from_u32`: the character whose scalar value is `i`, or `None` when
/// `i` is a surrogate or lies above U+10FFFF.
pub assume_specification[ char::from_u32 ](i: u32) -> (c: Option<char>)
    ensures
        c matches Some(ch) ==> ch as u32 == i,
        c is Some <==> is_scalar(i as int),
;

/// `String::push`: appends one character to the end of the text.
pub assume_specification[ String::push ](s: &mut String, ch: char)
    ensures
        final(s)@ == old(s)@.push(ch),
;

/// A Unicode scalar value: a code point that is no surrogate.
pub open spec fn is_scalar(n: int) -> bool {
    0 <= n < 0xd800 || 0xe000 <= n < 0x110000
}

/// The leading half of a surrogate pair.
pub open spec fn is_high_surrogate(u: u16) -> bool {
    0xd800 <= u < 0xdc00
}

/// The trailing half of a surrogate pair.
pub open spec fn is_low_surrogate(u: u16) -> bool {
    0xdc00 <= u < 0xe000
}

/// The character that a surrogate pair encodes.
pub open spec fn pair_char(high: u16, low: u16) -> char {
    (0x10000 + (high - 0xd800) * 0x400 + (low - 0xdc00)) as char
}

/// The code units of one character.
pub open spec fn encode_char(c: char) -> Seq<u16> {
    let n = c as int;
    if n < 0x10000 {
        seq![n as u16]
    } else {
        seq![
            (0xd800 + (n - 0x10000) / 0x400) as u16,
            (0xdc00 + (n - 0x10000) % 0x400) as u16,
        ]
    }
}

/// The code units of a text, without a terminator.
pub open spec fn encode_utf16(s: Seq<char>) -> Seq<u16>
    decreases s.len(),
{
    if s.len() == 0 {
        seq![]
    } else {
        encode_char(s[0]) + encode_utf16(s.drop_first())
    }
}

/// The text of a sequence of code units: each surrogate pair is one character,
/// each surrogate outside a pair is U+FFFD, every other unit is its own character.
pub open spec fn decode_utf16_lossy(u: Seq<u16>) -> Seq<char>
    decreases u.len(),
{
    if u.len() == 0 {
        seq![]
    } else if u.len() >= 2 && is_high_surrogate(u[0]) && is_low_surrogate(u[1]) {
        seq![pair_char(u[0], u[1])] + decode_utf16_lossy(u.skip(2))
    } else if is_high_surrogate(u[0]) || is_low_surrogate(u[0]) {
        seq![REPLACEMENT as char] + decode_utf16_lossy(u.skip(1))
    } else {
        seq![u[0] as char] + decode_utf16_lossy(u.skip(1))
    }
}

/// The part of a sequence of code units before its first NUL.
pub open spec fn units_before_nul(u: Seq<u16>) -> Seq<u16>
    decreases u.len(),
{
    if u.len() == 0 || u[0] == 0 {
        seq![]
    } else {
        seq![u[0]] + units_before_nul(u.skip(1))
    }
}

/// The part of a text before its first NUL character.
pub open spec fn chars_before_nul(s: Seq<char>) -> Seq<char>
    decreases s.len(),
{
    if s.len() == 0 || s[0] == '\0' {
        seq![]
    } else {
        seq![s[0]] + chars_before_nul(s.drop_first())
    }
}

/// The NUL-terminated code units of a text.
pub open spec fn wide_units(s: Seq<char>) -> Seq<u16> {
    encode_utf16(s).push(0)
}

/// Appending a character to a text appends its code units.
proof fn lemma_encode_push(s: Seq<char>, c: char)
    ensures
        encode_utf16(s.push(c)) == encode_utf16(s) + encode_char(c),
    decreases s.len(),
{
    reveal_with_fuel(encode_utf16, 2);
    if s.len() == 0 {
        assert(s.push(c).drop_first() =~= seq![]);
        assert(encode_utf16(s.push(c)) =~= encode_char(c));
    } else {
        assert(s.push(c).drop_first() =~= s.drop_first().push(c));
        lemma_encode_push(s.drop_first(), c);
        assert(encode_utf16(s.push(c)) =~= encode_utf16(s) + encode_char(c));
    }
}

/// Appends the code units of one character.
fn push_char(units: &mut Vec<u16>, c: char)
    ensures
        final(units)@ == old(units)@ + encode_char(c),
{
    let n: u32 = c as u32;
    if n < 0x10000 {
        units.push(n as u16);
    } else {
        units.push((0xd800 + (n - 0x10000) / 0x400) as u16);
        units.push((0xdc00 + (n - 0x10000) % 0x400) as u16);
    }
    assert(units@ =~= old(units)@ + encode_char(c));
}

/// Encodes `s` as NUL-terminated UTF-16 for the wide win32 entry points.
pub fn wide(s: &str) -> (units: Vec<u16>)
    ensures
        units@ == wide_units(s@),
{
    let mut units: Vec<u16> = Vec::new();
    for c in it: s.chars()
        invariant
            it.seq() == s@,
            units@ == encode_utf16(s@.take(it.index())),
    {
        let ghost done = s@.take(it.index());
        proof {
            lemma_encode_push(done, c);
            assert(s@.take(it.index() + 1) =~= done.push(c));
        }
        push_char(&mut units, c);
    }
    assert(s@.take(s@.len() as int) =~= s@);
    units.push(0);
    units
}

/// Decodes code units, with U+FFFD in place of every unpaired surrogate.
pub fn from_utf16_lossy(units: &[u16]) -> (text: String)
    ensures
        text@ == decode_utf16_lossy(units@),
{
    let mut text = String::new();
    let mut i: usize = 0;
    assert(units@.skip(0) =~= units@);
    while i < units.len()
        invariant
            i <= units.len(),
            decode_utf16_lossy(units@) == text@ + decode_utf16_lossy(units@.skip(i as int)),
        decreases units.len() - i,
    {
        let u: u16 = units[i];
        let ghost rest = units@.skip(i as int);
        let ghost before = text@;
        let mut n: u32 = u as u32;
        let mut width: usize = 1;
        if 0xd800 <= u && u < 0xe000 {
            n = REPLACEMENT as u32;
            if u < 0xdc00 && i + 1 < units.len() {
                let v: u16 = units[i + 1];
                if 0xdc00 <= v && v < 0xe000 {
                    n = 0x10000 + (u as u32 - 0xd800) * 0x400 + (v as u32 - 0xdc00);
                    width = 2;
                }
            }
        }
        assert(is_scalar(n as int));
        if let Some(c) = char::from_u32(n) {
            text.push(c);
            proof {
                vstd::utf8::char_u32_cast(c, n);
                assert(decode_utf16_lossy(rest) == seq![c] + decode_utf16_lossy(
                    rest.skip(width as int),
                ));
                assert(rest.skip(width as int) =~= units@.skip(i + width));
                assert(before + (seq![c] + decode_utf16_lossy(rest.skip(width as int)))
                    =~= text@ + decode_utf16_lossy(units@.skip(i + width)));
            }
        }
        i += width;
    }
    assert(decode_utf16_lossy(units@.skip(i as int)) =~= seq![]);
    text
}

/// Decoding gives back every text that was encoded.
pub proof fn law_decode_inverts_encode(s: Seq<char>)
    ensures
        decode_utf16_lossy(encode_utf16(s)) == s,
    decreases s.len(),
{
    if s.len() > 0 {
        let rest = s.drop_first();
        let u = encode_utf16(s);
        law_decode_inverts_encode(rest);
        lemma_char_range(s[0]);
        assert(u.skip(encode_char(s[0]).len() as int) =~= encode_utf16(rest));
        assert(decode_utf16_lossy(u) =~= seq![s[0]] + decode_utf16_lossy(encode_utf16(rest)));
        assert(s =~= seq![s[0]] + rest);
    }
}

/// The scalar value of a character lies in the Unicode range.
proof fn lemma_char_range(c: char)
    ensures
        is_scalar(c as int),
{
}

/// A reader that stops at the first NUL sees exactly the part of the text
/// before its own first NUL, whatever follows the terminator.
pub proof fn law_wide_is_nul_terminated(s: Seq<char>, after: Seq<u16>)
    ensures
        units_before_nul(wide_units(s) + after) == encode_utf16(chars_before_nul(s)),
    decreases s.len(),
{
    let all = wide_units(s) + after;
    if s.len() == 0 {
        assert(all[0] == 0);
    } else {
        let rest = s.drop_first();
        let e = encode_char(s[0]);
        lemma_char_range(s[0]);
        law_wide_is_nul_terminated(rest, after);
        assert(all =~= e + (wide_units(rest) + after));
        if s[0] == '\0' {
            assert(all[0] == 0);
        } else {
            let tail = chars_before_nul(rest);
            assert(all.skip(e.len() as int) =~= wide_units(rest) + after);
            assert((seq![s[0]] + tail)[0] == s[0]);
            assert((seq![s[0]] + tail).drop_first() =~= tail);
            assert(encode_utf16(chars_before_nul(s)) == e + encode_utf16(tail));
            if e.len() == 2 {
                assert(all.skip(1).skip(1) =~= all.skip(2));
                reveal_with_fuel(units_before_nul, 3);
            }
            assert(units_before_nul(all) =~= e + units_before_nul(wide_units(rest) + after));
        }
    }
}

/// A text without a NUL character has no part cut off.
pub proof fn law_text_without_nul_is_whole(s: Seq<char>)
    requires
        !s.contains('\0'),
    ensures
        chars_before_nul(s) == s,
    decreases s.len(),
{
    if s.len() > 0 {
        assert(s[0] != '\0');
        assert(!s.drop_first().contains('\0')) by {
            if s.drop_first().contains('\0') {
                let i = choose|i: int| 0 <= i < s.len() - 1 && s.drop_first()[i] == '\0';
                assert(s[i + 1] == '\0');
            }
        }
        law_text_without_nul_is_whole(s.drop_first());
        assert(s =~= seq![s[0]] + s.drop_first());
    }
}

/// A scalar value is a number of the Unicode range that is no surrogate.
pub proof fn law_scalars_are_no_surrogates(n: int)
    ensures
        is_scalar(n) <==> (0 <= n <= 0x10ffff && !(0xd800 <= n <= 0xdfff)),
{
}

/// A character of the basic plane is its own code unit. Every other character is
/// a leading and a trailing surrogate, which hold the upper and the lower ten bits
/// of its distance from that plane.
pub proof fn law_code_units_of_a_character(c: char)
    ensures
        ({
            let u = encode_utf16(seq![c]);
            let n = c as int;
            &&& n < 0x10000 ==> u.len() == 1 && u[0] == n
            &&& n >= 0x10000 ==> {
                &&& u.len() == 2
                &&& 0xd800 <= u[0] <= 0xdbff
                &&& 0xdc00 <= u[1] <= 0xdfff
                &&& n - 0x10000 == (u[0] - 0xd800) * 0x400 + (u[1] - 0xdc00)
            }
        }),
{
    reveal_with_fuel(encode_utf16, 2);
    lemma_char_range(c);
    assert(seq![c].drop_first() =~= seq![]);
    assert(encode_utf16(seq![c]) =~= encode_char(c));
}

/// The code units of two texts, one after the other, are those of the texts put
/// together: no character is coded otherwise for what stands around it.
pub proof fn law_texts_are_encoded_one_after_another(a: Seq<char>, b: Seq<char>)
    ensures
        encode_utf16(a + b) == encode_utf16(a) + encode_utf16(b),
        encode_utf16(Seq::<char>::empty()) == Seq::<u16>::empty(),
    decreases a.len(),
{
    if a.len() == 0 {
        assert(a + b =~= b);
        assert(encode_utf16(a) + encode_utf16(b) =~= encode_utf16(b));
    } else {
        law_texts_are_encoded_one_after_another(a.drop_first(), b);
        assert((a + b).drop_first() =~= a.drop_first() + b);
        assert(encode_utf16(a + b) =~= encode_utf16(a) + encode_utf16(b));
    }
}

/// The NUL-terminated form of a text is its code units and one zero.
pub proof fn law_wide_adds_one_zero(s: Seq<char>)
    ensures
        wide_units(s).len() == encode_utf16(s).len() + 1,
        wide_units(s).last() == 0,
        wide_units(s).drop_last() == encode_utf16(s),
{
    assert(wide_units(s).drop_last() =~= encode_utf16(s));
}

/// A code unit that is no surrogate stands for its own character, a surrogate
/// alone for U+FFFD, and a leading with a trailing surrogate for the character whose
/// bits they hold.
pub proof fn law_character_of_code_units(u: u16, v: u16)
    ensures
        ({
            let one = decode_utf16_lossy(seq![u]);
            let two = decode_utf16_lossy(seq![u, v]);
            &&& one.len() == 1
            &&& !(0xd800 <= u <= 0xdfff) ==> one[0] as int == u
            &&& 0xd800 <= u <= 0xdfff ==> one[0] as int == 0xfffd
            &&& 0xd800 <= u <= 0xdbff && 0xdc00 <= v <= 0xdfff ==> {
                &&& two.len() == 1
                &&& two[0] as int - 0x10000 == (u - 0xd800) * 0x400 + (v - 0xdc00)
            }
        }),
{
    reveal_with_fuel(decode_utf16_lossy, 2);
    assert(seq![u].skip(1) =~= seq![]);
    assert(seq![u, v].skip(2) =~= seq![]);
    if 0xd800 <= u <= 0xdbff && 0xdc00 <= v <= 0xdfff {
        assert(is_scalar(0x10000 + (u - 0xd800) * 0x400 + (v - 0xdc00)));
        assert(decode_utf16_lossy(seq![u, v]) =~= seq![pair_char(u, v)]);
    }
    assert(decode_utf16_lossy(seq![u]).len() == 1);
}

/// Code units may be decoded in parts, unless the cut goes through a surrogate pair.
pub proof fn law_parts_are_decoded_one_after_another(a: Seq<u16>, b: Seq<u16>)
    requires
        !(a.len() > 0 && b.len() > 0 && 0xd800 <= a.last() <= 0xdbff && 0xdc00 <= b[0] <= 0xdfff),
    ensures
        decode_utf16_lossy(a + b) == decode_utf16_lossy(a) + decode_utf16_lossy(b),
        decode_utf16_lossy(Seq::<u16>::empty()) == Seq::<char>::empty(),
    decreases a.len(),
{
    let all = a + b;
    if a.len() == 0 {
        assert(all =~= b);
        assert(decode_utf16_lossy(a) + decode_utf16_lossy(b) =~= decode_utf16_lossy(b));
    } else {
        let width: int = if a.len() >= 2 && is_high_surrogate(a[0]) && is_low_surrogate(a[1]) {
            2
        } else {
            1
        };
        let rest = a.skip(width);
        if rest.len() > 0 {
            assert(rest.last() == a.last());
        }
        law_parts_are_decoded_one_after_another(rest, b);
        assert(all.skip(width) =~= rest + b);
        assert(decode_utf16_lossy(all) =~= decode_utf16_lossy(a) + decode_utf16_lossy(b));
    }
}

/// What stands before the first NUL is the longest beginning without a NUL.
pub proof fn law_units_end_at_the_first_nul(u: Seq<u16>)
    ensures
        ({
            let k = units_before_nul(u).len() as int;
            &&& k <= u.len()
            &&& units_before_nul(u) == u.take(k)
            &&& forall|i: int| 0 <= i < k ==> #[trigger] u[i] != 0
            &&& k < u.len() ==> u[k] == 0
        }),
    decreases u.len(),
{
    if u.len() > 0 && u[0] != 0 {
        let rest = u.skip(1);
        law_units_end_at_the_first_nul(rest);
        let k = units_before_nul(u).len() as int;
        assert(units_before_nul(u) =~= u.take(k)) by {
            assert forall|i: int| 0 <= i < k implies units_before_nul(u)[i] == u[i] by {
                if i > 0 {
                    assert(units_before_nul(rest)[i - 1] == rest.take(k - 1)[i - 1]);
                    assert(rest[i - 1] == u[i]);
                }
            }
        }
        assert forall|i: int| 0 <= i < k implies #[trigger] u[i] != 0 by {
            if i > 0 {
                assert(rest[i - 1] == u[i]);
            }
        }
        if k < u.len() {
            assert(rest[k - 1] == u[k]);
        }
    } else {
        assert(units_before_nul(u) =~= u.take(0));
    }
}

/// What stands before the first NUL character is the longest beginning without one.
pub proof fn law_chars_end_at_the_first_nul(s: Seq<char>)
    ensures
        ({
            let k = chars_before_nul(s).len() as int;
            &&& k <= s.len()
            &&& chars_before_nul(s) == s.take(k)
            &&& forall|i: int| 0 <= i < k ==> #[trigger] s[i] as int != 0
            &&& k < s.len() ==> s[k] as int == 0
        }),
    decreases s.len(),
{
    if s.len() > 0 && s[0] != '\0' {
        let rest = s.drop_first();
        law_chars_end_at_the_first_nul(rest);
        let k = chars_before_nul(s).len() as int;
        assert(chars_before_nul(s) =~= s.take(k)) by {
            assert forall|i: int| 0 <= i < k implies chars_before_nul(s)[i] == s[i] by {
                if i > 0 {
                    assert(chars_before_nul(rest)[i - 1] == rest.take(k - 1)[i - 1]);
                    assert(rest[i - 1] == s[i]);
                }
            }
        }
        assert forall|i: int| 0 <= i < k implies #[trigger] s[i] as int != 0 by {
            if i > 0 {
                assert(rest[i - 1] == s[i]);
            }
        }
        if k < s.len() {
            assert(rest[k - 1] == s[k]);
        }
    } else {
        assert(chars_before_nul(s) =~= s.take(0));
    }
}


} // verus!
