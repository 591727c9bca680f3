use vstd::prelude::*;
use vstd::string::*;

verus! {

/// A 24-bit RGB color.
#[derive(Clone, Copy, Debug, PartialEq, Eq, Structural)]
pub struct Rgb {
    pub r: u8,
    pub g: u8,
    pub b: u8,
}

pub open spec fn hex_digits() -> Seq<char> {
    "0123456789ABCDEF"@
}

/// Two upper-case hex digits of a byte.
pub open spec fn hex_byte(v: u8) -> Seq<char> {
    seq![hex_digits()[v as int / 16], hex_digits()[v as int % 16]]
}

/// `#RRGGBB` with upper-case digits.
pub open spec fn hex_of(c: Rgb) -> Seq<char> {
    seq!['#'] + hex_byte(c.r) + hex_byte(c.g) + hex_byte(c.b)
}

/// `#` followed by six upper-case hex digits.
pub open spec fn is_hex_color(s: Seq<char>) -> bool {
    &&& s.len() == 7
    &&& s[0] == '#'
    &&& forall|i: int| 1 <= i < 7 ==> #[trigger] hex_digits().contains(s[i])
}

pub proof fn lemma_hex_of_is_hex_color(c: Rgb)
    ensures
        is_hex_color(hex_of(c)),
{
    reveal_strlit("0123456789ABCDEF");
    let s = hex_of(c);
    assert forall|i: int| 1 <= i < 7 implies #[trigger] hex_digits().contains(s[i]) by {
        let d: int = if i == 1 {
            c.r as int / 16
        } else if i == 2 {
            c.r as int % 16
        } else if i == 3 {
            c.g as int / 16
        } else if i == 4 {
            c.g as int % 16
        } else if i == 5 {
            c.b as int / 16
        } else {
            c.b as int % 16
        };
        assert(s[i] == hex_digits()[d]);
    }
}

fn push_hex_byte(s: &mut String, v: u8)
    ensures
        final(s)@ == old(s)@ + hex_byte(v),
{
    proof {
        reveal_strlit("0123456789ABCDEF");
    }
    let digits = "0123456789ABCDEF";
    let hi = (v / 16) as usize;
    let lo = (v % 16) as usize;
    s.append(digits.substring_char(hi, hi + 1));
    s.append(digits.substring_char(lo, lo + 1));
    assert(final(s)@ == old(s)@ + hex_byte(v));
}

/// Encodes a color as `#RRGGBB` with upper-case hex digits; alpha is not kept.
pub fn color_to_hex(color: Rgb) -> (r: String)
    ensures
        r@ == hex_of(color),
        is_hex_color(r@),
{
    proof {
        reveal_strlit("#");
        lemma_hex_of_is_hex_color(color);
    }
    let mut s = String::from_str("#");
    push_hex_byte(&mut s, color.r);
    push_hex_byte(&mut s, color.g);
    push_hex_byte(&mut s, color.b);
    assert(s@ =~= hex_of(color));
    s
}

/// Whether bit `k` (a power of two) is set in `bits`.
pub open spec fn has_bit(bits: u8, k: u8) -> bool {
    (bits as int / k as int) % 2 == 1
}

/// Style bits of a span (bold 1, italic 2, underline 4) from the engine's font
/// flags (bold 1, underline 2, italic 4).
pub open spec fn style_bits(flags: u8) -> u8 {
    ((if has_bit(flags, 1) { 1int } else { 0 }) + (if has_bit(flags, 4) { 2int } else { 0 }) + (
    if has_bit(flags, 2) {
        4int
    } else {
        0
    })) as u8
}

/// Converts the engine's font flags to the span style bits.
pub fn font_style_to_u8(flags: u8) -> (r: u8)
    ensures
        r == style_bits(flags),
        r < 8,
{
    let mut result: u8 = 0;
    if flags % 2 == 1 {
        result = result + 1;
    }
    if (flags / 4) % 2 == 1 {
        result = result + 2;
    }
    if (flags / 2) % 2 == 1 {
        result = result + 4;
    }
    result
}

} // verus!
