//! Text forms of colours: `#RRGGBB` for display, and the forms a colour may be typed in.

use vstd::prelude::*;

use crate::chars::{
    chars_of, class_pred, string_of, trim_class, trim_end, trim_start, trim_white_space, TrimClass,
};

verus! {

/// An ASCII hexadecimal digit, in either case.
pub open spec fn is_hex_digit(c: char) -> bool {
    ('0' <= c && c <= '9') || ('a' <= c && c <= 'f') || ('A' <= c && c <= 'F')
}

/// The value of a hexadecimal digit.
pub open spec fn hex_digit_value(c: char) -> nat {
    if '0' <= c && c <= '9' {
        (c as nat - 48) as nat
    } else if 'a' <= c && c <= 'f' {
        (c as nat - 87) as nat
    } else {
        (c as nat - 55) as nat
    }
}

/// The value of a string of hexadecimal digits.
pub open spec fn hex_value(s: Seq<char>) -> nat
    decreases s.len(),
{
    if s.len() == 0 {
        0
    } else {
        hex_value(s.drop_last()) * 16 + hex_digit_value(s.last())
    }
}

/// Every character is a hexadecimal digit.
pub open spec fn all_hex(s: Seq<char>) -> bool {
    forall|i: int| 0 <= i < s.len() ==> is_hex_digit(#[trigger] s[i])
}

/// The upper-case hexadecimal digit for `d`, below sixteen.
pub open spec fn upper_hex_char(d: nat) -> char {
    if d < 10 {
        (48 + d) as char
    } else {
        (55 + d) as char
    }
}

/// The red, green and blue bytes of a 24-bit colour value.
pub open spec fn rgb_bytes(v: nat) -> Seq<u8> {
    seq![((v / 65536) % 256) as u8, ((v / 256) % 256) as u8, (v % 256) as u8]
}

/// A colour as `#RRGGBB`, with upper-case digits.
pub open spec fn spec_hex_string(rgb: Seq<u8>) -> Seq<char> {
    seq![
        '#',
        upper_hex_char(rgb[0] as nat / 16),
        upper_hex_char(rgb[0] as nat % 16),
        upper_hex_char(rgb[1] as nat / 16),
        upper_hex_char(rgb[1] as nat % 16),
        upper_hex_char(rgb[2] as nat / 16),
        upper_hex_char(rgb[2] as nat % 16),
    ]
}

/// The `#` that may lead typed colours.
pub open spec fn hash_pred() -> spec_fn(char) -> bool {
    |c: char| c == '#'
}

/// The colour that typed text stands for: surrounding whitespace and leading `#` are
/// dropped, and what is left is six hexadecimal digits, three that each stand for a
/// doubled digit, or a `+` sign and five digits (the sign that `u32::from_str_radix`
/// accepts).
pub open spec fn spec_parse_hex(text: Seq<char>) -> Option<Seq<u8>> {
    let cleaned = trim_white_space(
        trim_start(trim_white_space(text), hash_pred()),
    );
    if cleaned.len() == 3 && all_hex(cleaned) {
        Some(
            rgb_bytes(
                hex_value(
                    seq![cleaned[0], cleaned[0], cleaned[1], cleaned[1], cleaned[2], cleaned[2]],
                ),
            ),
        )
    } else if cleaned.len() == 6 && cleaned[0] == '+' && all_hex(cleaned.drop_first()) {
        Some(rgb_bytes(hex_value(cleaned.drop_first())))
    } else if cleaned.len() == 6 && all_hex(cleaned) {
        Some(rgb_bytes(hex_value(cleaned)))
    } else {
        None
    }
}

fn upper_hex(d: u8) -> (c: char)
    requires
        d < 16,
    ensures
        c == upper_hex_char(d as nat),
{
    if d < 10 {
        (48 + d) as char
    } else {
        (55 + d) as char
    }
}

/// A colour as `#RRGGBB`, with upper-case digits.
pub fn hex_string(rgb: [u8; 3]) -> (s: String)
    ensures
        s@ == spec_hex_string(rgb@),
{
    let mut v: Vec<char> = Vec::new();
    v.push('#');
    let mut i: usize = 0;
    while i < 3
        invariant
            i <= 3,
            v@.len() == 1 + 2 * i,
            v@[0] == '#',
            forall|k: int|
                0 <= k < i ==> v@[1 + 2 * k] == upper_hex_char(rgb@[k] as nat / 16) && v@[2 + 2
                    * k] == upper_hex_char(rgb@[k] as nat % 16),
        decreases 3 - i,
    {
        let byte = rgb[i];
        v.push(upper_hex(byte / 16));
        v.push(upper_hex(byte % 16));
        i = i + 1;
    }
    assert(v@ =~= spec_hex_string(rgb@));
    string_of(v.as_slice())
}

fn hex_digit(c: char) -> (r: Option<u32>)
    ensures
        is_hex_digit(c) ==> r == Some(hex_digit_value(c) as u32),
        !is_hex_digit(c) ==> r is None,
{
    if '0' <= c && c <= '9' {
        Some(c as u32 - 48)
    } else if 'a' <= c && c <= 'f' {
        Some(c as u32 - 87)
    } else if 'A' <= c && c <= 'F' {
        Some(c as u32 - 55)
    } else {
        None
    }
}

/// The value of at most six hexadecimal digits, or `None` if one is not a digit.
fn hex_value_of(digits: &[char]) -> (r: Option<u32>)
    requires
        digits@.len() <= 6,
    ensures
        all_hex(digits@) ==> r == Some(hex_value(digits@) as u32) && hex_value(digits@) < 0x100_0000,
        !all_hex(digits@) ==> r is None,
{
    let mut v: u32 = 0;
    let mut i: usize = 0;
    while i < digits.len()
        invariant
            digits@.len() <= 6,
            i <= digits@.len(),
            all_hex(digits@.take(i as int)),
            v == hex_value(digits@.take(i as int)),
            v < pow16(i as nat),
        decreases digits@.len() - i,
    {
        assert(digits@.take(i + 1).drop_last() == digits@.take(i as int));
        match hex_digit(digits[i]) {
            Some(d) => {
                assert(pow16((i + 1) as nat) == 16 * pow16(i as nat));
                assert(pow16(i as nat) <= 0x10_0000) by {
                    lemma_pow16_bound(i as nat);
                }
                assert(v * 16 + d < 16 * pow16(i as nat)) by (nonlinear_arith)
                    requires
                        v < pow16(i as nat),
                        d < 16,
                ;
                v = v * 16 + d;
                i = i + 1;
            },
            None => {
                return None;
            },
        }
    }
    assert(digits@.take(digits@.len() as int) == digits@);
    assert(pow16(digits@.len()) <= 0x100_0000) by {
        lemma_pow16_bound(digits@.len());
    }
    Some(v)
}

/// Sixteen to the power `k`.
pub open spec fn pow16(k: nat) -> nat
    decreases k,
{
    if k == 0 {
        1
    } else {
        16 * pow16((k - 1) as nat)
    }
}

proof fn lemma_pow16_bound(k: nat)
    requires
        k <= 6,
    ensures
        pow16(k) <= 0x100_0000,
        k <= 5 ==> pow16(k) <= 0x10_0000,
{
    reveal_with_fuel(pow16, 7);
}

/// The bytes of a 24-bit colour value.
fn rgb_of(v: u32) -> (rgb: [u8; 3])
    requires
        v < 0x100_0000,
    ensures
        rgb@ == rgb_bytes(v as nat),
{
    let rgb = [((v / 65536) % 256) as u8, ((v / 256) % 256) as u8, (v % 256) as u8];
    assert(rgb@ =~= rgb_bytes(v as nat));
    rgb
}

/// Reads a colour typed as `#RRGGBB`, `RRGGBB` or the three-digit short form.
pub fn parse_hex(text: &str) -> (r: Option<[u8; 3]>)
    ensures
        match (r, spec_parse_hex(text@)) {
            (Some(rgb), Some(expected)) => rgb@ == expected,
            (None, None) => true,
            _ => false,
        },
{
    let all = chars_of(text);
    let outer = trim_class(all.as_slice(), TrimClass::WhiteSpace);
    let ghost is_hash = hash_pred();
    let mut start: usize = 0;
    assert(outer@.subrange(0, outer@.len() as int) == outer@);
    while start < outer.len() && outer[start] == '#'
        invariant
            start <= outer@.len(),
            is_hash == hash_pred(),
            trim_start(outer@, is_hash) == trim_start(
                outer@.subrange(start as int, outer@.len() as int),
                is_hash,
            ),
        decreases outer@.len() - start,
    {
        assert(outer@.subrange(start as int, outer@.len() as int).drop_first() == outer@.subrange(
            start + 1,
            outer@.len() as int,
        ));
        start = start + 1;
    }
    let mut rest: Vec<char> = Vec::new();
    let mut i: usize = start;
    while i < outer.len()
        invariant
            start <= i <= outer@.len(),
            rest@ == outer@.subrange(start as int, i as int),
        decreases outer@.len() - i,
    {
        rest.push(outer[i]);
        i = i + 1;
        assert(rest@ == outer@.subrange(start as int, i as int));
    }
    assert(trim_start(outer@, is_hash) == rest@);
    let cleaned = trim_class(rest.as_slice(), TrimClass::WhiteSpace);
    assert(cleaned@ == trim_white_space(trim_start(trim_white_space(text@), is_hash)));
    if cleaned.len() == 3 {
        let doubled: Vec<char> = vec![
            cleaned[0],
            cleaned[0],
            cleaned[1],
            cleaned[1],
            cleaned[2],
            cleaned[2],
        ];
        let ghost c = cleaned@;
        assert(doubled@ =~= seq![c[0], c[0], c[1], c[1], c[2], c[2]]);
        proof {
            if !all_hex(c) {
                let k = choose|k: int| 0 <= k < c.len() && !is_hex_digit(#[trigger] c[k]);
                assert(!is_hex_digit(doubled@[2 * k]));
            }
            if all_hex(c) {
                assert forall|k: int| 0 <= k < 6 implies is_hex_digit(#[trigger] doubled@[k]) by {
                    assert(doubled@[k] == c[k / 2]);
                }
            }
        }
        return match hex_value_of(doubled.as_slice()) {
            Some(v) => Some(rgb_of(v)),
            None => None,
        };
    }
    if cleaned.len() == 6 {
        if cleaned[0] == '+' {
            let digits: Vec<char> = vec![cleaned[1], cleaned[2], cleaned[3], cleaned[4], cleaned[5]];
            assert(digits@ =~= cleaned@.drop_first());
            return match hex_value_of(digits.as_slice()) {
                Some(v) => Some(rgb_of(v)),
                None => None,
            };
        }
        return match hex_value_of(cleaned.as_slice()) {
            Some(v) => Some(rgb_of(v)),
            None => None,
        };
    }
    None
}

/// Reading back the text of a colour gives the colour.
pub proof fn lemma_hex_round_trip(rgb: Seq<u8>)
    requires
        rgb.len() == 3,
    ensures
        spec_parse_hex(spec_hex_string(rgb)) == Some(rgb),
{
    let s = spec_hex_string(rgb);
    let ws = class_pred(TrimClass::WhiteSpace);
    let is_hash = hash_pred();
    let digits = s.drop_first();
    assert forall|k: int| 0 <= k < 6 implies is_hex_digit(#[trigger] digits[k]) && hex_digit_value(
        digits[k],
    ) == if k % 2 == 0 {
        rgb[k / 2] as nat / 16
    } else {
        rgb[k / 2] as nat % 16
    } by {
        let b = rgb[k / 2] as nat;
        assert(b / 16 < 16 && b % 16 < 16);
    }
    assert(trim_start(s, ws) == s);
    assert(trim_end(s, ws) == s);
    assert(trim_white_space(s) == s);
    assert(trim_start(digits, is_hash) == digits);
    assert(trim_start(s, is_hash) == trim_start(s.drop_first(), is_hash));
    assert(trim_start(digits, ws) == digits);
    assert(trim_end(digits, ws) == digits);
    assert(trim_white_space(digits) == digits);
    reveal_with_fuel(hex_value, 7);
    assert(digits.take(0) =~= Seq::<char>::empty());
    let r = rgb[0] as nat;
    let g = rgb[1] as nat;
    let b = rgb[2] as nat;
    assert(digits.drop_last().drop_last().drop_last().drop_last().drop_last().drop_last()
        =~= Seq::<char>::empty());
    let v = hex_value(digits);
    assert(v == ((((r / 16 * 16 + r % 16) * 16 + g / 16) * 16 + g % 16) * 16 + b / 16) * 16 + b
        % 16);
    assert(v == r * 65536 + g * 256 + b && rgb_bytes(v) == rgb) by (nonlinear_arith)
        requires
            v == ((((r / 16 * 16 + r % 16) * 16 + g / 16) * 16 + g % 16) * 16 + b / 16) * 16 + b
                % 16,
            r < 256,
            g < 256,
            b < 256,
            rgb.len() == 3,
            r == rgb[0],
            g == rgb[1],
            b == rgb[2],
    {
        assert(rgb_bytes(v) =~= rgb);
    }
}

} // verus!
