//! Colours: 24 bits of red, green and blue.

use crate::wire::{as_unsigned, error_of, unsigned, Decode, DecodeError, Encode, Json, Value};
use crate::text::push_char;
use vstd::prelude::*;
use vstd::std_specs::convert::{FromSpecImpl, TryFromSpecImpl};
use vstd::string::*;

verus! {

/// The largest number that is a colour.
pub const MAX_COLOR: u32 = 0xFF_FFFF;

/// The number that the hexadecimal digit `c` stands for, in either case.
pub open spec fn hex_digit(c: char) -> Option<int> {
    if '0' <= c <= '9' {
        Some(c as int - 48)
    } else if 'a' <= c <= 'f' {
        Some(c as int - 87)
    } else if 'A' <= c <= 'F' {
        Some(c as int - 55)
    } else {
        None
    }
}

/// Whether every character of `s` is a hexadecimal digit.
pub open spec fn all_hex(s: Seq<char>) -> bool {
    forall|i: int| 0 <= i < s.len() ==> hex_digit(#[trigger] s[i]) is Some
}

/// The number that a sequence of hexadecimal digits stands for.
pub open spec fn hex_value(s: Seq<char>) -> int
    decreases s.len(),
{
    if s.len() == 0 {
        0
    } else {
        hex_value(s.drop_last()) * 16 + hex_digit(s.last()).unwrap()
    }
}

/// `s` without a leading `#`, or else without a leading `0x`.
pub open spec fn without_prefix(s: Seq<char>) -> Seq<char> {
    if s.len() >= 1 && s[0] == '#' {
        s.subrange(1, s.len() as int)
    } else if s.len() >= 2 && s[0] == '0' && s[1] == 'x' {
        s.subrange(2, s.len() as int)
    } else {
        s
    }
}

/// The colour that the text `s` names: after an optional `#` or `0x`,
/// exactly six hexadecimal digits.
pub open spec fn parse_color(s: Seq<char>) -> Option<u32> {
    let d = without_prefix(s);
    if d.len() == 6 && all_hex(d) {
        Some(hex_value(d) as u32)
    } else {
        None
    }
}

/// The character of the hexadecimal digit `d`, in lower case.
pub open spec fn hex_char(d: u32) -> char {
    if d < 10 {
        (48 + d) as u8 as char
    } else {
        (87 + d) as u8 as char
    }
}

/// The text of the colour `v`: `#` and six hexadecimal digits in lower case.
pub open spec fn color_text(v: u32) -> Seq<char> {
    seq![
        '#',
        hex_char((v / 0x10_0000) % 16),
        hex_char((v / 0x1_0000) % 16),
        hex_char((v / 0x1000) % 16),
        hex_char((v / 0x100) % 16),
        hex_char((v / 0x10) % 16),
        hex_char(v % 16),
    ]
}

/// What reading `j` as a colour gives: the number of an unsigned token that
/// is at most `MAX_COLOR`, and `InvalidValue` for every other token.
pub open spec fn decoded_color(j: Json) -> Result<u32, DecodeError> {
    match j {
        Json::Unsigned(n) => if n <= MAX_COLOR {
            Ok(n as u32)
        } else {
            Err(DecodeError::InvalidValue)
        },
        _ => Err(DecodeError::InvalidValue),
    }
}

/// A colour: 24 bits, the red byte highest.
#[derive(Clone, Copy, Debug, PartialEq, Eq, Hash)]
pub struct Color(u32);

impl View for Color {
    type V = u32;

    closed spec fn view(&self) -> u32 {
        self.0
    }
}

fn hex_of(b: u8) -> (r: Option<u32>)
    ensures
        match r {
            Some(d) => hex_digit(b as char) == Some(d as int) && d < 16,
            None => hex_digit(b as char) is None,
        },
{
    if b >= 48 && b <= 57 {
        Some((b - 48) as u32)
    } else if b >= 97 && b <= 102 {
        Some((b - 87) as u32)
    } else if b >= 65 && b <= 70 {
        Some((b - 55) as u32)
    } else {
        None
    }
}

fn hex_char_of(d: u32) -> (r: char)
    requires
        d < 16,
    ensures
        r == hex_char(d),
{
    if d < 10 {
        (48 + d as u8) as char
    } else {
        (87 + d as u8) as char
    }
}

impl Color {
    // The numbers of the named colours.
    pub const DEFAULT: u32 = 0x000000;

    pub const WHITE: u32 = 0xFFFFFF;

    pub const AQUA: u32 = 0x1ABC9C;

    pub const GREEN: u32 = 0x57F287;

    pub const BLUE: u32 = 0x3498DB;

    pub const YELLOW: u32 = 0xFEE75C;

    pub const PURPLE: u32 = 0x9B59B6;

    pub const LUMINOUS_VIVID_PINK: u32 = 0xE91E63;

    pub const FUCHSIA: u32 = 0xEB459E;

    pub const GOLD: u32 = 0xF1C40F;

    pub const ORANGE: u32 = 0xE67E22;

    pub const RED: u32 = 0xED4245;

    pub const GREY: u32 = 0x95A5A6;

    pub const NAVY: u32 = 0x34495E;

    pub const DARK_AQUA: u32 = 0x11806A;

    pub const DARK_GREEN: u32 = 0x1F8B4C;

    pub const DARK_BLUE: u32 = 0x206694;

    pub const DARK_PURPLE: u32 = 0x71368A;

    pub const DARK_VIVID_PINK: u32 = 0xAD1457;

    pub const DARK_GOLD: u32 = 0xC27C0E;

    pub const DARK_ORANGE: u32 = 0xA84300;

    pub const DARK_RED: u32 = 0x992D22;

    pub const DARK_GREY: u32 = 0x979C9F;

    pub const DARKER_GREY: u32 = 0x7F8C8D;

    pub const LIGHT_GREY: u32 = 0xBCC0C0;

    pub const DARK_NAVY: u32 = 0x2C3E50;

    pub const BLURPLE: u32 = 0x5865F2;

    pub const GREYPLE: u32 = 0x99AAB5;

    pub const DARK_BUT_NOT_BLACK: u32 = 0x2C2F33;

    pub const NOT_QUITE_BLACK: u32 = 0x23272A;

    #[verifier::type_invariant]
    spec fn in_range(self) -> bool {
        self.0 <= MAX_COLOR
    }

    /// The colour with these red, green and blue parts.
    pub fn from_rgb(r: u8, g: u8, b: u8) -> (c: Color)
        ensures
            c@ == r * 0x1_0000 + g * 0x100 + b,
    {
        let rr: u32 = r as u32;
        let gg: u32 = g as u32;
        assert(rr << 16 == rr * 0x1_0000 && gg << 8 == gg * 0x100) by (bit_vector)
            requires
                rr < 256,
                gg < 256,
        ;
        Color((rr << 16) + (gg << 8) + (b as u32))
    }

    /// The red, green and blue parts.
    pub fn rgb(self) -> (p: [u8; 3])
        ensures
            p[0] == self@ / 0x1_0000,
            p[1] == (self@ / 0x100) % 256,
            p[2] == self@ % 256,
            self@ <= MAX_COLOR,
    {
        proof {
            use_type_invariant(self);
        }
        let v: u32 = self.0;
        assert((v >> 16) & 0xFF == v / 0x1_0000 && (v >> 8) & 0xFF == (v / 0x100) % 256 && v & 0xFF
            == v % 256) by (bit_vector)
            requires
                v <= 0xFF_FFFF,
        ;
        [((v >> 16) & 0xFF) as u8, ((v >> 8) & 0xFF) as u8, (v & 0xFF) as u8]
    }

    /// The number of the colour.
    pub fn value(self) -> (v: u32)
        ensures
            v == self@,
            v <= MAX_COLOR,
    {
        proof {
            use_type_invariant(self);
        }
        self.0
    }

    /// The colour with the number `val`, which is at most `MAX_COLOR`, as
    /// the number of each named colour is.
    pub fn named(val: u32) -> (c: Color)
        requires
            val <= MAX_COLOR,
        ensures
            c@ == val,
    {
        Color(val)
    }

    /// The colour with the number `val`, if there is one.
    pub fn from_u32(val: u32) -> (r: Option<Color>)
        ensures
            match r {
                Some(c) => c@ == val && val <= MAX_COLOR,
                None => val > MAX_COLOR,
            },
    {
        if val <= MAX_COLOR {
            Some(Color(val))
        } else {
            None
        }
    }

    /// The colour with the number `val`, if there is one.
    pub fn from_u64(val: u64) -> (r: Option<Color>)
        ensures
            match r {
                Some(c) => c@ == val && val <= MAX_COLOR,
                None => val > MAX_COLOR,
            },
    {
        if val <= MAX_COLOR as u64 {
            Some(Color(val as u32))
        } else {
            None
        }
    }

    /// The colour that the text `s` names, if it names one.
    pub fn from_text(s: &str) -> (r: Option<Color>)
        ensures
            match r {
                Some(c) => parse_color(s@) == Some(c@),
                None => parse_color(s@) is None,
            },
    {
        let ghost d = without_prefix(s@);
        if !s.is_ascii() {
            proof {
                let i = choose|i: int| 0 <= i < s@.len() && !('\0' <= #[trigger] s@[i] <= '\u{7f}');
                let skip = s@.len() - d.len();
                assert(i >= skip);
                assert(d[i - skip] == s@[i]);
                assert(hex_digit(d[i - skip]) is None);
            }
            return None;
        }
        let len = s.unicode_len();
        let start: usize = if len >= 1 && s.get_ascii(0) == 35 {
            1
        } else if len >= 2 && s.get_ascii(0) == 48 && s.get_ascii(1) == 120 {
            2
        } else {
            0
        };
        assert(d =~= s@.subrange(start as int, len as int));
        if len - start != 6 {
            return None;
        }
        let mut acc: u32 = 0;
        let mut i: usize = 0;
        while i < 6
            invariant
                i <= 6,
                len == s@.len(),
                len - start == 6,
                s.is_ascii(),
                d == s@.subrange(start as int, len as int),
                d == without_prefix(s@),
                all_hex(d.subrange(0, i as int)),
                acc == hex_value(d.subrange(0, i as int)),
                acc < pow16(i as nat),
            decreases 6 - i,
        {
            let ghost next = d.subrange(0, i + 1);
            proof {
                assert(next.drop_last() =~= d.subrange(0, i as int));
                assert(next.last() == d[i as int]);
                assert(d[i as int] == s@[start + i]);
                reveal_with_fuel(pow16, 8);
            }
            let b: u8 = s.get_ascii(start + i);
            match hex_of(b) {
                Some(digit) => {
                    acc = acc * 16 + digit;
                },
                None => {
                    return None;
                },
            }
            i = i + 1;
            proof {
                assert forall|j: int| 0 <= j < next.len() implies hex_digit(#[trigger] next[j])
                    is Some by {
                    if j < next.len() - 1 {
                        assert(next[j] == d.subrange(0, i - 1)[j]);
                    }
                }
            }
        }
        proof {
            assert(d.subrange(0, 6) =~= d);
            reveal_with_fuel(pow16, 8);
        }
        Some(Color(acc))
    }

    /// The text of the colour: `#` and six hexadecimal digits.
    pub fn to_text(self) -> (r: String)
        ensures
            r@ == color_text(self@),
    {
        let v: u32 = self.0;
        let mut out = String::new();
        push_char(&mut out, '#');
        push_char(&mut out, hex_char_of((v / 0x10_0000) % 16));
        push_char(&mut out, hex_char_of((v / 0x1_0000) % 16));
        push_char(&mut out, hex_char_of((v / 0x1000) % 16));
        push_char(&mut out, hex_char_of((v / 0x100) % 16));
        push_char(&mut out, hex_char_of((v / 0x10) % 16));
        push_char(&mut out, hex_char_of(v % 16));
        assert(out@ =~= color_text(v));
        out
    }
}

/// Sixteen to the power `n`.
pub open spec fn pow16(n: nat) -> nat
    decreases n,
{
    if n == 0 {
        1
    } else {
        16 * pow16((n - 1) as nat)
    }
}

impl core::str::FromStr for Color {
    type Err = ();

    fn from_str(s: &str) -> (r: Result<Self, ()>)
        ensures
            match r {
                Ok(c) => parse_color(s@) == Some(c@),
                Err(_) => parse_color(s@) is None,
            },
    {
        match Color::from_text(s) {
            Some(c) => Ok(c),
            None => Err(()),
        }
    }
}

impl TryFrom<u32> for Color {
    type Error = ();

    fn try_from(val: u32) -> (r: Result<Self, ()>)
        ensures
            match r {
                Ok(c) => c@ == val && val <= MAX_COLOR,
                Err(_) => val > MAX_COLOR,
            },
    {
        match Color::from_u32(val) {
            Some(c) => Ok(c),
            None => Err(()),
        }
    }
}

impl TryFromSpecImpl<u32> for Color {
    open spec fn obeys_try_from_spec() -> bool {
        true
    }

    closed spec fn try_from_spec(v: u32) -> Result<Self, ()> {
        if v <= MAX_COLOR {
            Ok(Color(v))
        } else {
            Err(())
        }
    }
}

impl TryFrom<u64> for Color {
    type Error = ();

    fn try_from(val: u64) -> (r: Result<Self, ()>)
        ensures
            match r {
                Ok(c) => c@ == val && val <= MAX_COLOR,
                Err(_) => val > MAX_COLOR,
            },
    {
        match Color::from_u64(val) {
            Some(c) => Ok(c),
            None => Err(()),
        }
    }
}

impl TryFromSpecImpl<u64> for Color {
    open spec fn obeys_try_from_spec() -> bool {
        true
    }

    closed spec fn try_from_spec(v: u64) -> Result<Self, ()> {
        if v <= MAX_COLOR {
            Ok(Color(v as u32))
        } else {
            Err(())
        }
    }
}

impl Default for Color {
    fn default() -> (r: Self)
        ensures
            r@ == 0,
    {
        Color(0)
    }
}

impl From<Color> for u32 {
    fn from(color: Color) -> (r: Self) {
        color.0
    }
}

impl FromSpecImpl<Color> for u32 {
    open spec fn obeys_from_spec() -> bool {
        true
    }

    open spec fn from_spec(v: Color) -> Self {
        v@
    }
}

impl Decode for Color {
    open spec fn decodes(j: Json, x: Self) -> bool {
        decoded_color(j) == Ok::<u32, DecodeError>(x@)
    }

    open spec fn rejection(j: Json) -> Option<DecodeError> {
        error_of(decoded_color(j))
    }

    fn decode(v: &Value) -> (r: Result<Self, DecodeError>)
        ensures
            match r {
                Ok(x) => decoded_color(v@) == Ok::<u32, DecodeError>(x@),
                Err(e) => decoded_color(v@) == Err::<u32, DecodeError>(e),
            },
    {
        match as_unsigned(v) {
            Some(n) => match Color::from_u64(n) {
                Some(c) => Ok(c),
                None => Err(DecodeError::InvalidValue),
            },
            None => Err(DecodeError::InvalidValue),
        }
    }
}

impl Encode for Color {
    open spec fn wire(&self) -> Json {
        Json::Unsigned(self@ as u64)
    }

    fn encode(&self) -> (r: Value) {
        unsigned(self.0 as u64)
    }
}

/// The two prefixes name the same colour: six hexadecimal digits give one
/// number whether `#`, `0x` or nothing stands before them.
pub proof fn lemma_prefixes_agree(digits: Seq<char>)
    requires
        digits.len() == 6,
        all_hex(digits),
    ensures
        parse_color(seq!['#'] + digits) == Some(hex_value(digits) as u32),
        parse_color(seq!['0', 'x'] + digits) == Some(hex_value(digits) as u32),
        parse_color(digits) == Some(hex_value(digits) as u32),
{
    let a = seq!['#'] + digits;
    assert(without_prefix(a) =~= digits);
    let b = seq!['0', 'x'] + digits;
    assert(without_prefix(b) =~= digits);
    assert(hex_digit(digits[0]) is Some);
    assert(hex_digit(digits[1]) is Some);
    assert(without_prefix(digits) =~= digits);
}

/// A number is a colour exactly when it is at most `MAX_COLOR`, and a colour
/// is written as its number.
pub proof fn lemma_color_bounds(n: u64)
    ensures
        n <= MAX_COLOR ==> decoded_color(Json::Unsigned(n)) == Ok::<u32, DecodeError>(n as u32),
        n > MAX_COLOR ==> decoded_color(Json::Unsigned(n)) == Err::<u32, DecodeError>(
            DecodeError::InvalidValue,
        ),
{
}

} // verus!
