//! Color themes, as sixteen colors in the base16 layout.

use crate::text::chars_of;
use vstd::prelude::*;

verus! {

/// A color, as red, green and blue.
#[derive(Debug, Clone, Copy, PartialEq, Eq, Structural)]
pub struct Rgb {
    pub r: u8,
    pub g: u8,
    pub b: u8,
}

/// A base16 scheme: a name and sixteen colors, each written as six
/// hexadecimal digits with or without `#` in front.
pub struct Base16Scheme {
    pub name: String,
    pub base00: String,
    pub base01: String,
    pub base02: String,
    pub base03: String,
    pub base04: String,
    pub base05: String,
    pub base06: String,
    pub base07: String,
    pub base08: String,
    pub base09: String,
    pub base0a: String,
    pub base0b: String,
    pub base0c: String,
    pub base0d: String,
    pub base0e: String,
    pub base0f: String,
}

/// The colors of a theme, by their role.
pub struct Theme {
    pub name: String,
    pub base: Rgb,
    pub surface: Rgb,
    pub overlay: Rgb,
    pub muted: Rgb,
    pub subtle: Rgb,
    pub text: Rgb,
    pub bg_alt: Rgb,
    pub fg_alt: Rgb,
    pub red: Rgb,
    pub orange: Rgb,
    pub yellow: Rgb,
    pub green: Rgb,
    pub cyan: Rgb,
    pub blue: Rgb,
    pub purple: Rgb,
    pub maroon: Rgb,
}

/// The value of a hexadecimal digit, of either case.
pub open spec fn hex_value(c: char) -> Option<int> {
    let u = c as u32;
    if 0x30 <= u <= 0x39 {
        Some(u - 0x30)
    } else if 0x61 <= u <= 0x66 {
        Some(u - 0x61 + 10)
    } else if 0x41 <= u <= 0x46 {
        Some(u - 0x41 + 10)
    } else {
        None
    }
}

/// The number that two characters write in hexadecimal: two digits, or a
/// plus sign and one digit. Anything else counts as zero.
pub open spec fn hex_pair(a: char, b: char) -> u8 {
    match (hex_value(a), hex_value(b)) {
        (Some(x), Some(y)) => (x * 16 + y) as u8,
        (None, Some(y)) => if a == '+' {
            y as u8
        } else {
            0
        },
        _ => 0,
    }
}

/// How many `#` the text starts with.
pub open spec fn leading_hashes(s: Seq<char>) -> int
    decreases s.len(),
{
    if s.len() > 0 && s[0] == '#' {
        1 + leading_hashes(s.drop_first())
    } else {
        0
    }
}

/// Whether the text writes a color: at least six characters follow the
/// `#` in front.
pub open spec fn writes_color(s: Seq<char>) -> bool {
    s.len() - leading_hashes(s) >= 6
}

/// The color that the text writes: its first six characters after the `#`
/// in front, two for each of red, green and blue.
pub open spec fn color_of(s: Seq<char>) -> Rgb {
    let k = leading_hashes(s);
    Rgb {
        r: hex_pair(s[k], s[k + 1]),
        g: hex_pair(s[k + 2], s[k + 3]),
        b: hex_pair(s[k + 4], s[k + 5]),
    }
}

/// What `leading_hashes` counts.
pub proof fn lemma_leading_hashes(s: Seq<char>)
    ensures
        0 <= leading_hashes(s) <= s.len(),
        forall|j: int| 0 <= j < leading_hashes(s) ==> s[j] == '#',
        leading_hashes(s) < s.len() ==> s[leading_hashes(s)] != '#',
    decreases s.len(),
{
    if s.len() > 0 && s[0] == '#' {
        let rest = s.drop_first();
        lemma_leading_hashes(rest);
        assert forall|j: int| 0 <= j < leading_hashes(s) implies s[j] == '#' by {
            if j > 0 {
                assert(s[j] == rest[j - 1]);
            }
        }
    }
}

fn hex_digit(c: char) -> (r: Option<u8>)
    ensures
        match r {
            Some(v) => hex_value(c) == Some(v as int) && v < 16,
            None => hex_value(c) is None,
        },
{
    let u = c as u32;
    if 0x30 <= u && u <= 0x39 {
        Some((u - 0x30) as u8)
    } else if 0x61 <= u && u <= 0x66 {
        Some((u - 0x61 + 10) as u8)
    } else if 0x41 <= u && u <= 0x46 {
        Some((u - 0x41 + 10) as u8)
    } else {
        None
    }
}

fn read_hex_pair(a: char, b: char) -> (r: u8)
    ensures
        r == hex_pair(a, b),
{
    match (hex_digit(a), hex_digit(b)) {
        (Some(x), Some(y)) => x * 16 + y,
        (None, Some(y)) => if a == '+' {
            y
        } else {
            0
        },
        _ => 0,
    }
}

/// Whether the text writes a color.
pub fn is_color(hex: &str) -> (r: bool)
    ensures
        r == writes_color(hex@),
{
    let chars = chars_of(hex);
    let k = count_hashes(&chars);
    chars.len() - k >= 6
}

fn count_hashes(chars: &Vec<char>) -> (k: usize)
    ensures
        k == leading_hashes(chars@),
        k <= chars.len(),
{
    let mut k: usize = 0;
    proof {
        lemma_leading_hashes(chars@);
    }
    while k < chars.len() && chars[k] == '#'
        invariant
            k <= chars.len(),
            forall|j: int| 0 <= j < k ==> chars@[j] == '#',
        decreases chars.len() - k,
    {
        k += 1;
    }
    k
}

/// The color that the text `hex` writes.
pub fn parse_hex(hex: &str) -> (c: Rgb)
    requires
        writes_color(hex@),
    ensures
        c == color_of(hex@),
{
    let chars = chars_of(hex);
    let k = count_hashes(&chars);
    Rgb {
        r: read_hex_pair(chars[k], chars[k + 1]),
        g: read_hex_pair(chars[k + 2], chars[k + 3]),
        b: read_hex_pair(chars[k + 4], chars[k + 5]),
    }
}

impl Base16Scheme {
    /// Whether each of the sixteen texts writes a color.
    pub open spec fn well_formed(&self) -> bool {
        &&& writes_color(self.base00@)
        &&& writes_color(self.base01@)
        &&& writes_color(self.base02@)
        &&& writes_color(self.base03@)
        &&& writes_color(self.base04@)
        &&& writes_color(self.base05@)
        &&& writes_color(self.base06@)
        &&& writes_color(self.base07@)
        &&& writes_color(self.base08@)
        &&& writes_color(self.base09@)
        &&& writes_color(self.base0a@)
        &&& writes_color(self.base0b@)
        &&& writes_color(self.base0c@)
        &&& writes_color(self.base0d@)
        &&& writes_color(self.base0e@)
        &&& writes_color(self.base0f@)
    }

    /// Whether each of the sixteen texts writes a color.
    pub fn is_well_formed(&self) -> (r: bool)
        ensures
            r == self.well_formed(),
    {
        is_color(self.base00.as_str()) && is_color(self.base01.as_str()) && is_color(
            self.base02.as_str(),
        ) && is_color(self.base03.as_str()) && is_color(self.base04.as_str()) && is_color(
            self.base05.as_str(),
        ) && is_color(self.base06.as_str()) && is_color(self.base07.as_str()) && is_color(
            self.base08.as_str(),
        ) && is_color(self.base09.as_str()) && is_color(self.base0a.as_str()) && is_color(
            self.base0b.as_str(),
        ) && is_color(self.base0c.as_str()) && is_color(self.base0d.as_str()) && is_color(
            self.base0e.as_str(),
        ) && is_color(self.base0f.as_str())
    }
}

impl Theme {
    /// The theme of a scheme: each role takes its color from the scheme.
    pub fn from_scheme(s: &Base16Scheme) -> (t: Self)
        requires
            s.well_formed(),
        ensures
            t.name@ == s.name@,
            t.base == color_of(s.base00@),
            t.surface == color_of(s.base01@),
            t.overlay == color_of(s.base02@),
            t.muted == color_of(s.base03@),
            t.subtle == color_of(s.base04@),
            t.text == color_of(s.base05@),
            t.bg_alt == color_of(s.base06@),
            t.fg_alt == color_of(s.base07@),
            t.red == color_of(s.base08@),
            t.orange == color_of(s.base09@),
            t.yellow == color_of(s.base0a@),
            t.green == color_of(s.base0b@),
            t.cyan == color_of(s.base0c@),
            t.blue == color_of(s.base0d@),
            t.purple == color_of(s.base0e@),
            t.maroon == color_of(s.base0f@),
    {
        Theme {
            name: s.name.clone(),
            base: parse_hex(s.base00.as_str()),
            surface: parse_hex(s.base01.as_str()),
            overlay: parse_hex(s.base02.as_str()),
            muted: parse_hex(s.base03.as_str()),
            subtle: parse_hex(s.base04.as_str()),
            text: parse_hex(s.base05.as_str()),
            bg_alt: parse_hex(s.base06.as_str()),
            fg_alt: parse_hex(s.base07.as_str()),
            red: parse_hex(s.base08.as_str()),
            orange: parse_hex(s.base09.as_str()),
            yellow: parse_hex(s.base0a.as_str()),
            green: parse_hex(s.base0b.as_str()),
            cyan: parse_hex(s.base0c.as_str()),
            blue: parse_hex(s.base0d.as_str()),
            purple: parse_hex(s.base0e.as_str()),
            maroon: parse_hex(s.base0f.as_str()),
        }
    }

    /// The color that marks the priority `priority`: red for the most
    /// urgent, then orange, then yellow, and the muted color for the rest.
    pub fn priority_color(&self, priority: u8) -> (c: Rgb)
        ensures
            c == (if priority == 4 {
                self.red
            } else if priority == 3 {
                self.orange
            } else if priority == 2 {
                self.yellow
            } else {
                self.muted
            }),
    {
        if priority == 4 {
            self.red
        } else if priority == 3 {
            self.orange
        } else if priority == 2 {
            self.yellow
        } else {
            self.muted
        }
    }

    /// The colors of the veil that dims what lies under a popup: the muted
    /// color in front of the base color at half its brightness.
    pub fn dim_overlay(&self) -> (r: (Rgb, Rgb))
        ensures
            r.0 == self.muted,
            r.1 == (Rgb { r: self.base.r / 2, g: self.base.g / 2, b: self.base.b / 2 }),
    {
        (self.muted, Rgb { r: self.base.r / 2, g: self.base.g / 2, b: self.base.b / 2 })
    }

    /// The mark in front of a task: a dot for a priority above the lowest,
    /// and blanks of the same width otherwise.
    pub fn priority_dot(priority: u8) -> (r: &'static str)
        ensures
            r@ == (if 2 <= priority <= 4 {
                "● "@
            } else {
                "  "@
            }),
    {
        if priority == 4 || priority == 3 || priority == 2 {
            "● "
        } else {
            "  "
        }
    }
}

} // verus!
