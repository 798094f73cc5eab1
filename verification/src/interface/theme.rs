use vstd::prelude::*;

verus! {

/// A terminal colour: an RGB triple or one of the named colours the
/// interface uses.
#[derive(Clone, Copy, Debug, PartialEq, Eq, Structural)]
pub enum Color {
    Rgb(u8, u8, u8),
    Cyan,
    White,
    Black,
}

/// Value of an ASCII hexadecimal digit.
pub open spec fn hex_value(c: char) -> Option<u8> {
    if '0' <= c && c <= '9' {
        Some(((c as u32) - 48) as u8)
    } else if 'a' <= c && c <= 'f' {
        Some(((c as u32) - 87) as u8)
    } else if 'A' <= c && c <= 'F' {
        Some(((c as u32) - 55) as u8)
    } else {
        None
    }
}

/// A two-character hexadecimal byte as `u8::from_str_radix(_, 16)` reads it:
/// two digits, or a `+` sign followed by one digit.
pub open spec fn hex_pair(a: char, b: char) -> Option<u8> {
    if a == '+' {
        hex_value(b)
    } else {
        match (hex_value(a), hex_value(b)) {
            (Some(x), Some(y)) => Some((x * 16 + y) as u8),
            _ => None,
        }
    }
}

/// `s` without its leading `#` characters.
pub open spec fn trim_hashes(s: Seq<char>) -> Seq<char>
    decreases s.len(),
{
    if s.len() > 0 && s[0] == '#' { trim_hashes(s.subrange(1, s.len() as int)) } else { s }
}

/// Number of UTF-8 bytes that encode `c`.
pub open spec fn utf8_width(c: char) -> int {
    if (c as u32) < 0x80 { 1 } else if (c as u32) < 0x800 { 2 } else if (c as u32) < 0x10000 { 3 } else { 4 }
}

/// Number of UTF-8 bytes that encode `s`.
pub open spec fn utf8_len(s: Seq<char>) -> int
    decreases s.len(),
{
    if s.len() == 0 { 0 } else { utf8_len(s.drop_last()) + utf8_width(s.last()) }
}

/// Byte offset `k` falls between two characters of `s`.
pub open spec fn on_char_boundary(s: Seq<char>, k: int) -> bool {
    exists|i: int| 0 <= i <= s.len() && utf8_len(s.subrange(0, i)) == k
}

/// A six-byte colour text whose byte pairs would cut a character in two;
/// reading such a text panics (byte slicing), so it is never handed over.
pub open spec fn splits_a_char(hex: Seq<char>) -> bool {
    let t = trim_hashes(hex);
    utf8_len(t) == 6 && !(on_char_boundary(t, 2) && on_char_boundary(t, 4))
}

proof fn lemma_utf8_len_step(t: Seq<char>, i: int)
    requires
        0 <= i < t.len(),
    ensures
        utf8_len(t.subrange(0, i + 1)) == utf8_len(t.subrange(0, i)) + utf8_width(t[i]),
{
    assert(t.subrange(0, i + 1).drop_last() =~= t.subrange(0, i));
}

proof fn lemma_utf8_len_grows(t: Seq<char>, i: int)
    requires
        0 <= i <= t.len(),
    ensures
        utf8_len(t.subrange(0, i)) <= utf8_len(t),
    decreases t.len() - i,
{
    if i < t.len() {
        lemma_utf8_len_step(t, i);
        lemma_utf8_len_grows(t, i + 1);
    } else {
        assert(t.subrange(0, i) =~= t);
    }
}

fn utf8_width_of(c: char) -> (w: usize)
    ensures
        w == utf8_width(c),
{
    if (c as u32) < 0x80 {
        1
    } else if (c as u32) < 0x800 {
        2
    } else if (c as u32) < 0x10000 {
        3
    } else {
        4
    }
}

/// Whether an accent colour text is one that reading it as a colour would
/// panic on (see `splits_a_char`); the interface tests this before it asks
/// for the theme.
pub fn accent_splits_a_char(hex: &str) -> (r: bool)
    ensures
        r == splits_a_char(hex@),
{
    let n = hex.unicode_len();
    let mut start: usize = 0;
    assert(hex@.subrange(0, n as int) =~= hex@);
    while start < n && hex.get_char(start) == '#'
        invariant
            n == hex@.len(),
            start <= n,
            trim_hashes(hex@) == trim_hashes(hex@.subrange(start as int, n as int)),
        decreases n - start,
    {
        assert(hex@.subrange(start as int, n as int).subrange(1, (n - start) as int)
            =~= hex@.subrange(start + 1, n as int));
        start = start + 1;
    }
    let ghost t = hex@.subrange(start as int, n as int);
    proof {
        if start < n {
            assert(t[0] != '#');
        }
        assert(trim_hashes(t) == t);
        assert(t.subrange(0, 0) =~= Seq::<char>::empty());
    }
    let len = n - start;
    let mut acc: usize = 0;
    let mut i: usize = 0;
    let mut hit2 = false;
    let mut hit4 = false;
    while i < len && acc <= 6
        invariant
            n == hex@.len(),
            len == n - start,
            t == hex@.subrange(start as int, n as int),
            i <= len,
            acc == utf8_len(t.subrange(0, i as int)),
            hit2 == (exists|j: int| 0 <= j <= i && utf8_len(#[trigger] t.subrange(0, j)) == 2),
            hit4 == (exists|j: int| 0 <= j <= i && utf8_len(#[trigger] t.subrange(0, j)) == 4),
        decreases len - i,
    {
        let c = hex.get_char(start + i);
        proof {
            lemma_utf8_len_step(t, i as int);
        }
        acc = acc + utf8_width_of(c);
        i = i + 1;
        if acc == 2 {
            hit2 = true;
        }
        if acc == 4 {
            hit4 = true;
        }
        proof {
            assert forall|j: int| 0 <= j <= i && utf8_len(#[trigger] t.subrange(0, j)) == 2
                implies (j < i || acc == 2) by {}
            assert forall|j: int| 0 <= j <= i && utf8_len(#[trigger] t.subrange(0, j)) == 4
                implies (j < i || acc == 4) by {}
        }
    }
    if i < len {
        proof {
            lemma_utf8_len_grows(t, i as int);
        }
        return false;
    }
    proof {
        assert(t.subrange(0, i as int) =~= t);
    }
    acc == 6 && !(hit2 && hit4)
}

/// The colour a `#rrggbb` text names; cyan when it does not name one.
pub open spec fn spec_parse_hex(hex: Seq<char>) -> Color {
    let t = trim_hashes(hex);
    if t.len() == 6 && (forall|i: int| 0 <= i < 6 ==> (t[i] as u32) < 128) {
        match (hex_pair(t[0], t[1]), hex_pair(t[2], t[3]), hex_pair(t[4], t[5])) {
            (Some(r), Some(g), Some(b)) => Color::Rgb(r, g, b),
            _ => Color::Cyan,
        }
    } else {
        Color::Cyan
    }
}

fn hex_digit(c: char) -> (r: Option<u8>)
    ensures
        r == hex_value(c),
{
    if '0' <= c && c <= '9' {
        Some(((c as u32) - 48) as u8)
    } else if 'a' <= c && c <= 'f' {
        Some(((c as u32) - 87) as u8)
    } else if 'A' <= c && c <= 'F' {
        Some(((c as u32) - 55) as u8)
    } else {
        None
    }
}

fn parse_pair(a: char, b: char) -> (r: Option<u8>)
    ensures
        r == hex_pair(a, b),
{
    if a == '+' {
        hex_digit(b)
    } else {
        match (hex_digit(a), hex_digit(b)) {
            (Some(x), Some(y)) => Some(x * 16 + y),
            _ => None,
        }
    }
}

/// Reads a `#rrggbb` colour; anything else is cyan.
pub fn parse_hex(hex: &str) -> (c: Color)
    requires
        !splits_a_char(hex@),
    ensures
        c == spec_parse_hex(hex@),
{
    let n = hex.unicode_len();
    let mut start: usize = 0;
    assert(hex@.subrange(0, n as int) =~= hex@);
    while start < n && hex.get_char(start) == '#'
        invariant
            n == hex@.len(),
            start <= n,
            trim_hashes(hex@) == trim_hashes(hex@.subrange(start as int, n as int)),
        decreases n - start,
    {
        assert(hex@.subrange(start as int, n as int).subrange(1, (n - start) as int)
            =~= hex@.subrange(start + 1, n as int));
        start = start + 1;
    }
    let ghost t = hex@.subrange(start as int, n as int);
    proof {
        if start < n {
            assert(t[0] != '#');
        }
        assert(trim_hashes(t) == t);
    }
    if n - start != 6 {
        return Color::Cyan;
    }
    let mut chars: Vec<char> = Vec::new();
    let mut i: usize = 0;
    while i < 6
        invariant
            n == hex@.len(),
            start + 6 == n,
            t == hex@.subrange(start as int, n as int),
            trim_hashes(hex@) == t,
            t.len() == 6,
            i <= 6,
            chars@ == t.subrange(0, i as int),
            forall|j: int| 0 <= j < i ==> (t[j] as u32) < 128,
        decreases 6 - i,
    {
        let c = hex.get_char(start + i);
        if (c as u32) >= 128 {
            assert(t[i as int] == c);
            assert(!(forall|j: int| 0 <= j < 6 ==> (t[j] as u32) < 128));
            return Color::Cyan;
        }
        chars.push(c);
        i = i + 1;
        assert(chars@ =~= t.subrange(0, i as int));
    }
    match (parse_pair(chars[0], chars[1]), parse_pair(chars[2], chars[3]), parse_pair(chars[4], chars[5])) {
        (Some(r), Some(g), Some(b)) => Color::Rgb(r, g, b),
        _ => Color::Cyan,
    }
}

/// The colours of the interface.
#[derive(Clone, Copy, Debug, PartialEq, Eq, Structural)]
pub struct Theme {
    pub accent: Color,
    pub text: Color,
    pub text_secondary: Color,
    pub text_muted: Color,
    pub highlight_bg: Color,
    pub highlight_fg: Color,
    pub panel_bg: Color,
    pub border_active: Color,
    pub border_inactive: Color,
    pub success: Color,
    pub warning: Color,
    pub error: Color,
    pub separator: Color,
}

/// The palette of a theme name: "light", or the dark theme for any other
/// name, around the given accent.
pub open spec fn spec_theme(name: Seq<char>, accent: Color) -> Theme {
    if name == "light"@ {
        Theme {
            accent,
            text: Color::Black,
            text_secondary: Color::Rgb(100, 100, 100),
            text_muted: Color::Rgb(160, 160, 160),
            highlight_bg: accent,
            highlight_fg: Color::White,
            panel_bg: Color::Rgb(240, 240, 240),
            border_active: accent,
            border_inactive: Color::Rgb(200, 200, 200),
            success: Color::Rgb(40, 180, 80),
            warning: Color::Rgb(220, 180, 0),
            error: Color::Rgb(220, 50, 50),
            separator: Color::Rgb(210, 210, 210),
        }
    } else {
        Theme {
            accent,
            text: Color::White,
            text_secondary: Color::Rgb(160, 160, 170),
            text_muted: Color::Rgb(90, 90, 100),
            highlight_bg: accent,
            highlight_fg: Color::Black,
            panel_bg: Color::Rgb(18, 18, 24),
            border_active: accent,
            border_inactive: Color::Rgb(55, 55, 65),
            success: Color::Rgb(80, 220, 120),
            warning: Color::Rgb(255, 200, 50),
            error: Color::Rgb(255, 80, 80),
            separator: Color::Rgb(45, 45, 55),
        }
    }
}

impl Theme {
    /// The theme of a settings pair (theme name, accent colour text).
    pub fn from_settings(theme: &str, accent_hex: &str) -> (t: Theme)
        requires
            !splits_a_char(accent_hex@),
        ensures
            t == spec_theme(theme@, spec_parse_hex(accent_hex@)),
    {
        let accent = parse_hex(accent_hex);
        proof {
            reveal_strlit("light");
        }
        if crate::text::str_eq(theme, "light") {
            Theme {
                accent,
                text: Color::Black,
                text_secondary: Color::Rgb(100, 100, 100),
                text_muted: Color::Rgb(160, 160, 160),
                highlight_bg: accent,
                highlight_fg: Color::White,
                panel_bg: Color::Rgb(240, 240, 240),
                border_active: accent,
                border_inactive: Color::Rgb(200, 200, 200),
                success: Color::Rgb(40, 180, 80),
                warning: Color::Rgb(220, 180, 0),
                error: Color::Rgb(220, 50, 50),
                separator: Color::Rgb(210, 210, 210),
            }
        } else {
            Theme {
                accent,
                text: Color::White,
                text_secondary: Color::Rgb(160, 160, 170),
                text_muted: Color::Rgb(90, 90, 100),
                highlight_bg: accent,
                highlight_fg: Color::Black,
                panel_bg: Color::Rgb(18, 18, 24),
                border_active: accent,
                border_inactive: Color::Rgb(55, 55, 65),
                success: Color::Rgb(80, 220, 120),
                warning: Color::Rgb(255, 200, 50),
                error: Color::Rgb(255, 80, 80),
                separator: Color::Rgb(45, 45, 55),
            }
        }
    }
}

impl Default for Theme {
    /// The dark theme with a cyan accent.
    fn default() -> (t: Theme)
        ensures
            t == spec_theme("dark"@, Color::Cyan),
    {
        proof {
            reveal_strlit("dark");
            reveal_strlit("light");
            assert("dark"@ != "light"@) by { assert("dark"@[0] != "light"@[0]); }
        }
        Theme {
            accent: Color::Cyan,
            text: Color::White,
            text_secondary: Color::Rgb(160, 160, 170),
            text_muted: Color::Rgb(90, 90, 100),
            highlight_bg: Color::Cyan,
            highlight_fg: Color::Black,
            panel_bg: Color::Rgb(18, 18, 24),
            border_active: Color::Cyan,
            border_inactive: Color::Rgb(55, 55, 65),
            success: Color::Rgb(80, 220, 120),
            warning: Color::Rgb(255, 200, 50),
            error: Color::Rgb(255, 80, 80),
            separator: Color::Rgb(45, 45, 55),
        }
    }
}

/// An RGB colour at a fifth of its intensity (the pulse animation's
/// background).
pub fn dimmed_rgb(rgb: (u8, u8, u8)) -> (r: (u8, u8, u8))
    ensures
        r == ((rgb.0 / 5) as u8, (rgb.1 / 5) as u8, (rgb.2 / 5) as u8),
{
    (rgb.0 / 5, rgb.1 / 5, rgb.2 / 5)
}

/// The RGB triple of a colour; named colours are read as the cyan
/// (0, 220, 255).
pub fn decompose(c: Color) -> (r: (u8, u8, u8))
    ensures
        r == (match c { Color::Rgb(a, b, d) => (a, b, d), _ => (0u8, 220u8, 255u8) }),
{
    match c {
        Color::Rgb(r, g, b) => (r, g, b),
        _ => (0, 220, 255),
    }
}

} // verus!
