//! The colour palettes of the viewer and the rule that picks the light or the
//! dark one from the environment.
use vstd::prelude::*;
use crate::chars::{contains, str_to_chars, sub_chars, chars_find};
use crate::style::Color;

verus! {

/// The colours the viewer paints with.
#[derive(Clone, Copy, PartialEq, Eq, Debug, Structural)]
pub struct Palette {
    pub bg: Color,
    pub border_active: Color,
    pub border_inactive: Color,
    pub text_primary: Color,
    pub text_secondary: Color,
    pub text_muted: Color,
    pub text_dimmed: Color,
    pub accent: Color,
    pub accent_soft: Color,
    pub open_bg: Color,
    pub code: Color,
    pub code_bg: Color,
    pub heading2: Color,
    pub heading3: Color,
    pub heading4: Color,
}

/// The palette for terminals with a light background.
pub open spec fn light_palette() -> Palette {
    Palette {
        bg: Color::Rgb(255, 255, 255),
        border_active: Color::Rgb(37, 99, 235),
        border_inactive: Color::Rgb(203, 213, 225),
        text_primary: Color::Rgb(15, 23, 42),
        text_secondary: Color::Rgb(100, 116, 139),
        text_muted: Color::Rgb(148, 163, 184),
        text_dimmed: Color::Rgb(156, 163, 175),
        accent: Color::Rgb(37, 99, 235),
        accent_soft: Color::Rgb(219, 234, 254),
        open_bg: Color::Rgb(239, 246, 255),
        code: Color::Rgb(180, 83, 9),
        code_bg: Color::Rgb(241, 245, 249),
        heading2: Color::Rgb(29, 78, 216),
        heading3: Color::Rgb(13, 148, 136),
        heading4: Color::Rgb(124, 58, 237),
    }
}

/// The palette for terminals with a dark background.
pub open spec fn dark_palette() -> Palette {
    Palette {
        bg: Color::Rgb(2, 6, 23),
        border_active: Color::Rgb(59, 130, 246),
        border_inactive: Color::Rgb(30, 41, 59),
        text_primary: Color::Rgb(240, 243, 248),
        text_secondary: Color::Rgb(148, 161, 178),
        text_muted: Color::Rgb(100, 116, 139),
        text_dimmed: Color::Rgb(71, 85, 105),
        accent: Color::Rgb(59, 130, 246),
        accent_soft: Color::Rgb(30, 58, 138),
        open_bg: Color::Rgb(15, 32, 66),
        code: Color::Rgb(251, 191, 36),
        code_bg: Color::Rgb(30, 41, 59),
        heading2: Color::Rgb(96, 165, 250),
        heading3: Color::Rgb(45, 212, 191),
        heading4: Color::Rgb(167, 139, 250),
    }
}

impl Palette {
    /// The light palette.
    pub fn light() -> (r: Palette)
        ensures
            r == light_palette(),
    {
        Palette {
            bg: Color::Rgb(255, 255, 255),
            border_active: Color::Rgb(37, 99, 235),
            border_inactive: Color::Rgb(203, 213, 225),
            text_primary: Color::Rgb(15, 23, 42),
            text_secondary: Color::Rgb(100, 116, 139),
            text_muted: Color::Rgb(148, 163, 184),
            text_dimmed: Color::Rgb(156, 163, 175),
            accent: Color::Rgb(37, 99, 235),
            accent_soft: Color::Rgb(219, 234, 254),
            open_bg: Color::Rgb(239, 246, 255),
            code: Color::Rgb(180, 83, 9),
            code_bg: Color::Rgb(241, 245, 249),
            heading2: Color::Rgb(29, 78, 216),
            heading3: Color::Rgb(13, 148, 136),
            heading4: Color::Rgb(124, 58, 237),
        }
    }

    /// The dark palette.
    pub fn dark() -> (r: Palette)
        ensures
            r == dark_palette(),
    {
        Palette {
            bg: Color::Rgb(2, 6, 23),
            border_active: Color::Rgb(59, 130, 246),
            border_inactive: Color::Rgb(30, 41, 59),
            text_primary: Color::Rgb(240, 243, 248),
            text_secondary: Color::Rgb(148, 161, 178),
            text_muted: Color::Rgb(100, 116, 139),
            text_dimmed: Color::Rgb(71, 85, 105),
            accent: Color::Rgb(59, 130, 246),
            accent_soft: Color::Rgb(30, 58, 138),
            open_bg: Color::Rgb(15, 32, 66),
            code: Color::Rgb(251, 191, 36),
            code_bg: Color::Rgb(30, 41, 59),
            heading2: Color::Rgb(96, 165, 250),
            heading3: Color::Rgb(45, 212, 191),
            heading4: Color::Rgb(167, 139, 250),
        }
    }

    /// The palette for a light (`true`) or dark (`false`) terminal.
    pub fn for_mode(light: bool) -> (r: Palette)
        ensures
            r == (if light { light_palette() } else { dark_palette() }),
    {
        if light {
            Palette::light()
        } else {
            Palette::dark()
        }
    }

    /// The palette that `is_light_mode` picks from what the environment
    /// reports (see there).
    pub fn detect(
        light_override: bool,
        dark_override: bool,
        colorfgbg: Option<&str>,
        interface_style: Option<&str>,
    ) -> (r: Palette)
        ensures
            r == (if light_mode_rule(
                light_override,
                dark_override,
                opt_view(colorfgbg),
                opt_view(interface_style),
            ) {
                light_palette()
            } else {
                dark_palette()
            }),
    {
        Palette::for_mode(is_light_mode(light_override, dark_override, colorfgbg, interface_style))
    }
}

/// The characters of an optional string.
pub open spec fn opt_view(s: Option<&str>) -> Option<Seq<char>> {
    match s {
        Some(t) => Some(t@),
        None => None,
    }
}

/// The part of `s` after its last `c` (all of `s` when `c` does not occur).
pub open spec fn last_segment(s: Seq<char>, c: char) -> Seq<char>
    decreases s.len(),
{
    if s.len() == 0 {
        s
    } else if s.last() == c {
        Seq::empty()
    } else {
        last_segment(s.drop_last(), c).push(s.last())
    }
}

/// `c` is an ASCII decimal digit.
pub open spec fn is_digit(c: char) -> bool {
    '0' <= c && c <= '9'
}

/// The number written by the decimal digits `d`.
pub open spec fn digits_value(d: Seq<char>) -> nat
    decreases d.len(),
{
    if d.len() == 0 {
        0
    } else {
        digits_value(d.drop_last()) * 10 + ((d.last() as u32) - ('0' as u32)) as nat
    }
}

/// `s` without one leading `+`, if it has one.
pub open spec fn unsigned_digits(s: Seq<char>) -> Seq<char> {
    if s.len() > 0 && s[0] == '+' {
        s.drop_first()
    } else {
        s
    }
}

/// Every character of `d` is a decimal digit.
pub open spec fn all_digits(d: Seq<char>) -> bool {
    forall|i: int| 0 <= i < d.len() ==> is_digit(#[trigger] d[i])
}

/// `str::parse::<u32>`: an optional `+`, then one or more decimal digits
/// whose value fits in a `u32`.
pub open spec fn parse_u32(s: Seq<char>) -> Option<u32> {
    let d = unsigned_digits(s);
    if d.len() == 0 || !all_digits(d) {
        None
    } else if digits_value(d) > u32::MAX {
        None
    } else {
        Some(digits_value(d) as u32)
    }
}

/// A `COLORFGBG` value describes a light background: its last `;`-separated
/// field is the colour number 7 or 11 to 15.
pub open spec fn colorfgbg_is_light(v: Seq<char>) -> bool {
    match parse_u32(last_segment(v, ';')) {
        Some(n) => n == 7 || (11 <= n && n <= 15),
        None => false,
    }
}

/// Whether to use the light palette: a light override wins, then a dark
/// override; else a light `COLORFGBG`; else, where the desktop reports an
/// interface style, light unless that style mentions `Dark`; else dark.
pub open spec fn light_mode_rule(
    light_override: bool,
    dark_override: bool,
    colorfgbg: Option<Seq<char>>,
    interface_style: Option<Seq<char>>,
) -> bool {
    if light_override {
        true
    } else if dark_override {
        false
    } else if colorfgbg matches Some(v) && colorfgbg_is_light(v) {
        true
    } else {
        match interface_style {
            Some(out) => !contains(out, seq!['D', 'a', 'r', 'k']),
            None => false,
        }
    }
}

proof fn lemma_digits_value_grows(d: Seq<char>, i: int)
    requires
        0 <= i <= d.len(),
        forall|k: int| 0 <= k < d.len() ==> is_digit(d[k]),
    ensures
        digits_value(d.take(i)) <= digits_value(d),
    decreases d.len() - i,
{
    if i < d.len() {
        lemma_digits_value_grows(d, i + 1);
        assert(d.take(i + 1).drop_last() =~= d.take(i));
    } else {
        assert(d.take(i) =~= d);
    }
}

/// `str::parse::<u32>`.
pub fn parse_u32_chars(s: &Vec<char>) -> (r: Option<u32>)
    ensures
        r == parse_u32(s@),
{
    let start: usize = if s.len() > 0 && s[0] == '+' {
        1
    } else {
        0
    };
    let ghost d = unsigned_digits(s@);
    assert(d =~= s@.subrange(start as int, s@.len() as int));
    if start >= s.len() {
        return None;
    }
    let mut i = start;
    while i < s.len()
        invariant
            start <= i <= s@.len(),
            d =~= s@.subrange(start as int, s@.len() as int),
            d == unsigned_digits(s@),
            forall|k: int| start <= k < i ==> is_digit(s@[k]),
        decreases s@.len() - i,
    {
        if !('0' <= s[i] && s[i] <= '9') {
            assert(d[i - start] == s@[i as int]);
            let ghost k = i - start;
            assert(0 <= k < d.len() && !is_digit(d[k]));
            assert(parse_u32(s@) is None);
            return None;
        }
        i = i + 1;
    }
    let mut value: u64 = 0;
    let mut j = start;
    while j < s.len()
        invariant
            start <= j <= s@.len(),
            d =~= s@.subrange(start as int, s@.len() as int),
            d == unsigned_digits(s@),
            forall|k: int| 0 <= k < d.len() ==> is_digit(d[k]),
            value == digits_value(d.take(j - start)),
            value <= u32::MAX,
        decreases s@.len() - j,
    {
        assert(d[j - start] == s@[j as int]);
        assert(is_digit(d[j - start]));
        let digit = (s[j] as u32 - '0' as u32) as u64;
        assert(d.take(j - start + 1).drop_last() =~= d.take(j - start));
        assert(d.take(j - start + 1).last() == s@[j as int]);
        let next = value * 10 + digit;
        assert(next == digits_value(d.take(j - start + 1)));
        if next > u32::MAX as u64 {
            proof {
                lemma_digits_value_grows(d, j - start + 1);
            }
            return None;
        }
        value = next;
        j = j + 1;
    }
    assert(d.take(d.len() as int) =~= d);
    Some(value as u32)
}

/// The characters after the last `c` in `s`.
pub fn last_segment_chars(s: &Vec<char>, c: char) -> (r: Vec<char>)
    ensures
        r@ == last_segment(s@, c),
{
    let mut i = s.len();
    assert(s@.take(i as int) =~= s@);
    assert(s@ + s@.subrange(i as int, s@.len() as int) =~= s@);
    while i > 0 && s[i - 1] != c
        invariant
            0 <= i <= s@.len(),
            last_segment(s@, c) == last_segment(s@.take(i as int), c) + s@.subrange(
                i as int,
                s@.len() as int,
            ),
        decreases i,
    {
        assert(s@.take(i as int).drop_last() =~= s@.take(i - 1));
        assert(s@.subrange(i - 1, s@.len() as int) =~= seq![s@[i - 1]] + s@.subrange(
            i as int,
            s@.len() as int,
        ));
        assert(last_segment(s@.take(i as int), c) == last_segment(s@.take(i - 1), c).push(
            s@[i - 1],
        ));
        i = i - 1;
    }
    if i > 0 {
        assert(last_segment(s@.take(i as int), c) =~= Seq::<char>::empty());
    } else {
        assert(last_segment(s@.take(0), c) =~= Seq::<char>::empty());
    }
    sub_chars(s, i, s.len())
}

/// Whether the light palette applies (see `light_mode_rule`). The caller
/// reads the environment: `MDCMD_LIGHT_MODE` and `MDCMD_DARK_MODE` set or not,
/// the value of `COLORFGBG` if any, and the desktop interface style if the
/// platform reports one.
pub fn is_light_mode(
    light_override: bool,
    dark_override: bool,
    colorfgbg: Option<&str>,
    interface_style: Option<&str>,
) -> (r: bool)
    ensures
        r == light_mode_rule(
            light_override,
            dark_override,
            opt_view(colorfgbg),
            opt_view(interface_style),
        ),
{
    if light_override {
        return true;
    }
    if dark_override {
        return false;
    }
    if let Some(v) = colorfgbg {
        let chars = str_to_chars(v);
        let last = last_segment_chars(&chars, ';');
        if let Some(n) = parse_u32_chars(&last) {
            if n == 7 || (11 <= n && n <= 15) {
                return true;
            }
        }
    }
    match interface_style {
        Some(out) => {
            let chars = str_to_chars(out);
            let dark = chars_find(&chars, &['D', 'a', 'r', 'k']);
            dark.is_none()
        },
        None => false,
    }
}

} // verus!
