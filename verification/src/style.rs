//! Terminal styles and the style-string grammar.
//!
//! A style string is a whitespace-separated token list, folded left to right:
//! `bold`, `italic`, `underline` and `dimmed` add an attribute; `none`
//! anywhere invalidates the whole parse; any other token is a colour —
//! `#RRGGBB`, a palette index `0`–`255`, or one of sixteen names — applied to
//! the foreground, or to the background when prefixed `bg:`. Later colours
//! override earlier ones per channel. Tokens are case-insensitive, and an
//! unrecognised token fails the whole parse.

use vstd::prelude::*;

use crate::strutil::{
    all_digits, chars_eq_str, chars_have_prefix, chars_of, dec_digits, dec_val, has_prefix,
    is_digit_char, join_with, lower_chars, lower_seq, parse_u64_chars, parse_u64_spec,
    strip_repeated_prefix, strip_repeated_prefix_chars, tokenize_chars, tokens_of,
};

verus! {

/// A terminal colour: one of the eight named colours, a fixed palette index,
/// or a 24-bit value.
#[derive(Clone, Copy, PartialEq, Eq, Debug)]
pub enum Color {
    Black,
    Red,
    Green,
    Yellow,
    Blue,
    Purple,
    Cyan,
    White,
    Fixed(u8),
    Rgb(u8, u8, u8),
}

/// A terminal style: optional foreground and background colours plus
/// attribute flags.
#[derive(Clone, Copy, PartialEq, Eq, Debug)]
pub struct Style {
    pub foreground: Option<Color>,
    pub background: Option<Color>,
    pub is_bold: bool,
    pub is_dimmed: bool,
    pub is_italic: bool,
    pub is_underline: bool,
    pub is_strikethrough: bool,
}

/// The style with no colours and no attributes.
pub open spec fn plain_style() -> Style {
    Style {
        foreground: None,
        background: None,
        is_bold: false,
        is_dimmed: false,
        is_italic: false,
        is_underline: false,
        is_strikethrough: false,
    }
}

impl Style {
    /// Creates a style with no properties set.
    pub fn new() -> (r: Style)
        ensures
            r == plain_style(),
    {
        Style {
            foreground: None,
            background: None,
            is_bold: false,
            is_dimmed: false,
            is_italic: false,
            is_underline: false,
            is_strikethrough: false,
        }
    }

    pub fn bold(self) -> (r: Style)
        ensures
            r == (Style { is_bold: true, ..self }),
    {
        Style { is_bold: true, ..self }
    }

    pub fn dimmed(self) -> (r: Style)
        ensures
            r == (Style { is_dimmed: true, ..self }),
    {
        Style { is_dimmed: true, ..self }
    }

    pub fn italic(self) -> (r: Style)
        ensures
            r == (Style { is_italic: true, ..self }),
    {
        Style { is_italic: true, ..self }
    }

    pub fn underline(self) -> (r: Style)
        ensures
            r == (Style { is_underline: true, ..self }),
    {
        Style { is_underline: true, ..self }
    }

    pub fn strikethrough(self) -> (r: Style)
        ensures
            r == (Style { is_strikethrough: true, ..self }),
    {
        Style { is_strikethrough: true, ..self }
    }

    pub fn fg(self, color: Color) -> (r: Style)
        ensures
            r == (Style { foreground: Some(color), ..self }),
    {
        Style { foreground: Some(color), ..self }
    }

    pub fn on(self, color: Color) -> (r: Style)
        ensures
            r == (Style { background: Some(color), ..self }),
    {
        Style { background: Some(color), ..self }
    }
}

impl Default for Style {
    /// The default style is the plain style.
    fn default() -> (r: Style)
        ensures
            r == plain_style(),
    {
        Style::new()
    }
}

impl Color {
    /// A style showing this colour in the foreground, with no attributes.
    pub fn normal(self) -> (r: Style)
        ensures
            r == (Style { foreground: Some(self), ..plain_style() }),
    {
        Style::new().fg(self)
    }

    /// A bold style showing this colour in the foreground.
    pub fn bold(self) -> (r: Style)
        ensures
            r == (Style { foreground: Some(self), is_bold: true, ..plain_style() }),
    {
        Style::new().fg(self).bold()
    }

    /// A dimmed style showing this colour in the foreground.
    pub fn dimmed(self) -> (r: Style)
        ensures
            r == (Style { foreground: Some(self), is_dimmed: true, ..plain_style() }),
    {
        Style::new().fg(self).dimmed()
    }
}

/// A plain style showing a colour in the foreground.
pub open spec fn fg_plain(c: Color) -> Style {
    Style { foreground: Some(c), ..plain_style() }
}

/// A bold style showing a colour in the foreground.
pub open spec fn fg_bold(c: Color) -> Style {
    Style { foreground: Some(c), is_bold: true, ..plain_style() }
}

/// A dimmed style showing a colour in the foreground.
pub open spec fn fg_dimmed(c: Color) -> Style {
    Style { foreground: Some(c), is_dimmed: true, ..plain_style() }
}

/// The colour named by a (lowercased) token, if any.
pub open spec fn named_color(t: Seq<char>) -> Option<Color> {
    if t == "black"@ {
        Some(Color::Black)
    } else if t == "red"@ {
        Some(Color::Red)
    } else if t == "green"@ {
        Some(Color::Green)
    } else if t == "yellow"@ {
        Some(Color::Yellow)
    } else if t == "blue"@ {
        Some(Color::Blue)
    } else if t == "purple"@ {
        Some(Color::Purple)
    } else if t == "cyan"@ {
        Some(Color::Cyan)
    } else if t == "white"@ {
        Some(Color::White)
    } else if t == "bright-black"@ {
        Some(Color::Fixed(8))
    } else if t == "bright-red"@ {
        Some(Color::Fixed(9))
    } else if t == "bright-green"@ {
        Some(Color::Fixed(10))
    } else if t == "bright-yellow"@ {
        Some(Color::Fixed(11))
    } else if t == "bright-blue"@ {
        Some(Color::Fixed(12))
    } else if t == "bright-purple"@ {
        Some(Color::Fixed(13))
    } else if t == "bright-cyan"@ {
        Some(Color::Fixed(14))
    } else if t == "bright-white"@ {
        Some(Color::Fixed(15))
    } else {
        None
    }
}

pub open spec fn is_hex_digit(c: char) -> bool {
    ('0' <= c && c <= '9') || ('a' <= c && c <= 'f') || ('A' <= c && c <= 'F')
}

pub open spec fn hex_digit_val(c: char) -> int {
    if '0' <= c && c <= '9' {
        c as u32 - 48
    } else if 'a' <= c && c <= 'f' {
        c as u32 - 97 + 10
    } else {
        c as u32 - 65 + 10
    }
}

/// The colour denoted by a (lowercased) colour token: a `#RRGGBB` value, a
/// decimal palette index that std's `u8` parse accepts, or a colour name.
pub open spec fn color_of_token(t: Seq<char>) -> Option<Color> {
    if t.len() >= 1 && t[0] == '#' {
        if t.len() >= 7 && (forall|i: int| 1 <= i < 7 ==> is_hex_digit(t[i])) {
            Some(
                Color::Rgb(
                    (hex_digit_val(t[1]) * 16 + hex_digit_val(t[2])) as u8,
                    (hex_digit_val(t[3]) * 16 + hex_digit_val(t[4])) as u8,
                    (hex_digit_val(t[5]) * 16 + hex_digit_val(t[6])) as u8,
                ),
            )
        } else {
            None
        }
    } else {
        match parse_u64_spec(t) {
            Some(n) => if n <= 255 {
                Some(Color::Fixed(n as u8))
            } else {
                None
            },
            None => named_color(t),
        }
    }
}

/// Strip a `fg:`/`bg:` target prefix — however often the same one repeats —
/// off a (lowercased) token; the flag is true when the token targets the
/// foreground.
pub open spec fn strip_target(t: Seq<char>) -> (Seq<char>, bool) {
    if has_prefix(t, "fg:"@) {
        (strip_repeated_prefix(t, "fg:"@), true)
    } else if has_prefix(t, "bg:"@) {
        (strip_repeated_prefix(t, "bg:"@), false)
    } else {
        (t, true)
    }
}

/// Apply one raw token to an accumulated style; `None` poisons the parse.
pub open spec fn apply_token(st: Style, tok: Seq<char>) -> Option<Style> {
    let stripped = strip_target(lower_seq(tok));
    let body = stripped.0;
    let to_fg = stripped.1;
    if body == "underline"@ {
        Some(Style { is_underline: true, ..st })
    } else if body == "bold"@ {
        Some(Style { is_bold: true, ..st })
    } else if body == "italic"@ {
        Some(Style { is_italic: true, ..st })
    } else if body == "dimmed"@ {
        Some(Style { is_dimmed: true, ..st })
    } else if body == "none"@ {
        None
    } else {
        match color_of_token(body) {
            Some(c) => if to_fg {
                Some(Style { foreground: Some(c), ..st })
            } else {
                Some(Style { background: Some(c), ..st })
            },
            None => None,
        }
    }
}

/// Left fold of `apply_token` over a token list.
pub open spec fn fold_tokens(st: Style, toks: Seq<Seq<char>>) -> Option<Style>
    decreases toks.len(),
{
    if toks.len() == 0 {
        Some(st)
    } else {
        match apply_token(st, toks[0]) {
            Some(st2) => fold_tokens(st2, toks.drop_first()),
            None => None,
        }
    }
}

/// The style denoted by a style string, if it parses.
pub open spec fn parse_style_spec(s: Seq<char>) -> Option<Style> {
    fold_tokens(plain_style(), tokens_of(s))
}

/// Executable colour-token parse; the token must already be lowercased.
fn color_of_chars(t: &Vec<char>) -> (r: Option<Color>)
    ensures
        r == color_of_token(t@),
{
    if t.len() >= 1 && t[0] == '#' {
        if t.len() < 7 {
            return None;
        }
        let mut vals: [u8; 6] = [0, 0, 0, 0, 0, 0];
        let mut i: usize = 1;
        while i < 7
            invariant
                1 <= i <= 7,
                t@.len() >= 7,
                t@[0] == '#',
                forall|j: int| 1 <= j < i ==> is_hex_digit(t@[j]),
                forall|j: int| 1 <= j < i ==> vals@[j - 1] == hex_digit_val(t@[j]),
            decreases 7 - i,
        {
            let c = t[i];
            let v: u8 = if '0' <= c && c <= '9' {
                (c as u8) - 48
            } else if 'a' <= c && c <= 'f' {
                (c as u8) - 97 + 10
            } else if 'A' <= c && c <= 'F' {
                (c as u8) - 65 + 10
            } else {
                proof {
                    assert(!is_hex_digit(t@[i as int]));
                    assert(!(forall|j: int| 1 <= j < 7 ==> is_hex_digit(t@[j])));
                }
                return None;
            };
            proof {
                assert(is_hex_digit(c));
                assert(v == hex_digit_val(c));
            }
            vals[i - 1] = v;
            i = i + 1;
        }
        let red = vals[0] * 16 + vals[1];
        let green = vals[2] * 16 + vals[3];
        let blue = vals[4] * 16 + vals[5];
        Some(Color::Rgb(red, green, blue))
    } else {
        match parse_u64_chars(t) {
            Some(n) => if n <= 255 {
                Some(Color::Fixed(n as u8))
            } else {
                None
            },
            None => {
                if chars_eq_str(t, "black") {
                    Some(Color::Black)
                } else if chars_eq_str(t, "red") {
                    Some(Color::Red)
                } else if chars_eq_str(t, "green") {
                    Some(Color::Green)
                } else if chars_eq_str(t, "yellow") {
                    Some(Color::Yellow)
                } else if chars_eq_str(t, "blue") {
                    Some(Color::Blue)
                } else if chars_eq_str(t, "purple") {
                    Some(Color::Purple)
                } else if chars_eq_str(t, "cyan") {
                    Some(Color::Cyan)
                } else if chars_eq_str(t, "white") {
                    Some(Color::White)
                } else if chars_eq_str(t, "bright-black") {
                    Some(Color::Fixed(8))
                } else if chars_eq_str(t, "bright-red") {
                    Some(Color::Fixed(9))
                } else if chars_eq_str(t, "bright-green") {
                    Some(Color::Fixed(10))
                } else if chars_eq_str(t, "bright-yellow") {
                    Some(Color::Fixed(11))
                } else if chars_eq_str(t, "bright-blue") {
                    Some(Color::Fixed(12))
                } else if chars_eq_str(t, "bright-purple") {
                    Some(Color::Fixed(13))
                } else if chars_eq_str(t, "bright-cyan") {
                    Some(Color::Fixed(14))
                } else if chars_eq_str(t, "bright-white") {
                    Some(Color::Fixed(15))
                } else {
                    None
                }
            },
        }
    }
}

/// Parse a colour setting: `#RRGGBB`, a decimal `0`–`255` palette index, or
/// one of the sixteen predefined colour names (case-insensitive).
pub fn parse_color_string(color_string: &str) -> (r: Option<Color>)
    ensures
        r == color_of_token(lower_seq(color_string@)),
{
    let raw = chars_of(color_string);
    let lowered = lower_chars(&raw);
    color_of_chars(&lowered)
}

/// Executable `apply_token`.
fn apply_token_exec(st: Style, tok: &Vec<char>) -> (r: Option<Style>)
    ensures
        r == apply_token(st, tok@),
{
    let lowered = lower_chars(tok);
    let (body, to_fg): (Vec<char>, bool) = if chars_have_prefix(&lowered, "fg:") {
        (strip_repeated_prefix_chars(lowered, "fg:"), true)
    } else if chars_have_prefix(&lowered, "bg:") {
        (strip_repeated_prefix_chars(lowered, "bg:"), false)
    } else {
        (lowered, true)
    };
    if chars_eq_str(&body, "underline") {
        Some(st.underline())
    } else if chars_eq_str(&body, "bold") {
        Some(st.bold())
    } else if chars_eq_str(&body, "italic") {
        Some(st.italic())
    } else if chars_eq_str(&body, "dimmed") {
        Some(st.dimmed())
    } else if chars_eq_str(&body, "none") {
        None
    } else {
        match color_of_chars(&body) {
            Some(c) => if to_fg {
                Some(st.fg(c))
            } else {
                Some(st.on(c))
            },
            None => None,
        }
    }
}

/// Parse a style string: whitespace-separated tokens folded left to right.
/// `None` is returned for an unrecognised token, and for the token `none`
/// anywhere in the stream.
pub fn parse_style_string(style_string: &str) -> (r: Option<Style>)
    ensures
        r == parse_style_spec(style_string@),
{
    let raw = chars_of(style_string);
    let toks = tokenize_chars(&raw);
    let ghost tseq = tokens_of(style_string@);
    let mut st = Style::new();
    let mut i: usize = 0;
    proof {
        assert(tseq.skip(0) =~~= tseq);
    }
    while i < toks.len()
        invariant
            i <= toks@.len(),
            tseq == tokens_of(style_string@),
            toks.deep_view() == tseq,
            toks@.len() == tseq.len(),
            fold_tokens(plain_style(), tseq) == fold_tokens(st, tseq.skip(i as int)),
        decreases toks@.len() - i,
    {
        proof {
            assert(toks@[i as int]@ == tseq[i as int]);
            assert(tseq.skip(i as int)[0] == tseq[i as int]);
            assert(tseq.skip(i as int).drop_first() =~~= tseq.skip(i as int + 1));
        }
        match apply_token_exec(st, &toks[i]) {
            Some(st2) => {
                st = st2;
            },
            None => {
                proof {
                    assert(apply_token(st, tseq.skip(i as int)[0]) is None);
                    assert(fold_tokens(st, tseq.skip(i as int)) is None);
                }
                return None;
            },
        }
        i = i + 1;
    }
    proof {
        assert(tseq.skip(tseq.len() as int) =~~= Seq::<Seq<char>>::empty());
    }
    Some(st)
}

/// The numeric code of a named colour (`30`–`37` foreground, `40`–`47`
/// background); fixed and 24-bit colours are rendered through `38`/`48`.
pub open spec fn color_number(c: Color) -> int {
    match c {
        Color::Black => 0,
        Color::Red => 1,
        Color::Green => 2,
        Color::Yellow => 3,
        Color::Blue => 4,
        Color::Purple => 5,
        Color::Cyan => 6,
        Color::White => 7,
        Color::Fixed(_) => 8,
        Color::Rgb(_, _, _) => 8,
    }
}

/// The foreground code a colour contributes to an escape prefix.
pub open spec fn fg_code(c: Color) -> Seq<char> {
    match c {
        Color::Fixed(n) => seq!['3', '8', ';', '5', ';'] + dec_digits(n as int),
        Color::Rgb(r, g, b) => seq!['3', '8', ';', '2', ';'] + dec_digits(r as int) + seq![';']
            + dec_digits(g as int) + seq![';'] + dec_digits(b as int),
        _ => seq!['3', ((48 + color_number(c)) as u32) as char],
    }
}

/// The background code a colour contributes to an escape prefix.
pub open spec fn bg_code(c: Color) -> Seq<char> {
    match c {
        Color::Fixed(n) => seq!['4', '8', ';', '5', ';'] + dec_digits(n as int),
        Color::Rgb(r, g, b) => seq!['4', '8', ';', '2', ';'] + dec_digits(r as int) + seq![';']
            + dec_digits(g as int) + seq![';'] + dec_digits(b as int),
        _ => seq!['4', ((48 + color_number(c)) as u32) as char],
    }
}

/// The semicolon-separated code list of a style, in the order the escape
/// sequence carries them: attributes, then background, then foreground.
pub open spec fn style_codes(st: Style) -> Seq<Seq<char>> {
    let a = Seq::<Seq<char>>::empty();
    let a = if st.is_bold {
        a.push(seq!['1'])
    } else {
        a
    };
    let a = if st.is_dimmed {
        a.push(seq!['2'])
    } else {
        a
    };
    let a = if st.is_italic {
        a.push(seq!['3'])
    } else {
        a
    };
    let a = if st.is_underline {
        a.push(seq!['4'])
    } else {
        a
    };
    let a = if st.is_strikethrough {
        a.push(seq!['9'])
    } else {
        a
    };
    let a = match st.background {
        Some(c) => a.push(bg_code(c)),
        None => a,
    };
    let a = match st.foreground {
        Some(c) => a.push(fg_code(c)),
        None => a,
    };
    a
}

/// The escape-code prefix a style paints before its text; empty for the
/// plain style.
pub open spec fn style_prefix(st: Style) -> Seq<char> {
    if st == plain_style() {
        Seq::<char>::empty()
    } else {
        seq!['\u{1b}', '['] + join_with(style_codes(st), ';') + seq!['m']
    }
}

/// The reset suffix a style paints after its text; empty for the plain style.
pub open spec fn style_suffix(st: Style) -> Seq<char> {
    if st == plain_style() {
        Seq::<char>::empty()
    } else {
        seq!['\u{1b}', '[', '0', 'm']
    }
}

/// A piece of text painted with a style: prefix, text, reset.
pub open spec fn painted(st: Style, text: Seq<char>) -> Seq<char> {
    style_prefix(st) + text + style_suffix(st)
}

#[verifier::external_type_specification]
#[verifier::external_body]
pub struct ExAnsiColour(ansi_term::Colour);

/// Relies on ansi_term's `Colour`: maps each library colour onto the
/// ansi_term value of the same name, palette index or channel triple.
#[verifier::external_body]
fn colour_value(c: Color) -> ansi_term::Colour {
    match c {
        Color::Black => ansi_term::Colour::Black,
        Color::Red => ansi_term::Colour::Red,
        Color::Green => ansi_term::Colour::Green,
        Color::Yellow => ansi_term::Colour::Yellow,
        Color::Blue => ansi_term::Colour::Blue,
        Color::Purple => ansi_term::Colour::Purple,
        Color::Cyan => ansi_term::Colour::Cyan,
        Color::White => ansi_term::Colour::White,
        Color::Fixed(n) => ansi_term::Colour::Fixed(n),
        Color::Rgb(r, g, b) => ansi_term::Colour::RGB(r, g, b),
    }
}

/// Relies on ansi_term's `Style::paint` (with `colour_value` above carrying
/// the colours over): the output is the style's escape-code prefix — `ESC [`,
/// the attribute and colour codes joined by `;`, then `m` — followed by the
/// text and the reset suffix, both affixes empty for a plain style.
#[verifier::external_body]
pub(crate) fn paint(style: &Style, text: &str) -> (r: String)
    ensures
        r@ == painted(*style, text@),
{
    let st = ansi_term::Style {
        foreground: style.foreground.map(colour_value),
        background: style.background.map(colour_value),
        is_bold: style.is_bold,
        is_dimmed: style.is_dimmed,
        is_italic: style.is_italic,
        is_underline: style.is_underline,
        is_strikethrough: style.is_strikethrough,
        ..ansi_term::Style::default()
    };
    st.paint(text).to_string()
}

/// Whether a raw token reads as `none` once lowercased and stripped of a
/// channel prefix.
pub open spec fn is_none_token(t: Seq<char>) -> bool {
    strip_target(lower_seq(t)).0 == "none"@
}

/// Two sequences differing at one index are different.
proof fn lemma_seq_neq_at(a: Seq<char>, b: Seq<char>, i: int)
    requires
        0 <= i < a.len(),
        0 <= i < b.len(),
        a[i] != b[i],
    ensures
        a != b,
{
}

/// The four attribute words and `none` never read as colours, and the
/// attribute words are pairwise distinct from `none`.
proof fn lemma_keywords()
    ensures
        color_of_token("underline"@) is None,
        color_of_token("bold"@) is None,
        color_of_token("italic"@) is None,
        color_of_token("dimmed"@) is None,
        color_of_token("none"@) is None,
        "none"@ != "underline"@,
        "none"@ != "bold"@,
        "none"@ != "italic"@,
        "none"@ != "dimmed"@,
{
    reveal_strlit("underline");
    reveal_strlit("bold");
    reveal_strlit("italic");
    reveal_strlit("dimmed");
    reveal_strlit("none");
    reveal_strlit("black");
    reveal_strlit("red");
    reveal_strlit("green");
    reveal_strlit("yellow");
    reveal_strlit("blue");
    reveal_strlit("purple");
    reveal_strlit("cyan");
    reveal_strlit("white");
    reveal_strlit("bright-black");
    reveal_strlit("bright-red");
    reveal_strlit("bright-green");
    reveal_strlit("bright-yellow");
    reveal_strlit("bright-blue");
    reveal_strlit("bright-purple");
    reveal_strlit("bright-cyan");
    reveal_strlit("bright-white");
    assert(!is_digit_char("underline"@[0]));
    assert(!is_digit_char("bold"@[0]));
    assert(!is_digit_char("italic"@[0]));
    assert(!is_digit_char("dimmed"@[0]));
    assert(!is_digit_char("none"@[0]));
    lemma_seq_neq_at("bold"@, "blue"@, 1);
    lemma_seq_neq_at("bold"@, "cyan"@, 0);
    lemma_seq_neq_at("italic"@, "yellow"@, 0);
    lemma_seq_neq_at("italic"@, "purple"@, 0);
    lemma_seq_neq_at("dimmed"@, "yellow"@, 0);
    lemma_seq_neq_at("dimmed"@, "purple"@, 0);
    lemma_seq_neq_at("none"@, "blue"@, 0);
    lemma_seq_neq_at("none"@, "cyan"@, 0);
    lemma_seq_neq_at("none"@, "bold"@, 0);
    lemma_seq_neq_at("none"@, "italic"@, 0);
    lemma_seq_neq_at("none"@, "dimmed"@, 0);
    lemma_seq_neq_at("none"@, "underline"@, 0);
}

/// LAW — the token `none`, anywhere in a style token stream and however the
/// stream began, invalidates the whole parse.
pub proof fn lemma_none_token_poisons(st: Style, toks: Seq<Seq<char>>)
    requires
        exists|i: int| 0 <= i < toks.len() && is_none_token(toks[i]),
    ensures
        fold_tokens(st, toks) is None,
    decreases toks.len(),
{
    let i = choose|i: int| 0 <= i < toks.len() && is_none_token(toks[i]);
    lemma_keywords();
    if i == 0 {
        assert(apply_token(st, toks[0]) is None);
    } else {
        match apply_token(st, toks[0]) {
            Some(st2) => {
                assert(toks.drop_first()[i - 1] == toks[i]);
                lemma_none_token_poisons(st2, toks.drop_first());
            },
            None => {},
        }
    }
}

/// LAW — corollary at the string level: a style string one of whose tokens
/// reads as `none` parses to nothing.
pub proof fn lemma_none_invalidates_parse(s: Seq<char>)
    requires
        exists|i: int|
            0 <= i < tokens_of(s).len() && is_none_token(#[trigger] tokens_of(s)[i]),
    ensures
        parse_style_spec(s) is None,
{
    lemma_none_token_poisons(plain_style(), tokens_of(s));
}

/// Whether a raw token is a colour token for the given channel (foreground
/// when `to_fg` is true).
pub open spec fn is_color_token_for(t: Seq<char>, to_fg: bool) -> bool {
    &&& strip_target(lower_seq(t)).1 == to_fg
    &&& color_of_token(strip_target(lower_seq(t)).0) is Some
}

/// The colour a colour token denotes.
pub open spec fn token_color(t: Seq<char>) -> Color {
    color_of_token(strip_target(lower_seq(t)).0)->0
}

/// Applying a colour token sets exactly its channel.
proof fn lemma_apply_color_token(st: Style, t: Seq<char>, to_fg: bool)
    requires
        is_color_token_for(t, to_fg),
    ensures
        apply_token(st, t) is Some,
        to_fg ==> apply_token(st, t)->0 == (Style {
            foreground: Some(token_color(t)),
            ..st
        }),
        !to_fg ==> apply_token(st, t)->0 == (Style {
            background: Some(token_color(t)),
            ..st
        }),
{
    lemma_keywords();
}

/// A token that is not a colour token for a channel leaves that channel
/// unchanged whenever it applies at all.
proof fn lemma_apply_keeps_channel(st: Style, t: Seq<char>, to_fg: bool)
    requires
        !is_color_token_for(t, to_fg),
        apply_token(st, t) is Some,
    ensures
        to_fg ==> apply_token(st, t)->0.foreground == st.foreground,
        !to_fg ==> apply_token(st, t)->0.background == st.background,
{
}

/// A fold over tokens none of which colours the given channel leaves that
/// channel as it began.
proof fn lemma_fold_keeps_channel(st: Style, toks: Seq<Seq<char>>, to_fg: bool)
    requires
        forall|j: int| 0 <= j < toks.len() ==> !is_color_token_for(toks[j], to_fg),
        fold_tokens(st, toks) is Some,
    ensures
        to_fg ==> fold_tokens(st, toks)->0.foreground == st.foreground,
        !to_fg ==> fold_tokens(st, toks)->0.background == st.background,
    decreases toks.len(),
{
    if toks.len() > 0 {
        let st2 = apply_token(st, toks[0])->0;
        lemma_apply_keeps_channel(st, toks[0], to_fg);
        assert(forall|j: int|
            0 <= j < toks.drop_first().len() ==> !is_color_token_for(
                #[trigger] toks.drop_first()[j],
                to_fg,
            ));
        lemma_fold_keeps_channel(st2, toks.drop_first(), to_fg);
    }
}

/// LAW — among colour tokens for one channel, the last wins: when the parse
/// succeeds, the parsed colour of a channel is the colour of the last token
/// that coloured it.
pub proof fn lemma_last_color_wins(st: Style, toks: Seq<Seq<char>>, i: int, to_fg: bool)
    requires
        0 <= i < toks.len(),
        is_color_token_for(toks[i], to_fg),
        forall|j: int| i < j < toks.len() ==> !is_color_token_for(toks[j], to_fg),
        fold_tokens(st, toks) is Some,
    ensures
        to_fg ==> fold_tokens(st, toks)->0.foreground == Some(token_color(toks[i])),
        !to_fg ==> fold_tokens(st, toks)->0.background == Some(token_color(toks[i])),
    decreases toks.len(),
{
    let st2 = apply_token(st, toks[0])->0;
    if i == 0 {
        lemma_apply_color_token(st, toks[0], to_fg);
        assert(forall|j: int|
            0 <= j < toks.drop_first().len() ==> !is_color_token_for(
                #[trigger] toks.drop_first()[j],
                to_fg,
            ));
        lemma_fold_keeps_channel(st2, toks.drop_first(), to_fg);
    } else {
        assert(toks.drop_first()[i - 1] == toks[i]);
        assert(forall|j: int|
            i - 1 < j < toks.drop_first().len() ==> !is_color_token_for(
                #[trigger] toks.drop_first()[j],
                to_fg,
            ));
        lemma_last_color_wins(st2, toks.drop_first(), i - 1, to_fg);
    }
}

/// LAW — corollary at the string level: when a style string parses, each
/// channel's colour is the colour of the last token that coloured it.
pub proof fn lemma_parse_last_color_wins(s: Seq<char>, i: int, to_fg: bool)
    requires
        0 <= i < tokens_of(s).len(),
        is_color_token_for(tokens_of(s)[i], to_fg),
        forall|j: int| i < j < tokens_of(s).len() ==> !is_color_token_for(tokens_of(s)[j], to_fg),
        parse_style_spec(s) is Some,
    ensures
        to_fg ==> parse_style_spec(s)->0.foreground == Some(token_color(tokens_of(s)[i])),
        !to_fg ==> parse_style_spec(s)->0.background == Some(token_color(tokens_of(s)[i])),
{
    lemma_last_color_wins(plain_style(), tokens_of(s), i, to_fg);
}

} // verus!
