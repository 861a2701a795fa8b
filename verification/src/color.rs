use vstd::prelude::*;
use vstd::string::StringExecFns;
use crate::digits::append_decimal;
use crate::digits::decimal_seq;

verus! {

/// The sequence `ESC [ 3 8 ; 5 ; <n> m`, selecting palette color `n`
/// for the foreground.
pub open spec fn palette_fg_seq(n: u8) -> Seq<char> {
    seq!['\x1b', '[', '3', '8', ';', '5', ';'] + decimal_seq(n as nat) + seq!['m']
}

/// The sequence `ESC [ 4 8 ; 5 ; <n> m`, selecting palette color `n`
/// for the background.
pub open spec fn palette_bg_seq(n: u8) -> Seq<char> {
    seq!['\x1b', '[', '4', '8', ';', '5', ';'] + decimal_seq(n as nat) + seq!['m']
}

/// The sequence `ESC [ 3 8 ; 2 ; <r> ; <g> ; <b> m`, selecting the RGB
/// triple `(r, g, b)` for the foreground.
pub open spec fn truecolor_fg_seq(r: u8, g: u8, b: u8) -> Seq<char> {
    seq!['\x1b', '[', '3', '8', ';', '2', ';'] + decimal_seq(r as nat) + seq![';']
        + decimal_seq(g as nat) + seq![';'] + decimal_seq(b as nat) + seq!['m']
}

/// The sequence `ESC [ 4 8 ; 2 ; <r> ; <g> ; <b> m`, selecting the RGB
/// triple `(r, g, b)` for the background.
pub open spec fn truecolor_bg_seq(r: u8, g: u8, b: u8) -> Seq<char> {
    seq!['\x1b', '[', '4', '8', ';', '2', ';'] + decimal_seq(r as nat) + seq![';']
        + decimal_seq(g as nat) + seq![';'] + decimal_seq(b as nat) + seq!['m']
}

/// Set the foreground color for the following text to the *n*th color in the
/// 256-color palette. Commonly, the set of 256 available colors consists of
/// the 8 named foreground colors, the 8 bright versions of these colors, a
/// 6×6×6 RGB cube (for a total of 216 colors distributed evenly across
/// RGB-space), and then a scale of 24 shades of gray. Different terminals may
/// differ in what colors they provide here.
pub fn color_256(n: u8) -> (r: String)
    ensures
        r@ == palette_fg_seq(n),
{
    let mut s = String::new();
    s.append("\x1b[38;5;");
    append_decimal(&mut s, n);
    s.append("m");
    proof {
        reveal_strlit("\x1b[38;5;");
        reveal_strlit("m");
        assert(s@ =~= palette_fg_seq(n));
    }
    s
}

/// Set the background color for the following text to the *n*th color in the
/// 256-color palette. Commonly, the set of 256 available colors consists of
/// the 8 named background colors, the 8 bright versions of these colors, a
/// 6×6×6 RGB cube (for a total of 216 colors distributed evenly across
/// RGB-space), and then a scale of 24 shades of gray. Different terminals may
/// differ in what colors they provide here.
pub fn color_256_bg(n: u8) -> (r: String)
    ensures
        r@ == palette_bg_seq(n),
{
    let mut s = String::new();
    s.append("\x1b[48;5;");
    append_decimal(&mut s, n);
    s.append("m");
    proof {
        reveal_strlit("\x1b[48;5;");
        reveal_strlit("m");
        assert(s@ =~= palette_bg_seq(n));
    }
    s
}

/// Set the foreground color to the RGB value (r, g, b). Not supported on all
/// terminals. Terminals which do support this feature are called "truecolor
/// terminals".
pub fn truecolor(r: u8, g: u8, b: u8) -> (ret: String)
    ensures
        ret@ == truecolor_fg_seq(r, g, b),
{
    let mut s = String::new();
    s.append("\x1b[38;2;");
    append_decimal(&mut s, r);
    s.append(";");
    append_decimal(&mut s, g);
    s.append(";");
    append_decimal(&mut s, b);
    s.append("m");
    proof {
        reveal_strlit("\x1b[38;2;");
        reveal_strlit(";");
        reveal_strlit("m");
        assert(s@ =~= truecolor_fg_seq(r, g, b));
    }
    s
}

/// Set the background color to the RGB value (r, g, b). Not supported on all
/// terminals. Terminals which do support this feature are called "truecolor
/// terminals".
pub fn truecolor_bg(r: u8, g: u8, b: u8) -> (ret: String)
    ensures
        ret@ == truecolor_bg_seq(r, g, b),
{
    let mut s = String::new();
    s.append("\x1b[48;2;");
    append_decimal(&mut s, r);
    s.append(";");
    append_decimal(&mut s, g);
    s.append(";");
    append_decimal(&mut s, b);
    s.append("m");
    proof {
        reveal_strlit("\x1b[48;2;");
        reveal_strlit(";");
        reveal_strlit("m");
        assert(s@ =~= truecolor_bg_seq(r, g, b));
    }
    s
}

/// The palette and truecolor formatters are referentially transparent: the
/// contract of each pins its result as a function of the numeric arguments
/// alone, so any two calls with identical inputs yield identical strings.
pub proof fn lemma_color_256_deterministic(n: u8, s1: Seq<char>, s2: Seq<char>)
    requires
        s1 == palette_fg_seq(n),
        s2 == palette_fg_seq(n),
    ensures
        s1 == s2,
{
}

/// Two background-palette calls with the same index yield the same string.
pub proof fn lemma_color_256_bg_deterministic(n: u8, s1: Seq<char>, s2: Seq<char>)
    requires
        s1 == palette_bg_seq(n),
        s2 == palette_bg_seq(n),
    ensures
        s1 == s2,
{
}

/// Two truecolor foreground calls with the same triple yield the same string.
pub proof fn lemma_truecolor_deterministic(r: u8, g: u8, b: u8, s1: Seq<char>, s2: Seq<char>)
    requires
        s1 == truecolor_fg_seq(r, g, b),
        s2 == truecolor_fg_seq(r, g, b),
    ensures
        s1 == s2,
{
}

/// Two truecolor background calls with the same triple yield the same string.
pub proof fn lemma_truecolor_bg_deterministic(r: u8, g: u8, b: u8, s1: Seq<char>, s2: Seq<char>)
    requires
        s1 == truecolor_bg_seq(r, g, b),
        s2 == truecolor_bg_seq(r, g, b),
    ensures
        s1 == s2,
{
}

} // verus!
