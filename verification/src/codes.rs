use vstd::prelude::*;
use crate::digits::lemma_decimal_seq_u8;
use crate::sgr::is_sgr;
use crate::sgr::lemma_sgr_all_wellformed;
use crate::sgr::sgr;

verus! {

// Styles: 0-29.

/// Unset all styles and return to default text formatting.
pub const RESET: &'static str = "\x1b[0m";

/// Make the following text bold.
pub const BOLD: &'static str = "\x1b[1m";

/// Make the following text dim.
pub const DIM: &'static str = "\x1b[2m";

/// Make the following text italic.
pub const ITALIC: &'static str = "\x1b[3m";

/// Underline the following text.
pub const UNDERLINE: &'static str = "\x1b[4m";

/// Make the following text blink slowly.
pub const SLOW_BLINK: &'static str = "\x1b[5m";

/// Make the following text blink quickly. Not widely supported.
pub const RAPID_BLINK: &'static str = "\x1b[6m";

/// Swap the current foreground color and current background color for the
/// following text.
pub const INVERTED: &'static str = "\x1b[7m";

/// Hide the following text. Not widely supported.
pub const HIDDEN: &'static str = "\x1b[8m";

/// Make the following text strikethrough. Not supported everywhere.
pub const STRIKETHROUGH: &'static str = "\x1b[9m";

/// Switch to the default font.
pub const DEFAULT_FONT: &'static str = "\x1b[10m";

/// Switch to alternative font #1.
pub const ALT_FONT_1: &'static str = "\x1b[11m";

/// Switch to alternative font #2.
pub const ALT_FONT_2: &'static str = "\x1b[12m";

/// Switch to alternative font #3.
pub const ALT_FONT_3: &'static str = "\x1b[13m";

/// Switch to alternative font #4.
pub const ALT_FONT_4: &'static str = "\x1b[14m";

/// Switch to alternative font #5.
pub const ALT_FONT_5: &'static str = "\x1b[15m";

/// Switch to alternative font #6.
pub const ALT_FONT_6: &'static str = "\x1b[16m";

/// Switch to alternative font #7.
pub const ALT_FONT_7: &'static str = "\x1b[17m";

/// Switch to alternative font #8.
pub const ALT_FONT_8: &'static str = "\x1b[18m";

/// Switch to alternative font #9.
pub const ALT_FONT_9: &'static str = "\x1b[19m";

/// Switch to Fraktur font. Rarely supported.
pub const FRAKTUR: &'static str = "\x1b[20m";

/// Double-underline the following text. **WARNING:** this constant contains
/// the exact same control code as the constant `NOT_BOLD`, because different
/// terminals interpret the code to mean different things. If you use either
/// constant, be aware that your text may be rendered differently by different
/// terminals.
pub const DOUBLE_UNDERLINE: &'static str = "\x1b[21m";

/// Make the following text not bold. **WARNING:** this constant contains the
/// exact same control code as the constant `DOUBLE_UNDERLINE`, because
/// different terminals interpret the code to mean different things. If you
/// use either constant, be aware that your text may be rendered differently
/// by different terminals.
pub const NOT_BOLD: &'static str = "\x1b[21m";

/// Return to ordinary intensity (neither bold nor dim) for the following
/// text.
pub const NORMAL_INTENSITY: &'static str = "\x1b[22m";

/// Make the following text neither bold nor italic.
pub const NEITHER_BOLD_NOR_ITALIC: &'static str = "\x1b[23m";

/// Make the following text not underlined.
pub const NOT_UNDERLINED: &'static str = "\x1b[24m";

/// Make the following text not blink.
pub const NOT_BLINKING: &'static str = "\x1b[25m";

/// Use a font with proportional spacing (i.e., a non-monospace font) for the
/// following text. Rarely supported.
pub const PROPORTIONAL_SPACING: &'static str = "\x1b[26m";

/// Unswap the foreground and background colors for the following text.
pub const NOT_INVERTED: &'static str = "\x1b[27m";

/// Make the following text not hidden.
pub const NOT_HIDDEN: &'static str = "\x1b[28m";

/// Make the following text not strikethrough.
pub const NOT_STRIKETHROUGH: &'static str = "\x1b[29m";

// Foreground colors: 30-39, and the bright range 90-97.

/// Set foreground color to black for the following text.
pub const BLACK: &'static str = "\x1b[30m";

/// Set foreground color to red for the following text.
pub const RED: &'static str = "\x1b[31m";

/// Set foreground color to green for the following text.
pub const GREEN: &'static str = "\x1b[32m";

/// Set foreground color to yellow for the following text.
pub const YELLOW: &'static str = "\x1b[33m";

/// Set foreground color to blue for the following text.
pub const BLUE: &'static str = "\x1b[34m";

/// Set foreground color to magenta for the following text.
pub const MAGENTA: &'static str = "\x1b[35m";

/// Set foreground color to cyan for the following text.
pub const CYAN: &'static str = "\x1b[36m";

/// Set foreground color to white for the following text.
pub const WHITE: &'static str = "\x1b[37m";

/// Return to the default foreground color for the following text.
pub const DEFAULT: &'static str = "\x1b[39m";

/// Set the foreground color to bright black for the following text.
pub const BRIGHT_BLACK: &'static str = "\x1b[90m";

/// Set the foreground color to bright red for the following text.
pub const BRIGHT_RED: &'static str = "\x1b[91m";

/// Set the foreground color to bright green for the following text.
pub const BRIGHT_GREEN: &'static str = "\x1b[92m";

/// Set the foreground color to bright yellow for the following text.
pub const BRIGHT_YELLOW: &'static str = "\x1b[93m";

/// Set the foreground color to bright blue for the following text.
pub const BRIGHT_BLUE: &'static str = "\x1b[94m";

/// Set the foreground color to bright magenta for the following text.
pub const BRIGHT_MAGENTA: &'static str = "\x1b[95m";

/// Set the foreground color to bright cyan for the following text.
pub const BRIGHT_CYAN: &'static str = "\x1b[96m";

/// Set the foreground color to bright white for the following text.
pub const BRIGHT_WHITE: &'static str = "\x1b[97m";

// Background colors: 40-49, and the bright range 100-107.

/// Set background color to black for the following text.
pub const BLACK_BG: &'static str = "\x1b[40m";

/// Set background color to red for the following text.
pub const RED_BG: &'static str = "\x1b[41m";

/// Set background color to green for the following text.
pub const GREEN_BG: &'static str = "\x1b[42m";

/// Set background color to yellow for the following text.
pub const YELLOW_BG: &'static str = "\x1b[43m";

/// Set background color to blue for the following text.
pub const BLUE_BG: &'static str = "\x1b[44m";

/// Set background color to magenta for the following text.
pub const MAGENTA_BG: &'static str = "\x1b[45m";

/// Set background color to cyan for the following text.
pub const CYAN_BG: &'static str = "\x1b[46m";

/// Set background color to white for the following text.
pub const WHITE_BG: &'static str = "\x1b[47m";

/// Return to the default background color for the following text.
pub const DEFAULT_BG: &'static str = "\x1b[49m";

/// Set the background color to bright black for the following text.
pub const BRIGHT_BLACK_BG: &'static str = "\x1b[100m";

/// Set the background color to bright red for the following text.
pub const BRIGHT_RED_BG: &'static str = "\x1b[101m";

/// Set the background color to bright green for the following text.
pub const BRIGHT_GREEN_BG: &'static str = "\x1b[102m";

/// Set the background color to bright yellow for the following text.
pub const BRIGHT_YELLOW_BG: &'static str = "\x1b[103m";

/// Set the background color to bright blue for the following text.
pub const BRIGHT_BLUE_BG: &'static str = "\x1b[104m";

/// Set the background color to bright magenta for the following text.
pub const BRIGHT_MAGENTA_BG: &'static str = "\x1b[105m";

/// Set the background color to bright cyan for the following text.
pub const BRIGHT_CYAN_BG: &'static str = "\x1b[106m";

/// Set the background color to bright white for the following text.
pub const BRIGHT_WHITE_BG: &'static str = "\x1b[107m";

// Further styles: 50-55.

/// Return to a non-proportionally spaced font for the following text. Rarely
/// meaningful because the `PROPORTIONAL_SPACING` control code is rarely
/// supported to begin with.
pub const NO_PROPORTIONAL_SPACING: &'static str = "\x1b[50m";

/// Frame the following text.
pub const FRAMED: &'static str = "\x1b[51m";

/// Encircle the following text.
pub const ENCIRCLED: &'static str = "\x1b[52m";

/// Add an overline to the following text.
pub const OVERLINE: &'static str = "\x1b[53m";

/// Make the following text neither framed nor encircled.
pub const NEITHER_FRAMED_NOR_ENCIRCLED: &'static str = "\x1b[54m";

/// Make the following text not overlined.
pub const NOT_OVERLINED: &'static str = "\x1b[55m";

/// Each style constant is exactly the single-parameter SGR sequence for its
/// standard-defined parameter. Together with `lemma_sgr_injective`, any two
/// of them with distinct parameters are distinct strings; the one exception,
/// the dual-use parameter 21, is `lemma_dual_use_pair`.
pub proof fn lemma_style_code_values()
    ensures
        RESET@ == sgr(0),
        BOLD@ == sgr(1),
        DIM@ == sgr(2),
        ITALIC@ == sgr(3),
        UNDERLINE@ == sgr(4),
        SLOW_BLINK@ == sgr(5),
        RAPID_BLINK@ == sgr(6),
        INVERTED@ == sgr(7),
        HIDDEN@ == sgr(8),
        STRIKETHROUGH@ == sgr(9),
        DEFAULT_FONT@ == sgr(10),
        ALT_FONT_1@ == sgr(11),
        ALT_FONT_2@ == sgr(12),
        ALT_FONT_3@ == sgr(13),
        ALT_FONT_4@ == sgr(14),
        ALT_FONT_5@ == sgr(15),
        ALT_FONT_6@ == sgr(16),
        ALT_FONT_7@ == sgr(17),
        ALT_FONT_8@ == sgr(18),
        ALT_FONT_9@ == sgr(19),
        FRAKTUR@ == sgr(20),
        DOUBLE_UNDERLINE@ == sgr(21),
        NOT_BOLD@ == sgr(21),
        NORMAL_INTENSITY@ == sgr(22),
        NEITHER_BOLD_NOR_ITALIC@ == sgr(23),
        NOT_UNDERLINED@ == sgr(24),
        NOT_BLINKING@ == sgr(25),
        PROPORTIONAL_SPACING@ == sgr(26),
        NOT_INVERTED@ == sgr(27),
        NOT_HIDDEN@ == sgr(28),
        NOT_STRIKETHROUGH@ == sgr(29),
        NO_PROPORTIONAL_SPACING@ == sgr(50),
        FRAMED@ == sgr(51),
        ENCIRCLED@ == sgr(52),
        OVERLINE@ == sgr(53),
        NEITHER_FRAMED_NOR_ENCIRCLED@ == sgr(54),
        NOT_OVERLINED@ == sgr(55),
{
    reveal_strlit("\x1b[0m");
    reveal_strlit("\x1b[1m");
    reveal_strlit("\x1b[2m");
    reveal_strlit("\x1b[3m");
    reveal_strlit("\x1b[4m");
    reveal_strlit("\x1b[5m");
    reveal_strlit("\x1b[6m");
    reveal_strlit("\x1b[7m");
    reveal_strlit("\x1b[8m");
    reveal_strlit("\x1b[9m");
    reveal_strlit("\x1b[10m");
    reveal_strlit("\x1b[11m");
    reveal_strlit("\x1b[12m");
    reveal_strlit("\x1b[13m");
    reveal_strlit("\x1b[14m");
    reveal_strlit("\x1b[15m");
    reveal_strlit("\x1b[16m");
    reveal_strlit("\x1b[17m");
    reveal_strlit("\x1b[18m");
    reveal_strlit("\x1b[19m");
    reveal_strlit("\x1b[20m");
    reveal_strlit("\x1b[21m");
    reveal_strlit("\x1b[22m");
    reveal_strlit("\x1b[23m");
    reveal_strlit("\x1b[24m");
    reveal_strlit("\x1b[25m");
    reveal_strlit("\x1b[26m");
    reveal_strlit("\x1b[27m");
    reveal_strlit("\x1b[28m");
    reveal_strlit("\x1b[29m");
    reveal_strlit("\x1b[50m");
    reveal_strlit("\x1b[51m");
    reveal_strlit("\x1b[52m");
    reveal_strlit("\x1b[53m");
    reveal_strlit("\x1b[54m");
    reveal_strlit("\x1b[55m");
    lemma_decimal_seq_u8(0);
    lemma_decimal_seq_u8(1);
    lemma_decimal_seq_u8(2);
    lemma_decimal_seq_u8(3);
    lemma_decimal_seq_u8(4);
    lemma_decimal_seq_u8(5);
    lemma_decimal_seq_u8(6);
    lemma_decimal_seq_u8(7);
    lemma_decimal_seq_u8(8);
    lemma_decimal_seq_u8(9);
    lemma_decimal_seq_u8(10);
    lemma_decimal_seq_u8(11);
    lemma_decimal_seq_u8(12);
    lemma_decimal_seq_u8(13);
    lemma_decimal_seq_u8(14);
    lemma_decimal_seq_u8(15);
    lemma_decimal_seq_u8(16);
    lemma_decimal_seq_u8(17);
    lemma_decimal_seq_u8(18);
    lemma_decimal_seq_u8(19);
    lemma_decimal_seq_u8(20);
    lemma_decimal_seq_u8(21);
    lemma_decimal_seq_u8(22);
    lemma_decimal_seq_u8(23);
    lemma_decimal_seq_u8(24);
    lemma_decimal_seq_u8(25);
    lemma_decimal_seq_u8(26);
    lemma_decimal_seq_u8(27);
    lemma_decimal_seq_u8(28);
    lemma_decimal_seq_u8(29);
    lemma_decimal_seq_u8(50);
    lemma_decimal_seq_u8(51);
    lemma_decimal_seq_u8(52);
    lemma_decimal_seq_u8(53);
    lemma_decimal_seq_u8(54);
    lemma_decimal_seq_u8(55);
    assert(RESET@ =~= sgr(0));
    assert(BOLD@ =~= sgr(1));
    assert(DIM@ =~= sgr(2));
    assert(ITALIC@ =~= sgr(3));
    assert(UNDERLINE@ =~= sgr(4));
    assert(SLOW_BLINK@ =~= sgr(5));
    assert(RAPID_BLINK@ =~= sgr(6));
    assert(INVERTED@ =~= sgr(7));
    assert(HIDDEN@ =~= sgr(8));
    assert(STRIKETHROUGH@ =~= sgr(9));
    assert(DEFAULT_FONT@ =~= sgr(10));
    assert(ALT_FONT_1@ =~= sgr(11));
    assert(ALT_FONT_2@ =~= sgr(12));
    assert(ALT_FONT_3@ =~= sgr(13));
    assert(ALT_FONT_4@ =~= sgr(14));
    assert(ALT_FONT_5@ =~= sgr(15));
    assert(ALT_FONT_6@ =~= sgr(16));
    assert(ALT_FONT_7@ =~= sgr(17));
    assert(ALT_FONT_8@ =~= sgr(18));
    assert(ALT_FONT_9@ =~= sgr(19));
    assert(FRAKTUR@ =~= sgr(20));
    assert(DOUBLE_UNDERLINE@ =~= sgr(21));
    assert(NOT_BOLD@ =~= sgr(21));
    assert(NORMAL_INTENSITY@ =~= sgr(22));
    assert(NEITHER_BOLD_NOR_ITALIC@ =~= sgr(23));
    assert(NOT_UNDERLINED@ =~= sgr(24));
    assert(NOT_BLINKING@ =~= sgr(25));
    assert(PROPORTIONAL_SPACING@ =~= sgr(26));
    assert(NOT_INVERTED@ =~= sgr(27));
    assert(NOT_HIDDEN@ =~= sgr(28));
    assert(NOT_STRIKETHROUGH@ =~= sgr(29));
    assert(NO_PROPORTIONAL_SPACING@ =~= sgr(50));
    assert(FRAMED@ =~= sgr(51));
    assert(ENCIRCLED@ =~= sgr(52));
    assert(OVERLINE@ =~= sgr(53));
    assert(NEITHER_FRAMED_NOR_ENCIRCLED@ =~= sgr(54));
    assert(NOT_OVERLINED@ =~= sgr(55));
}

/// Each foreground-color constant is exactly the single-parameter SGR
/// sequence for its standard-defined parameter (30-37 standard, 39 default,
/// 90-97 bright).
pub proof fn lemma_foreground_code_values()
    ensures
        BLACK@ == sgr(30),
        RED@ == sgr(31),
        GREEN@ == sgr(32),
        YELLOW@ == sgr(33),
        BLUE@ == sgr(34),
        MAGENTA@ == sgr(35),
        CYAN@ == sgr(36),
        WHITE@ == sgr(37),
        DEFAULT@ == sgr(39),
        BRIGHT_BLACK@ == sgr(90),
        BRIGHT_RED@ == sgr(91),
        BRIGHT_GREEN@ == sgr(92),
        BRIGHT_YELLOW@ == sgr(93),
        BRIGHT_BLUE@ == sgr(94),
        BRIGHT_MAGENTA@ == sgr(95),
        BRIGHT_CYAN@ == sgr(96),
        BRIGHT_WHITE@ == sgr(97),
{
    reveal_strlit("\x1b[30m");
    reveal_strlit("\x1b[31m");
    reveal_strlit("\x1b[32m");
    reveal_strlit("\x1b[33m");
    reveal_strlit("\x1b[34m");
    reveal_strlit("\x1b[35m");
    reveal_strlit("\x1b[36m");
    reveal_strlit("\x1b[37m");
    reveal_strlit("\x1b[39m");
    reveal_strlit("\x1b[90m");
    reveal_strlit("\x1b[91m");
    reveal_strlit("\x1b[92m");
    reveal_strlit("\x1b[93m");
    reveal_strlit("\x1b[94m");
    reveal_strlit("\x1b[95m");
    reveal_strlit("\x1b[96m");
    reveal_strlit("\x1b[97m");
    lemma_decimal_seq_u8(30);
    lemma_decimal_seq_u8(31);
    lemma_decimal_seq_u8(32);
    lemma_decimal_seq_u8(33);
    lemma_decimal_seq_u8(34);
    lemma_decimal_seq_u8(35);
    lemma_decimal_seq_u8(36);
    lemma_decimal_seq_u8(37);
    lemma_decimal_seq_u8(39);
    lemma_decimal_seq_u8(90);
    lemma_decimal_seq_u8(91);
    lemma_decimal_seq_u8(92);
    lemma_decimal_seq_u8(93);
    lemma_decimal_seq_u8(94);
    lemma_decimal_seq_u8(95);
    lemma_decimal_seq_u8(96);
    lemma_decimal_seq_u8(97);
    assert(BLACK@ =~= sgr(30));
    assert(RED@ =~= sgr(31));
    assert(GREEN@ =~= sgr(32));
    assert(YELLOW@ =~= sgr(33));
    assert(BLUE@ =~= sgr(34));
    assert(MAGENTA@ =~= sgr(35));
    assert(CYAN@ =~= sgr(36));
    assert(WHITE@ =~= sgr(37));
    assert(DEFAULT@ =~= sgr(39));
    assert(BRIGHT_BLACK@ =~= sgr(90));
    assert(BRIGHT_RED@ =~= sgr(91));
    assert(BRIGHT_GREEN@ =~= sgr(92));
    assert(BRIGHT_YELLOW@ =~= sgr(93));
    assert(BRIGHT_BLUE@ =~= sgr(94));
    assert(BRIGHT_MAGENTA@ =~= sgr(95));
    assert(BRIGHT_CYAN@ =~= sgr(96));
    assert(BRIGHT_WHITE@ =~= sgr(97));
}

/// Each background-color constant is exactly the single-parameter SGR
/// sequence for its standard-defined parameter (40-47 standard, 49 default,
/// 100-107 bright).
pub proof fn lemma_background_code_values()
    ensures
        BLACK_BG@ == sgr(40),
        RED_BG@ == sgr(41),
        GREEN_BG@ == sgr(42),
        YELLOW_BG@ == sgr(43),
        BLUE_BG@ == sgr(44),
        MAGENTA_BG@ == sgr(45),
        CYAN_BG@ == sgr(46),
        WHITE_BG@ == sgr(47),
        DEFAULT_BG@ == sgr(49),
        BRIGHT_BLACK_BG@ == sgr(100),
        BRIGHT_RED_BG@ == sgr(101),
        BRIGHT_GREEN_BG@ == sgr(102),
        BRIGHT_YELLOW_BG@ == sgr(103),
        BRIGHT_BLUE_BG@ == sgr(104),
        BRIGHT_MAGENTA_BG@ == sgr(105),
        BRIGHT_CYAN_BG@ == sgr(106),
        BRIGHT_WHITE_BG@ == sgr(107),
{
    reveal_strlit("\x1b[40m");
    reveal_strlit("\x1b[41m");
    reveal_strlit("\x1b[42m");
    reveal_strlit("\x1b[43m");
    reveal_strlit("\x1b[44m");
    reveal_strlit("\x1b[45m");
    reveal_strlit("\x1b[46m");
    reveal_strlit("\x1b[47m");
    reveal_strlit("\x1b[49m");
    reveal_strlit("\x1b[100m");
    reveal_strlit("\x1b[101m");
    reveal_strlit("\x1b[102m");
    reveal_strlit("\x1b[103m");
    reveal_strlit("\x1b[104m");
    reveal_strlit("\x1b[105m");
    reveal_strlit("\x1b[106m");
    reveal_strlit("\x1b[107m");
    lemma_decimal_seq_u8(40);
    lemma_decimal_seq_u8(41);
    lemma_decimal_seq_u8(42);
    lemma_decimal_seq_u8(43);
    lemma_decimal_seq_u8(44);
    lemma_decimal_seq_u8(45);
    lemma_decimal_seq_u8(46);
    lemma_decimal_seq_u8(47);
    lemma_decimal_seq_u8(49);
    lemma_decimal_seq_u8(100);
    lemma_decimal_seq_u8(101);
    lemma_decimal_seq_u8(102);
    lemma_decimal_seq_u8(103);
    lemma_decimal_seq_u8(104);
    lemma_decimal_seq_u8(105);
    lemma_decimal_seq_u8(106);
    lemma_decimal_seq_u8(107);
    assert(BLACK_BG@ =~= sgr(40));
    assert(RED_BG@ =~= sgr(41));
    assert(GREEN_BG@ =~= sgr(42));
    assert(YELLOW_BG@ =~= sgr(43));
    assert(BLUE_BG@ =~= sgr(44));
    assert(MAGENTA_BG@ =~= sgr(45));
    assert(CYAN_BG@ =~= sgr(46));
    assert(WHITE_BG@ =~= sgr(47));
    assert(DEFAULT_BG@ =~= sgr(49));
    assert(BRIGHT_BLACK_BG@ =~= sgr(100));
    assert(BRIGHT_RED_BG@ =~= sgr(101));
    assert(BRIGHT_GREEN_BG@ =~= sgr(102));
    assert(BRIGHT_YELLOW_BG@ =~= sgr(103));
    assert(BRIGHT_BLUE_BG@ =~= sgr(104));
    assert(BRIGHT_MAGENTA_BG@ =~= sgr(105));
    assert(BRIGHT_CYAN_BG@ =~= sgr(106));
    assert(BRIGHT_WHITE_BG@ =~= sgr(107));
}

/// The documented dual-use pair: parameter 21 historically means double
/// underline on some terminals and not-bold on others, so the two constants
/// are intentionally bound to the same sequence. They are the only two
/// logically distinct codes sharing a value.
pub proof fn lemma_dual_use_pair()
    ensures
        DOUBLE_UNDERLINE@ == NOT_BOLD@,
        DOUBLE_UNDERLINE@ == sgr(21),
{
    lemma_style_code_values();
}

/// Every named constant is a well-formed SGR sequence: non-empty, beginning
/// with `ESC` `[` and ending with `m`.
pub proof fn lemma_codes_wellformed()
    ensures
        is_sgr(RESET@),
        is_sgr(BOLD@),
        is_sgr(DIM@),
        is_sgr(ITALIC@),
        is_sgr(UNDERLINE@),
        is_sgr(SLOW_BLINK@),
        is_sgr(RAPID_BLINK@),
        is_sgr(INVERTED@),
        is_sgr(HIDDEN@),
        is_sgr(STRIKETHROUGH@),
        is_sgr(DEFAULT_FONT@),
        is_sgr(ALT_FONT_1@),
        is_sgr(ALT_FONT_2@),
        is_sgr(ALT_FONT_3@),
        is_sgr(ALT_FONT_4@),
        is_sgr(ALT_FONT_5@),
        is_sgr(ALT_FONT_6@),
        is_sgr(ALT_FONT_7@),
        is_sgr(ALT_FONT_8@),
        is_sgr(ALT_FONT_9@),
        is_sgr(FRAKTUR@),
        is_sgr(DOUBLE_UNDERLINE@),
        is_sgr(NOT_BOLD@),
        is_sgr(NORMAL_INTENSITY@),
        is_sgr(NEITHER_BOLD_NOR_ITALIC@),
        is_sgr(NOT_UNDERLINED@),
        is_sgr(NOT_BLINKING@),
        is_sgr(PROPORTIONAL_SPACING@),
        is_sgr(NOT_INVERTED@),
        is_sgr(NOT_HIDDEN@),
        is_sgr(NOT_STRIKETHROUGH@),
        is_sgr(NO_PROPORTIONAL_SPACING@),
        is_sgr(FRAMED@),
        is_sgr(ENCIRCLED@),
        is_sgr(OVERLINE@),
        is_sgr(NEITHER_FRAMED_NOR_ENCIRCLED@),
        is_sgr(NOT_OVERLINED@),
        is_sgr(BLACK@),
        is_sgr(RED@),
        is_sgr(GREEN@),
        is_sgr(YELLOW@),
        is_sgr(BLUE@),
        is_sgr(MAGENTA@),
        is_sgr(CYAN@),
        is_sgr(WHITE@),
        is_sgr(DEFAULT@),
        is_sgr(BRIGHT_BLACK@),
        is_sgr(BRIGHT_RED@),
        is_sgr(BRIGHT_GREEN@),
        is_sgr(BRIGHT_YELLOW@),
        is_sgr(BRIGHT_BLUE@),
        is_sgr(BRIGHT_MAGENTA@),
        is_sgr(BRIGHT_CYAN@),
        is_sgr(BRIGHT_WHITE@),
        is_sgr(BLACK_BG@),
        is_sgr(RED_BG@),
        is_sgr(GREEN_BG@),
        is_sgr(YELLOW_BG@),
        is_sgr(BLUE_BG@),
        is_sgr(MAGENTA_BG@),
        is_sgr(CYAN_BG@),
        is_sgr(WHITE_BG@),
        is_sgr(DEFAULT_BG@),
        is_sgr(BRIGHT_BLACK_BG@),
        is_sgr(BRIGHT_RED_BG@),
        is_sgr(BRIGHT_GREEN_BG@),
        is_sgr(BRIGHT_YELLOW_BG@),
        is_sgr(BRIGHT_BLUE_BG@),
        is_sgr(BRIGHT_MAGENTA_BG@),
        is_sgr(BRIGHT_CYAN_BG@),
        is_sgr(BRIGHT_WHITE_BG@),
{
    lemma_style_code_values();
    lemma_foreground_code_values();
    lemma_background_code_values();
    lemma_sgr_all_wellformed();
}

} // verus!
