//! Constants and simple functions for invoking ANSI control codes used for
//! text styling in terminals, including color codes. No support for cursor
//! movement or any other control codes.
//!
//! Every value this crate produces is one complete SGR (Select Graphic
//! Rendition) escape sequence: the byte `ESC` (0x1b), `[`, decimal parameter
//! fields separated by `;`, and the terminating letter `m`. The named
//! constants (such as `BOLD` or `GREEN`) are fixed sequences; the four
//! functions `color_256`, `color_256_bg`, `truecolor` and `truecolor_bg`
//! build the parameterized palette and truecolor sequences.
//!
//! The crate performs no output itself: callers interleave these strings with
//! their own text on whatever stream they own. After styled text, print
//! `RESET` (or a more specific resetting code such as `NOT_UNDERLINED`), or
//! the styling leaks into all following output.
//!
//! Not every terminal supports every code; emitting an unsupported code may
//! be ignored or mis-rendered by the terminal, which no library can fix.

pub mod codes;
pub mod color;
pub mod digits;
pub mod sgr;

pub use color::color_256;
pub use color::color_256_bg;
pub use color::truecolor;
pub use color::truecolor_bg;

pub use codes::ALT_FONT_1;
pub use codes::ALT_FONT_2;
pub use codes::ALT_FONT_3;
pub use codes::ALT_FONT_4;
pub use codes::ALT_FONT_5;
pub use codes::ALT_FONT_6;
pub use codes::ALT_FONT_7;
pub use codes::ALT_FONT_8;
pub use codes::ALT_FONT_9;
pub use codes::BLACK;
pub use codes::BLACK_BG;
pub use codes::BLUE;
pub use codes::BLUE_BG;
pub use codes::BOLD;
pub use codes::BRIGHT_BLACK;
pub use codes::BRIGHT_BLACK_BG;
pub use codes::BRIGHT_BLUE;
pub use codes::BRIGHT_BLUE_BG;
pub use codes::BRIGHT_CYAN;
pub use codes::BRIGHT_CYAN_BG;
pub use codes::BRIGHT_GREEN;
pub use codes::BRIGHT_GREEN_BG;
pub use codes::BRIGHT_MAGENTA;
pub use codes::BRIGHT_MAGENTA_BG;
pub use codes::BRIGHT_RED;
pub use codes::BRIGHT_RED_BG;
pub use codes::BRIGHT_WHITE;
pub use codes::BRIGHT_WHITE_BG;
pub use codes::BRIGHT_YELLOW;
pub use codes::BRIGHT_YELLOW_BG;
pub use codes::CYAN;
pub use codes::CYAN_BG;
pub use codes::DEFAULT;
pub use codes::DEFAULT_BG;
pub use codes::DEFAULT_FONT;
pub use codes::DIM;
pub use codes::DOUBLE_UNDERLINE;
pub use codes::ENCIRCLED;
pub use codes::FRAKTUR;
pub use codes::FRAMED;
pub use codes::GREEN;
pub use codes::GREEN_BG;
pub use codes::HIDDEN;
pub use codes::INVERTED;
pub use codes::ITALIC;
pub use codes::MAGENTA;
pub use codes::MAGENTA_BG;
pub use codes::NEITHER_BOLD_NOR_ITALIC;
pub use codes::NEITHER_FRAMED_NOR_ENCIRCLED;
pub use codes::NORMAL_INTENSITY;
pub use codes::NOT_BLINKING;
pub use codes::NOT_BOLD;
pub use codes::NOT_HIDDEN;
pub use codes::NOT_INVERTED;
pub use codes::NOT_OVERLINED;
pub use codes::NOT_STRIKETHROUGH;
pub use codes::NOT_UNDERLINED;
pub use codes::NO_PROPORTIONAL_SPACING;
pub use codes::OVERLINE;
pub use codes::PROPORTIONAL_SPACING;
pub use codes::RAPID_BLINK;
pub use codes::RED;
pub use codes::RED_BG;
pub use codes::RESET;
pub use codes::SLOW_BLINK;
pub use codes::STRIKETHROUGH;
pub use codes::UNDERLINE;
pub use codes::WHITE;
pub use codes::WHITE_BG;
pub use codes::YELLOW;
pub use codes::YELLOW_BG;
