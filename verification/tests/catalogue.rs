use flower_pot::ALT_FONT_1;
use flower_pot::ALT_FONT_2;
use flower_pot::ALT_FONT_3;
use flower_pot::ALT_FONT_4;
use flower_pot::ALT_FONT_5;
use flower_pot::ALT_FONT_6;
use flower_pot::ALT_FONT_7;
use flower_pot::ALT_FONT_8;
use flower_pot::ALT_FONT_9;
use flower_pot::BLACK;
use flower_pot::BLACK_BG;
use flower_pot::BLUE;
use flower_pot::BLUE_BG;
use flower_pot::BOLD;
use flower_pot::BRIGHT_BLACK;
use flower_pot::BRIGHT_BLACK_BG;
use flower_pot::BRIGHT_BLUE;
use flower_pot::BRIGHT_BLUE_BG;
use flower_pot::BRIGHT_CYAN;
use flower_pot::BRIGHT_CYAN_BG;
use flower_pot::BRIGHT_GREEN;
use flower_pot::BRIGHT_GREEN_BG;
use flower_pot::BRIGHT_MAGENTA;
use flower_pot::BRIGHT_MAGENTA_BG;
use flower_pot::BRIGHT_RED;
use flower_pot::BRIGHT_RED_BG;
use flower_pot::BRIGHT_WHITE;
use flower_pot::BRIGHT_WHITE_BG;
use flower_pot::BRIGHT_YELLOW;
use flower_pot::BRIGHT_YELLOW_BG;
use flower_pot::CYAN;
use flower_pot::CYAN_BG;
use flower_pot::DEFAULT;
use flower_pot::DEFAULT_BG;
use flower_pot::DEFAULT_FONT;
use flower_pot::DIM;
use flower_pot::DOUBLE_UNDERLINE;
use flower_pot::ENCIRCLED;
use flower_pot::FRAKTUR;
use flower_pot::FRAMED;
use flower_pot::GREEN;
use flower_pot::GREEN_BG;
use flower_pot::HIDDEN;
use flower_pot::INVERTED;
use flower_pot::ITALIC;
use flower_pot::MAGENTA;
use flower_pot::MAGENTA_BG;
use flower_pot::NEITHER_BOLD_NOR_ITALIC;
use flower_pot::NEITHER_FRAMED_NOR_ENCIRCLED;
use flower_pot::NORMAL_INTENSITY;
use flower_pot::NOT_BLINKING;
use flower_pot::NOT_BOLD;
use flower_pot::NOT_HIDDEN;
use flower_pot::NOT_INVERTED;
use flower_pot::NOT_OVERLINED;
use flower_pot::NOT_STRIKETHROUGH;
use flower_pot::NOT_UNDERLINED;
use flower_pot::NO_PROPORTIONAL_SPACING;
use flower_pot::OVERLINE;
use flower_pot::PROPORTIONAL_SPACING;
use flower_pot::RAPID_BLINK;
use flower_pot::RED;
use flower_pot::RED_BG;
use flower_pot::RESET;
use flower_pot::SLOW_BLINK;
use flower_pot::STRIKETHROUGH;
use flower_pot::UNDERLINE;
use flower_pot::WHITE;
use flower_pot::WHITE_BG;
use flower_pot::YELLOW;
use flower_pot::YELLOW_BG;

fn all_constants() -> Vec<(&'static str, &'static str)> {
    vec![
        ("RESET", RESET),
        ("BOLD", BOLD),
        ("DIM", DIM),
        ("ITALIC", ITALIC),
        ("UNDERLINE", UNDERLINE),
        ("SLOW_BLINK", SLOW_BLINK),
        ("RAPID_BLINK", RAPID_BLINK),
        ("INVERTED", INVERTED),
        ("HIDDEN", HIDDEN),
        ("STRIKETHROUGH", STRIKETHROUGH),
        ("DEFAULT_FONT", DEFAULT_FONT),
        ("ALT_FONT_1", ALT_FONT_1),
        ("ALT_FONT_2", ALT_FONT_2),
        ("ALT_FONT_3", ALT_FONT_3),
        ("ALT_FONT_4", ALT_FONT_4),
        ("ALT_FONT_5", ALT_FONT_5),
        ("ALT_FONT_6", ALT_FONT_6),
        ("ALT_FONT_7", ALT_FONT_7),
        ("ALT_FONT_8", ALT_FONT_8),
        ("ALT_FONT_9", ALT_FONT_9),
        ("FRAKTUR", FRAKTUR),
        ("DOUBLE_UNDERLINE", DOUBLE_UNDERLINE),
        ("NOT_BOLD", NOT_BOLD),
        ("NORMAL_INTENSITY", NORMAL_INTENSITY),
        ("NEITHER_BOLD_NOR_ITALIC", NEITHER_BOLD_NOR_ITALIC),
        ("NOT_UNDERLINED", NOT_UNDERLINED),
        ("NOT_BLINKING", NOT_BLINKING),
        ("PROPORTIONAL_SPACING", PROPORTIONAL_SPACING),
        ("NOT_INVERTED", NOT_INVERTED),
        ("NOT_HIDDEN", NOT_HIDDEN),
        ("NOT_STRIKETHROUGH", NOT_STRIKETHROUGH),
        ("BLACK", BLACK),
        ("RED", RED),
        ("GREEN", GREEN),
        ("YELLOW", YELLOW),
        ("BLUE", BLUE),
        ("MAGENTA", MAGENTA),
        ("CYAN", CYAN),
        ("WHITE", WHITE),
        ("DEFAULT", DEFAULT),
        ("BLACK_BG", BLACK_BG),
        ("RED_BG", RED_BG),
        ("GREEN_BG", GREEN_BG),
        ("YELLOW_BG", YELLOW_BG),
        ("BLUE_BG", BLUE_BG),
        ("MAGENTA_BG", MAGENTA_BG),
        ("CYAN_BG", CYAN_BG),
        ("WHITE_BG", WHITE_BG),
        ("DEFAULT_BG", DEFAULT_BG),
        ("NO_PROPORTIONAL_SPACING", NO_PROPORTIONAL_SPACING),
        ("FRAMED", FRAMED),
        ("ENCIRCLED", ENCIRCLED),
        ("OVERLINE", OVERLINE),
        ("NEITHER_FRAMED_NOR_ENCIRCLED", NEITHER_FRAMED_NOR_ENCIRCLED),
        ("NOT_OVERLINED", NOT_OVERLINED),
        ("BRIGHT_BLACK", BRIGHT_BLACK),
        ("BRIGHT_RED", BRIGHT_RED),
        ("BRIGHT_GREEN", BRIGHT_GREEN),
        ("BRIGHT_YELLOW", BRIGHT_YELLOW),
        ("BRIGHT_BLUE", BRIGHT_BLUE),
        ("BRIGHT_MAGENTA", BRIGHT_MAGENTA),
        ("BRIGHT_CYAN", BRIGHT_CYAN),
        ("BRIGHT_WHITE", BRIGHT_WHITE),
        ("BRIGHT_BLACK_BG", BRIGHT_BLACK_BG),
        ("BRIGHT_RED_BG", BRIGHT_RED_BG),
        ("BRIGHT_GREEN_BG", BRIGHT_GREEN_BG),
        ("BRIGHT_YELLOW_BG", BRIGHT_YELLOW_BG),
        ("BRIGHT_BLUE_BG", BRIGHT_BLUE_BG),
        ("BRIGHT_MAGENTA_BG", BRIGHT_MAGENTA_BG),
        ("BRIGHT_CYAN_BG", BRIGHT_CYAN_BG),
        ("BRIGHT_WHITE_BG", BRIGHT_WHITE_BG),
    ]
}

#[test]
fn constants_are_wellformed_sgr_sequences() {
    for (name, value) in all_constants() {
        assert!(!value.is_empty(), "{} is empty", name);
        assert!(value.starts_with("\x1b["), "{} does not start with ESC [", name);
        assert!(value.ends_with('m'), "{} does not end with m", name);
    }
}

#[test]
fn constants_are_distinct_except_dual_use_pair() {
    let consts = all_constants();
    for (i, &(name_a, value_a)) in consts.iter().enumerate() {
        for &(name_b, value_b) in consts.iter().skip(i + 1) {
            let dual_pair = (name_a == "DOUBLE_UNDERLINE" && name_b == "NOT_BOLD")
                || (name_a == "NOT_BOLD" && name_b == "DOUBLE_UNDERLINE");
            if dual_pair {
                assert_eq!(value_a, value_b, "the parameter-21 pair must share a value");
            } else {
                assert_ne!(value_a, value_b, "{} and {} share a value", name_a, name_b);
            }
        }
    }
}

#[test]
fn selected_constant_values() {
    assert_eq!(RESET, "\x1b[0m");
    assert_eq!(BOLD, "\x1b[1m");
    assert_eq!(DOUBLE_UNDERLINE, "\x1b[21m");
    assert_eq!(NOT_BOLD, "\x1b[21m");
    assert_eq!(NOT_STRIKETHROUGH, "\x1b[29m");
    assert_eq!(BLACK, "\x1b[30m");
    assert_eq!(WHITE, "\x1b[37m");
    assert_eq!(DEFAULT, "\x1b[39m");
    assert_eq!(BLACK_BG, "\x1b[40m");
    assert_eq!(WHITE_BG, "\x1b[47m");
    assert_eq!(DEFAULT_BG, "\x1b[49m");
    assert_eq!(NOT_OVERLINED, "\x1b[55m");
    assert_eq!(BRIGHT_BLACK, "\x1b[90m");
    assert_eq!(BRIGHT_WHITE, "\x1b[97m");
    assert_eq!(BRIGHT_BLACK_BG, "\x1b[100m");
    assert_eq!(BRIGHT_WHITE_BG, "\x1b[107m");
}
