use flower_pot::color_256;
use flower_pot::color_256_bg;
use flower_pot::truecolor;
use flower_pot::truecolor_bg;

#[test]
fn palette_foreground_all_indices() {
    for n in 0..=255u8 {
        assert_eq!(color_256(n), format!("\x1b[38;5;{}m", n));
    }
}

#[test]
fn palette_background_all_indices() {
    for n in 0..=255u8 {
        assert_eq!(color_256_bg(n), format!("\x1b[48;5;{}m", n));
    }
}

#[test]
fn truecolor_foreground_sample_grid() {
    let edges: [u8; 8] = [0, 1, 9, 10, 99, 100, 254, 255];
    for &r in edges.iter() {
        for &g in edges.iter() {
            for &b in edges.iter() {
                assert_eq!(truecolor(r, g, b), format!("\x1b[38;2;{};{};{}m", r, g, b));
            }
        }
    }
}

#[test]
fn truecolor_background_sample_grid() {
    let edges: [u8; 8] = [0, 1, 9, 10, 99, 100, 254, 255];
    for &r in edges.iter() {
        for &g in edges.iter() {
            for &b in edges.iter() {
                assert_eq!(truecolor_bg(r, g, b), format!("\x1b[48;2;{};{};{}m", r, g, b));
            }
        }
    }
}

#[test]
fn no_leading_zeros_or_separators() {
    assert_eq!(color_256(0), "\x1b[38;5;0m");
    assert_eq!(color_256(7), "\x1b[38;5;7m");
    assert_eq!(color_256(10), "\x1b[38;5;10m");
    assert_eq!(color_256(99), "\x1b[38;5;99m");
    assert_eq!(color_256(100), "\x1b[38;5;100m");
    assert_eq!(color_256_bg(255), "\x1b[48;5;255m");
    assert_eq!(truecolor(0, 10, 200), "\x1b[38;2;0;10;200m");
    assert_eq!(truecolor_bg(205, 0, 3), "\x1b[48;2;205;0;3m");
}

#[test]
fn concrete_scenarios() {
    assert_eq!(color_256(232), "\x1b[38;5;232m");
    assert_eq!(truecolor_bg(0, 255, 255), "\x1b[48;2;0;255;255m");
    assert_eq!(flower_pot::BOLD, "\x1b[1m");
    assert_eq!(flower_pot::RESET, "\x1b[0m");
    assert_eq!(flower_pot::BRIGHT_CYAN_BG, "\x1b[106m");
}

#[test]
fn repeated_calls_yield_identical_strings() {
    assert_eq!(color_256(214), color_256(214));
    assert_eq!(color_256_bg(0), color_256_bg(0));
    assert_eq!(truecolor(127, 45, 68), truecolor(127, 45, 68));
    assert_eq!(truecolor_bg(255, 255, 255), truecolor_bg(255, 255, 255));
    // Interleaved calls do not disturb one another: no hidden state exists.
    let a = color_256(17);
    let _ = truecolor(1, 2, 3);
    let _ = color_256_bg(200);
    let b = color_256(17);
    assert_eq!(a, b);
}
