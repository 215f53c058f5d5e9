use crossterm_input::mouse::{DisableMouseCapture, EnableMouseCapture};

#[test]
fn enable_mouse_capture_sequence() {
    assert_eq!(
        EnableMouseCapture.ansi_code(),
        "\x1B[?1000h\x1B[?1002h\x1B[?1015h\x1B[?1006h"
    );
}

#[test]
fn disable_mouse_capture_sequence() {
    assert_eq!(
        DisableMouseCapture.ansi_code(),
        "\x1B[?1006l\x1B[?1015l\x1B[?1002l\x1B[?1000l"
    );
}

#[test]
fn disable_undoes_enable_in_reverse() {
    let on = EnableMouseCapture.ansi_code();
    let off = DisableMouseCapture.ansi_code();
    let on_modes: Vec<&str> = on.split('\x1B').filter(|s| !s.is_empty()).map(|s| &s[2..6]).collect();
    let mut off_modes: Vec<&str> = off.split('\x1B').filter(|s| !s.is_empty()).map(|s| &s[2..6]).collect();
    off_modes.reverse();
    assert_eq!(on_modes, off_modes);
    assert!(on.split('\x1B').filter(|s| !s.is_empty()).all(|s| s.ends_with('h')));
    assert!(off.split('\x1B').filter(|s| !s.is_empty()).all(|s| s.ends_with('l')));
}

#[test]
fn disable_names_the_same_modes_as_enable() {
    let on = EnableMouseCapture.ansi_code();
    let off = DisableMouseCapture.ansi_code();
    let mut on_modes: Vec<String> = on.split('\x1B').filter(|s| !s.is_empty()).map(|s| s[2..6].to_string()).collect();
    let mut off_modes: Vec<String> = off.split('\x1B').filter(|s| !s.is_empty()).map(|s| s[2..6].to_string()).collect();
    on_modes.sort();
    off_modes.sort();
    assert_eq!(on_modes, off_modes);
}
