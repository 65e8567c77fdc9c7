//! The progress spinner.

use waldur_cli::progress::{debug_enabled, set_debug, ProgressSettings, Spinner};

#[test]
fn debug_flag_round_trips() {
    let mut s = ProgressSettings::new();
    assert!(!debug_enabled(&s));
    set_debug(&mut s, true);
    assert!(debug_enabled(&s));
}

#[test]
fn a_spinner_draws_only_on_a_terminal_without_debug() {
    let quiet = ProgressSettings::new();
    let mut on_pipe = Spinner::new("Waiting", false, &quiet);
    assert_eq!(on_pipe.tick(3, "x"), None);
    assert_eq!(on_pipe.clear(), None);
    let mut debug = ProgressSettings::new();
    set_debug(&mut debug, true);
    let mut under_debug = Spinner::new("Waiting", true, &debug);
    assert_eq!(under_debug.tick(3, "x"), None);
}

#[test]
fn frames_cycle_and_show_elapsed_time_and_state() {
    let s = ProgressSettings::new();
    let mut spinner = Spinner::new("Provisioning", true, &s);
    assert_eq!(spinner.tick(42, "executing").unwrap(), "\r\x1b[2K⠋ Provisioning… 42s (executing)");
    assert!(spinner.tick(42, "executing").unwrap().contains("⠙"));
    for _ in 0..8 {
        spinner.tick(0, "");
    }
    assert!(spinner.tick(0, "").unwrap().contains("⠋"));
    assert_eq!(spinner.clear().unwrap(), "\r\x1b[2K");
}
