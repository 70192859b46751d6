use awake::click::is_menu_click;
use awake::clock::now_secs;
use awake::mode::{AssertionKind, Icon, PreventionMode};

#[test]
fn right_button_and_control_click_open_the_menu() {
    assert!(is_menu_click(3, 0));
    assert!(is_menu_click(4, 0));
    assert!(is_menu_click(1, 0x40000));
    assert!(is_menu_click(2, 0x40000 | 0x20000));
}

#[test]
fn plain_left_click_toggles() {
    assert!(!is_menu_click(1, 0));
    assert!(!is_menu_click(2, 0));
    assert!(!is_menu_click(2, 0x20000));
}

#[test]
fn assertion_type_strings() {
    assert_eq!(AssertionKind::DisplaySleep.assertion_type(), "PreventUserIdleDisplaySleep");
    assert_eq!(AssertionKind::SystemSleep.assertion_type(), "PreventUserIdleSystemSleep");
}

#[test]
fn mode_kinds_and_menu_positions() {
    assert_eq!(PreventionMode::DisplayOnly.assertion_kinds(), vec![AssertionKind::DisplaySleep]);
    assert_eq!(PreventionMode::SystemOnly.assertion_kinds(), vec![AssertionKind::SystemSleep]);
    assert_eq!(
        PreventionMode::Both.assertion_kinds(),
        vec![AssertionKind::DisplaySleep, AssertionKind::SystemSleep]
    );
    assert_eq!(PreventionMode::DisplayOnly.menu_index(), 0);
    assert_eq!(PreventionMode::SystemOnly.menu_index(), 1);
    assert_eq!(PreventionMode::Both.menu_index(), 2);
}

#[test]
fn icon_symbols() {
    assert_eq!(Icon::Asleep.symbol_name(), "moon.zzz.fill");
    assert_eq!(Icon::Awake.symbol_name(), "cup.and.saucer.fill");
}

#[test]
fn clock_reads_after_the_epoch() {
    let a = now_secs();
    assert!(a > 1_600_000_000);
    assert!(now_secs() >= a);
}
