use xege::Init;
use xege::InitGuard;
use xege::XEGEError;

#[test]
fn init_exclusivity_scenario() {
    let mut guard = InitGuard::new();
    assert_eq!(guard.try_acquire(), Ok(()));
    assert_eq!(guard.try_acquire(), Err(XEGEError::Initialized));
    guard.release();
    assert_eq!(guard.try_acquire(), Ok(()));
}

#[test]
fn init_error_message() {
    assert_eq!(
        XEGEError::Initialized.message(),
        "XEGE is already initialized."
    );
}

#[test]
fn init_mode_bits() {
    assert_eq!(Init::default_mode().bits, 0);
    assert_eq!(Init::no_border().bits, 1);
    assert_eq!(Init::child().bits, 2);
    assert_eq!(Init::top_most().bits, 4);
    assert_eq!(Init::render_manual().bits, 8);
    assert_eq!(Init::no_force_exit().bits, 16);
    assert_eq!(Init::hidden().bits, 64);
    assert_eq!(Init::with_logo().bits, 256);
    assert_eq!(Init::animation().bits, 24);
}

#[test]
fn init_mode_combination() {
    let mode = Init::top_most().or(Init::hidden());
    assert_eq!(mode.bits, 68);
    assert!(mode.contains(Init::top_most()));
    assert!(mode.contains(Init::hidden()));
    assert!(!mode.contains(Init::child()));
}

#[test]
fn native_mode_always_has_unicode_flag() {
    assert_eq!(Init::default_mode().native_mode(), 32);
    assert_eq!(Init::animation().native_mode(), 24 | 32);
}
