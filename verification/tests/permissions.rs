use ios_local_notification::permission::{
    ALERT, BADGE, CARPLAY, CRITICAL_ALERT, PROVISIONAL, SOUND,
};
use ios_local_notification::{request_permission, request_permission_default, Command};

#[test]
fn flags_have_their_values() {
    assert_eq!(ALERT, 1);
    assert_eq!(SOUND, 2);
    assert_eq!(BADGE, 4);
    assert_eq!(CARPLAY, 8);
    assert_eq!(CRITICAL_ALERT, 16);
    assert_eq!(PROVISIONAL, 32);
}

#[test]
fn flags_are_single_distinct_bits() {
    let flags = [ALERT, SOUND, BADGE, CARPLAY, CRITICAL_ALERT, PROVISIONAL];
    for (i, a) in flags.iter().enumerate() {
        assert_eq!(a.count_ones(), 1);
        for b in flags.iter().skip(i + 1) {
            assert_eq!(a & b, 0);
        }
    }
}

#[test]
fn flags_combine_with_or() {
    assert_eq!(ALERT | SOUND, 3);
    assert_eq!(ALERT | SOUND | BADGE, 7);
    assert_eq!(
        ALERT | SOUND | BADGE | CARPLAY | CRITICAL_ALERT | PROVISIONAL,
        63
    );
}

#[test]
fn request_permission_default_is_its_own_command() {
    assert_eq!(
        request_permission_default(),
        Command::RequestPermissionDefault
    );
    assert_ne!(
        request_permission_default(),
        request_permission(ALERT | SOUND | BADGE)
    );
}

#[test]
fn request_permission_passes_options_on() {
    assert_eq!(
        request_permission(ALERT | SOUND),
        Command::RequestPermission { options: 3 }
    );
    assert_eq!(
        request_permission(PROVISIONAL),
        Command::RequestPermission { options: 32 }
    );
}

#[test]
fn request_permission_does_not_validate_options() {
    assert_eq!(
        request_permission(0),
        Command::RequestPermission { options: 0 }
    );
    assert_eq!(
        request_permission(64),
        Command::RequestPermission { options: 64 }
    );
    assert_eq!(
        request_permission(-1),
        Command::RequestPermission { options: -1 }
    );
    assert_eq!(
        request_permission(i32::MAX),
        Command::RequestPermission { options: i32::MAX }
    );
    assert_eq!(
        request_permission(i32::MIN),
        Command::RequestPermission { options: i32::MIN }
    );
}
