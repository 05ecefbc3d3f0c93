use steam_bridge::input::{
    first_nul, get_controllers, Controller, InputActionOrigins, InputType, KeyboardInputKind, VibrateSide,
};
use steam_bridge::origins::{origins_from_codes, COUNT_CODE, LAST_ORIGIN_CODE};
use steam_bridge::utils::FloatingGamepadTextInputMode;

#[test]
fn zero_handles_name_no_controller() {
    let controllers = get_controllers(vec![0, 7, 0, 0, 9, 7, 0]);
    let handles: Vec<u64> = controllers.iter().map(|c| c.get_handle()).collect();
    assert_eq!(handles, vec![7, 9, 7]);
}

#[test]
fn no_handles_no_controllers() {
    assert!(get_controllers(Vec::new()).is_empty());
    assert!(get_controllers(vec![0; 16]).is_empty());
}

#[test]
fn all_handles_kept_in_order() {
    let controllers = get_controllers(vec![u64::MAX, 1, 2]);
    let handles: Vec<u64> = controllers.iter().map(|c| c.get_handle()).collect();
    assert_eq!(handles, vec![u64::MAX, 1, 2]);
}

#[test]
fn action_set_is_activated_when_it_is_the_current_one() {
    assert!(Controller::action_set_activated(4, 4));
    assert!(!Controller::action_set_activated(4, 5));
    assert!(Controller::action_set_activated(0, 0));
}

#[test]
fn keyboard_kinds_map_to_floating_modes() {
    assert_eq!(KeyboardInputKind::SingleLine.floating_mode(), FloatingGamepadTextInputMode::SingleLine);
    assert_eq!(
        KeyboardInputKind::MultiLine.floating_mode(),
        FloatingGamepadTextInputMode::MultipleLines
    );
    assert_eq!(KeyboardInputKind::Email.floating_mode(), FloatingGamepadTextInputMode::Email);
    assert_eq!(KeyboardInputKind::Numeric.floating_mode(), FloatingGamepadTextInputMode::Numeric);
}

#[test]
fn enumerations_compare_by_variant() {
    assert_eq!(InputType::PS5Controller, InputType::PS5Controller);
    assert_ne!(InputType::PS4Controller, InputType::PS5Controller);
    assert_ne!(VibrateSide::Left, VibrateSide::Right);
}

#[test]
fn origin_codes() {
    assert_eq!(InputActionOrigins::NoOrigin.code(), 0);
    assert_eq!(InputActionOrigins::SteamControllerA.code(), 1);
    assert_eq!(InputActionOrigins::SteamControllerStart.code(), 9);
    assert_eq!(InputActionOrigins::SteamDeckReserved20.code(), 405);
    assert_eq!(InputActionOrigins::HoripadM1.code(), 406);
    assert_eq!(InputActionOrigins::HoripadR4.code(), 409);
    assert_eq!(InputActionOrigins::Count.code(), 410);
    assert_eq!(InputActionOrigins::MaximumPossibleValue.code(), 32767);
    assert_eq!(LAST_ORIGIN_CODE, 409);
    assert_eq!(COUNT_CODE, 410);
}

#[test]
fn origin_from_code_in_range() {
    assert_eq!(InputActionOrigins::from_code(0), InputActionOrigins::NoOrigin);
    assert_eq!(InputActionOrigins::from_code(1), InputActionOrigins::SteamControllerA);
    assert_eq!(InputActionOrigins::from_code(408), InputActionOrigins::HoripadL4);
    assert_eq!(InputActionOrigins::from_code(409), InputActionOrigins::HoripadR4);
}

#[test]
fn origin_from_code_out_of_range_is_count() {
    assert_eq!(InputActionOrigins::from_code(410), InputActionOrigins::Count);
    assert_eq!(InputActionOrigins::from_code(411), InputActionOrigins::Count);
    assert_eq!(InputActionOrigins::from_code(32767), InputActionOrigins::Count);
    assert_eq!(InputActionOrigins::from_code(-1), InputActionOrigins::Count);
    assert_eq!(InputActionOrigins::from_code(i32::MIN), InputActionOrigins::Count);
    assert_eq!(InputActionOrigins::from_code(i32::MAX), InputActionOrigins::Count);
}

#[test]
fn every_code_in_range_round_trips() {
    let mut code = 0;
    while code <= 409 {
        let origin = InputActionOrigins::from_code(code);
        assert_eq!(origin.code(), code);
        assert_eq!(origin.native_code(), code);
        code += 1;
    }
}

#[test]
fn native_code_of_origins_that_name_no_control_is_count() {
    assert_eq!(InputActionOrigins::Count.native_code(), 410);
    assert_eq!(InputActionOrigins::MaximumPossibleValue.native_code(), 410);
    assert_eq!(InputActionOrigins::NoOrigin.native_code(), 0);
    assert_eq!(InputActionOrigins::HoripadR4.native_code(), 409);
}

#[test]
fn origins_from_codes_converts_each() {
    let origins = origins_from_codes(&vec![2, 500, 0, -3, 409]);
    assert_eq!(
        origins,
        vec![
            InputActionOrigins::SteamControllerB,
            InputActionOrigins::Count,
            InputActionOrigins::NoOrigin,
            InputActionOrigins::Count,
            InputActionOrigins::HoripadR4
        ]
    );
    assert!(origins_from_codes(&Vec::new()).is_empty());
}

#[test]
fn path_without_nul_has_no_first_nul() {
    assert_eq!(first_nul(""), None);
    assert_eq!(first_nul("/home/deck/actions.vdf"), None);
    assert_eq!(first_nul("C:\\games\\manifest.vdf"), None);
}

#[test]
fn first_nul_is_the_earliest_one() {
    assert_eq!(first_nul("\0"), Some(0));
    assert_eq!(first_nul("abc\0"), Some(3));
    assert_eq!(first_nul("ab\0c\0d"), Some(2));
}

#[test]
fn first_nul_counts_bytes_not_characters() {
    assert_eq!(first_nul("\u{e9}\0"), Some(2));
    assert_eq!(first_nul("\u{20ac}x\0"), Some(4));
}
