use razer_control::comms::DaemonCommand;
use razer_control::kbd::board::KeyColour;
use razer_control::kbd::effects::AnyEffect;
use razer_control::settings::effect_request;
use razer_control::settings::fan_is_auto;
use razer_control::settings::fan_switch_rpm;
use razer_control::settings::is_custom_profile;
use razer_control::settings::BREATHING_DURATION;
use razer_control::settings::CUSTOM_PROFILE;
use razer_control::settings::FAN_AUTO;

const FIRST: KeyColour = KeyColour { r: 1, g: 2, b: 3 };
const SECOND: KeyColour = KeyColour { r: 4, g: 5, b: 6 };

fn set_effect(name: &str, params: &[u8]) -> Option<DaemonCommand> {
    Some(DaemonCommand::SetEffect { name: String::from(name), params: params.to_vec() })
}

#[test]
fn each_entry_of_the_list_asks_for_its_effect() {
    assert_eq!(BREATHING_DURATION, 10);
    assert_eq!(effect_request(0, FIRST, SECOND), set_effect("static", &[1, 2, 3]));
    assert_eq!(effect_request(1, FIRST, SECOND), set_effect("static_gradient", &[1, 2, 3, 4, 5, 6]));
    assert_eq!(effect_request(2, FIRST, SECOND), set_effect("wave_gradient", &[1, 2, 3, 4, 5, 6]));
    assert_eq!(effect_request(3, FIRST, SECOND), set_effect("breathing_single", &[1, 2, 3, 10]));
    assert_eq!(effect_request(4, FIRST, SECOND), None);
    assert_eq!(effect_request(u32::MAX, FIRST, SECOND), None);
}

#[test]
fn every_request_of_the_list_is_served() {
    for choice in 0..4 {
        match effect_request(choice, FIRST, SECOND) {
            Some(DaemonCommand::SetEffect { name, params }) => {
                assert!(AnyEffect::from_command(&name, params).is_ok(), "{}", name);
            }
            other => panic!("entry {} gave {:?}", choice, other),
        }
    }
}

#[test]
fn fan_speed_zero_is_automatic() {
    assert_eq!(FAN_AUTO, 0);
    assert!(fan_is_auto(0));
    assert!(!fan_is_auto(1));
    assert!(!fan_is_auto(-1));
    assert!(!fan_is_auto(3500));
    assert_eq!(fan_switch_rpm(true, 3500), 0);
    assert_eq!(fan_switch_rpm(false, 3500), 3500);
    assert_eq!(fan_switch_rpm(false, 0), 0);
}

#[test]
fn only_the_custom_profile_shows_the_boost() {
    assert_eq!(CUSTOM_PROFILE, 4);
    for pwr in 0..=255u8 {
        assert_eq!(is_custom_profile(pwr), pwr == 4);
    }
}
