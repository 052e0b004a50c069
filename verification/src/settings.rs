//! What the settings page asks of the service.

use vstd::prelude::*;
use vstd::string::StringExecFns;
use crate::comms::DaemonCommand;
use crate::kbd::board::KeyColour;
use crate::kbd::effects::AnyEffect;
use crate::kbd::effects::lemma_names_distinct;

verus! {

/// The duration parameter that the settings page gives a breathing effect.
pub const BREATHING_DURATION: u8 = 10;

/// The fan speed that leaves the fan to the firmware.
pub const FAN_AUTO: i32 = 0;

/// The power profile in which the boost levels are the user's to pick.
pub const CUSTOM_PROFILE: u8 = 4;

/// The name and the parameters of the effect that the entry `choice` of the
/// effect list stands for, with the two colours picked: a static colour, a
/// static gradient, a wave gradient, a breathing colour; any other entry
/// stands for none.
pub open spec fn spec_effect_request(choice: u32, first: KeyColour, second: KeyColour) -> Option<
    (Seq<char>, Seq<u8>),
> {
    if choice == 0 {
        Some(("static"@, seq![first.r, first.g, first.b]))
    } else if choice == 1 {
        Some(
            ("static_gradient"@, seq![first.r, first.g, first.b, second.r, second.g, second.b]),
        )
    } else if choice == 2 {
        Some(("wave_gradient"@, seq![first.r, first.g, first.b, second.r, second.g, second.b]))
    } else if choice == 3 {
        Some(("breathing_single"@, seq![first.r, first.g, first.b, BREATHING_DURATION]))
    } else {
        None
    }
}

fn one_colour(c: KeyColour) -> (params: Vec<u8>)
    ensures
        params@ == seq![c.r, c.g, c.b],
{
    let mut params: Vec<u8> = Vec::new();
    params.push(c.r);
    params.push(c.g);
    params.push(c.b);
    assert(params@ =~= seq![c.r, c.g, c.b]);
    params
}

fn two_colours(a: KeyColour, b: KeyColour) -> (params: Vec<u8>)
    ensures
        params@ == seq![a.r, a.g, a.b, b.r, b.g, b.b],
{
    let mut params = one_colour(a);
    params.push(b.r);
    params.push(b.g);
    params.push(b.b);
    assert(params@ =~= seq![a.r, a.g, a.b, b.r, b.g, b.b]);
    params
}

/// The request that sets the effect which the entry `choice` of the effect
/// list stands for, with the two colours picked; `None` for an entry that
/// stands for no effect.
pub fn effect_request(choice: u32, first: KeyColour, second: KeyColour) -> (request: Option<
    DaemonCommand,
>)
    ensures
        request is Some <==> spec_effect_request(choice, first, second) is Some,
        request matches Some(command) ==> command matches DaemonCommand::SetEffect { name, params }
            && spec_effect_request(choice, first, second) == Some((name@, params@)),
{
    if choice == 0 {
        Some(DaemonCommand::SetEffect { name: String::from_str("static"), params: one_colour(first) })
    } else if choice == 1 {
        Some(
            DaemonCommand::SetEffect {
                name: String::from_str("static_gradient"),
                params: two_colours(first, second),
            },
        )
    } else if choice == 2 {
        Some(
            DaemonCommand::SetEffect {
                name: String::from_str("wave_gradient"),
                params: two_colours(first, second),
            },
        )
    } else if choice == 3 {
        let mut params = one_colour(first);
        params.push(BREATHING_DURATION);
        assert(params@ =~= seq![first.r, first.g, first.b, BREATHING_DURATION]);
        Some(DaemonCommand::SetEffect { name: String::from_str("breathing_single"), params })
    } else {
        None
    }
}

/// Whether a power profile lets the user pick the boost levels.
pub fn is_custom_profile(pwr: u8) -> (custom: bool)
    ensures
        custom == (pwr == CUSTOM_PROFILE),
{
    pwr == CUSTOM_PROFILE
}

/// Whether a fan speed leaves the fan to the firmware.
pub fn fan_is_auto(rpm: i32) -> (auto: bool)
    ensures
        auto == (rpm == FAN_AUTO),
{
    rpm == FAN_AUTO
}

/// The fan speed to ask for when the switch for the automatic fan is
/// turned: the automatic one where it is turned on, the lowest that the
/// device takes where it is turned off.
pub fn fan_switch_rpm(auto: bool, min_fan_speed: i32) -> (rpm: i32)
    ensures
        rpm == (if auto {
            FAN_AUTO
        } else {
            min_fan_speed
        }),
{
    if auto {
        FAN_AUTO
    } else {
        min_fan_speed
    }
}

/// Every effect that the settings page can ask for is one that the service
/// makes: it goes by that name in requests and accepts those parameters.
pub proof fn lemma_effect_requests_are_served(choice: u32, first: KeyColour, second: KeyColour)
    ensures
        spec_effect_request(choice, first, second) matches Some((name, params))
            ==> AnyEffect::spec_from_command(name, params) is Ok,
{
    lemma_names_distinct();
    reveal_strlit("static");
    reveal_strlit("static_gradient");
    reveal_strlit("wave_gradient");
    reveal_strlit("breathing_single");
    assert("static"@.len() == 6);
    assert("static_gradient"@.len() == 15);
    assert("wave_gradient"@.len() == 13);
    assert("breathing_single"@.len() == 16);
}

} // verus!
