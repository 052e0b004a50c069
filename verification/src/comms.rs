//! The requests that a client sends to the lighting service, and the
//! response that answers each.
//!
//! Nothing here touches a socket.  A request is made for the caller to
//! send, and a reply is read from what the caller received.

use vstd::prelude::*;

verus! {

/// A request to the service.  `ac` tells which of the two sets of settings
/// is meant: 1 for the one used on mains power, 0 for the one used on
/// battery.
#[derive(Clone, PartialEq, Eq, Debug)]
pub enum DaemonCommand {
    GetDeviceName,
    GetBatteryHealthOptimizer,
    SetBatteryHealthOptimizer { is_on: bool, threshold: u8 },
    GetBrightness { ac: usize },
    SetBrightness { ac: usize, val: u8 },
    GetLogoLedState { ac: usize },
    SetLogoLedState { ac: usize, logo_state: u8 },
    SetEffect { name: String, params: Vec<u8> },
    GetPwrLevel { ac: usize },
    GetCPUBoost { ac: usize },
    GetGPUBoost { ac: usize },
    SetPowerMode { ac: usize, pwr: u8, cpu: u8, gpu: u8 },
    GetFanSpeed { ac: usize },
    SetFanSpeed { ac: usize, rpm: i32 },
}

/// A response of the service.  Each request has one response that answers
/// it, the one of the same name.
#[allow(inconsistent_fields)]
#[derive(Clone, PartialEq, Eq, Debug)]
pub enum DaemonResponse {
    GetDeviceName { name: String },
    GetBatteryHealthOptimizer { is_on: bool, threshold: u8 },
    SetBatteryHealthOptimizer { result: bool },
    GetBrightness { result: u8 },
    SetBrightness { result: bool },
    GetLogoLedState { logo_state: u8 },
    SetLogoLedState { result: bool },
    SetEffect { result: bool },
    GetPwrLevel { pwr: u8 },
    GetCPUBoost { cpu: u8 },
    GetGPUBoost { gpu: u8 },
    SetPowerMode { result: bool },
    GetFanSpeed { rpm: i32 },
    SetFanSpeed { result: bool },
}

/// Why a request got no usable answer.
#[derive(Clone, Copy, PartialEq, Eq, Structural, Debug)]
pub enum ProtocolError {
    /// No response came.
    NoResponse,
    /// The response is not the one that answers the request.
    ProtocolMismatch,
}

/// Whether `response` is the response that answers `command`.
pub open spec fn answers(command: DaemonCommand, response: DaemonResponse) -> bool {
    match command {
        DaemonCommand::GetDeviceName => response is GetDeviceName,
        DaemonCommand::GetBatteryHealthOptimizer => response is GetBatteryHealthOptimizer,
        DaemonCommand::SetBatteryHealthOptimizer { .. } => response is SetBatteryHealthOptimizer,
        DaemonCommand::GetBrightness { .. } => response is GetBrightness,
        DaemonCommand::SetBrightness { .. } => response is SetBrightness,
        DaemonCommand::GetLogoLedState { .. } => response is GetLogoLedState,
        DaemonCommand::SetLogoLedState { .. } => response is SetLogoLedState,
        DaemonCommand::SetEffect { .. } => response is SetEffect,
        DaemonCommand::GetPwrLevel { .. } => response is GetPwrLevel,
        DaemonCommand::GetCPUBoost { .. } => response is GetCPUBoost,
        DaemonCommand::GetGPUBoost { .. } => response is GetGPUBoost,
        DaemonCommand::SetPowerMode { .. } => response is SetPowerMode,
        DaemonCommand::GetFanSpeed { .. } => response is GetFanSpeed,
        DaemonCommand::SetFanSpeed { .. } => response is SetFanSpeed,
    }
}

/// The number that stands for a set of settings in a request: 1 for the one
/// used on mains power, 0 for the one used on battery.
pub open spec fn spec_ac_index(ac: bool) -> usize {
    if ac {
        1
    } else {
        0
    }
}

/// The number that stands for a set of settings in a request.
pub fn ac_index(ac: bool) -> (index: usize)
    ensures
        index == spec_ac_index(ac),
{
    if ac {
        1
    } else {
        0
    }
}

/// Whether `response` is the response that answers `command`.
pub fn is_answer(command: &DaemonCommand, response: &DaemonResponse) -> (is: bool)
    ensures
        is == answers(*command, *response),
{
    match command {
        DaemonCommand::GetDeviceName => match response {
            DaemonResponse::GetDeviceName { .. } => true,
            _ => false,
        },
        DaemonCommand::GetBatteryHealthOptimizer => match response {
            DaemonResponse::GetBatteryHealthOptimizer { .. } => true,
            _ => false,
        },
        DaemonCommand::SetBatteryHealthOptimizer { .. } => match response {
            DaemonResponse::SetBatteryHealthOptimizer { .. } => true,
            _ => false,
        },
        DaemonCommand::GetBrightness { .. } => match response {
            DaemonResponse::GetBrightness { .. } => true,
            _ => false,
        },
        DaemonCommand::SetBrightness { .. } => match response {
            DaemonResponse::SetBrightness { .. } => true,
            _ => false,
        },
        DaemonCommand::GetLogoLedState { .. } => match response {
            DaemonResponse::GetLogoLedState { .. } => true,
            _ => false,
        },
        DaemonCommand::SetLogoLedState { .. } => match response {
            DaemonResponse::SetLogoLedState { .. } => true,
            _ => false,
        },
        DaemonCommand::SetEffect { .. } => match response {
            DaemonResponse::SetEffect { .. } => true,
            _ => false,
        },
        DaemonCommand::GetPwrLevel { .. } => match response {
            DaemonResponse::GetPwrLevel { .. } => true,
            _ => false,
        },
        DaemonCommand::GetCPUBoost { .. } => match response {
            DaemonResponse::GetCPUBoost { .. } => true,
            _ => false,
        },
        DaemonCommand::GetGPUBoost { .. } => match response {
            DaemonResponse::GetGPUBoost { .. } => true,
            _ => false,
        },
        DaemonCommand::SetPowerMode { .. } => match response {
            DaemonResponse::SetPowerMode { .. } => true,
            _ => false,
        },
        DaemonCommand::GetFanSpeed { .. } => match response {
            DaemonResponse::GetFanSpeed { .. } => true,
            _ => false,
        },
        DaemonCommand::SetFanSpeed { .. } => match response {
            DaemonResponse::SetFanSpeed { .. } => true,
            _ => false,
        },
    }
}

/// What a reply to `command` amounts to: the response where it answers the
/// request, and the error where none came or where another came.
pub open spec fn spec_check_reply(command: DaemonCommand, reply: Option<DaemonResponse>) -> Result<
    DaemonResponse,
    ProtocolError,
> {
    match reply {
        Some(response) => if answers(command, response) {
            Ok(response)
        } else {
            Err(ProtocolError::ProtocolMismatch)
        },
        None => Err(ProtocolError::NoResponse),
    }
}

/// Holds a reply against the request it is meant to answer.  A response
/// that does not answer the request is a protocol violation, and its
/// payload is not handed on.
pub fn check_reply(command: &DaemonCommand, reply: Option<DaemonResponse>) -> (checked: Result<
    DaemonResponse,
    ProtocolError,
>)
    ensures
        checked == spec_check_reply(*command, reply),
{
    match reply {
        Some(response) => if is_answer(command, &response) {
            Ok(response)
        } else {
            Err(ProtocolError::ProtocolMismatch)
        },
        None => Err(ProtocolError::NoResponse),
    }
}

/// The request that [`get_device_name`] reads the reply to.
pub fn get_device_name_command() -> (command: DaemonCommand)
    ensures
        command == DaemonCommand::GetDeviceName,
{
    DaemonCommand::GetDeviceName
}

/// What a reply to [`get_device_name_command`] tells.
pub open spec fn spec_get_device_name(reply: Option<DaemonResponse>) -> Result<String, ProtocolError> {
    match reply {
        Some(DaemonResponse::GetDeviceName { name }) => Ok(name),
        Some(_) => Err(ProtocolError::ProtocolMismatch),
        None => Err(ProtocolError::NoResponse),
    }
}

/// The device's name, from the reply to [`get_device_name_command`]. Any
/// other response is a protocol violation.
pub fn get_device_name(reply: Option<DaemonResponse>) -> (told: Result<String, ProtocolError>)
    ensures
        told == spec_get_device_name(reply),
{
    match reply {
        Some(DaemonResponse::GetDeviceName { name }) => Ok(name),
        Some(_) => Err(ProtocolError::ProtocolMismatch),
        None => Err(ProtocolError::NoResponse),
    }
}

/// The request that [`get_bho`] reads the reply to.
pub fn get_bho_command() -> (command: DaemonCommand)
    ensures
        command == DaemonCommand::GetBatteryHealthOptimizer,
{
    DaemonCommand::GetBatteryHealthOptimizer
}

/// What a reply to [`get_bho_command`] tells.
pub open spec fn spec_get_bho(reply: Option<DaemonResponse>) -> Result<(bool, u8), ProtocolError> {
    match reply {
        Some(DaemonResponse::GetBatteryHealthOptimizer { is_on, threshold }) => Ok((is_on, threshold)),
        Some(_) => Err(ProtocolError::ProtocolMismatch),
        None => Err(ProtocolError::NoResponse),
    }
}

/// Whether the battery health optimizer is on, and its threshold, from the
/// reply to [`get_bho_command`]. Any other response is a protocol violation.
pub fn get_bho(reply: Option<DaemonResponse>) -> (told: Result<(bool, u8), ProtocolError>)
    ensures
        told == spec_get_bho(reply),
{
    match reply {
        Some(DaemonResponse::GetBatteryHealthOptimizer { is_on, threshold }) => Ok((is_on, threshold)),
        Some(_) => Err(ProtocolError::ProtocolMismatch),
        None => Err(ProtocolError::NoResponse),
    }
}

/// The request that [`set_bho`] reads the reply to.
pub fn set_bho_command(is_on: bool, threshold: u8) -> (command: DaemonCommand)
    ensures
        command == (DaemonCommand::SetBatteryHealthOptimizer { is_on, threshold }),
{
    DaemonCommand::SetBatteryHealthOptimizer { is_on, threshold }
}

/// What a reply to [`set_bho_command`] tells.
pub open spec fn spec_set_bho(reply: Option<DaemonResponse>) -> Result<bool, ProtocolError> {
    match reply {
        Some(DaemonResponse::SetBatteryHealthOptimizer { result }) => Ok(result),
        Some(_) => Err(ProtocolError::ProtocolMismatch),
        None => Err(ProtocolError::NoResponse),
    }
}

/// Whether the battery health optimizer was set, from the reply to
/// [`set_bho_command`]. Any other response is a protocol violation.
pub fn set_bho(reply: Option<DaemonResponse>) -> (told: Result<bool, ProtocolError>)
    ensures
        told == spec_set_bho(reply),
{
    match reply {
        Some(DaemonResponse::SetBatteryHealthOptimizer { result }) => Ok(result),
        Some(_) => Err(ProtocolError::ProtocolMismatch),
        None => Err(ProtocolError::NoResponse),
    }
}

/// The request that [`get_brightness`] reads the reply to.
pub fn get_brightness_command(ac: bool) -> (command: DaemonCommand)
    ensures
        command == (DaemonCommand::GetBrightness { ac: spec_ac_index(ac) }),
{
    DaemonCommand::GetBrightness { ac: ac_index(ac) }
}

/// What a reply to [`get_brightness_command`] tells.
pub open spec fn spec_get_brightness(reply: Option<DaemonResponse>) -> Result<u8, ProtocolError> {
    match reply {
        Some(DaemonResponse::GetBrightness { result }) => Ok(result),
        Some(_) => Err(ProtocolError::ProtocolMismatch),
        None => Err(ProtocolError::NoResponse),
    }
}

/// The backlight's brightness, from the reply to [`get_brightness_command`].
/// Any other response is a protocol violation.
pub fn get_brightness(reply: Option<DaemonResponse>) -> (told: Result<u8, ProtocolError>)
    ensures
        told == spec_get_brightness(reply),
{
    match reply {
        Some(DaemonResponse::GetBrightness { result }) => Ok(result),
        Some(_) => Err(ProtocolError::ProtocolMismatch),
        None => Err(ProtocolError::NoResponse),
    }
}

/// The request that [`set_brightness`] reads the reply to.
pub fn set_brightness_command(ac: bool, val: u8) -> (command: DaemonCommand)
    ensures
        command == (DaemonCommand::SetBrightness { ac: spec_ac_index(ac), val }),
{
    DaemonCommand::SetBrightness { ac: ac_index(ac), val }
}

/// What a reply to [`set_brightness_command`] tells.
pub open spec fn spec_set_brightness(reply: Option<DaemonResponse>) -> Result<bool, ProtocolError> {
    match reply {
        Some(DaemonResponse::SetBrightness { result }) => Ok(result),
        Some(_) => Err(ProtocolError::ProtocolMismatch),
        None => Err(ProtocolError::NoResponse),
    }
}

/// Whether the brightness was set, from the reply to
/// [`set_brightness_command`]. Any other response is a protocol violation.
pub fn set_brightness(reply: Option<DaemonResponse>) -> (told: Result<bool, ProtocolError>)
    ensures
        told == spec_set_brightness(reply),
{
    match reply {
        Some(DaemonResponse::SetBrightness { result }) => Ok(result),
        Some(_) => Err(ProtocolError::ProtocolMismatch),
        None => Err(ProtocolError::NoResponse),
    }
}

/// The request that [`get_logo`] reads the reply to.
pub fn get_logo_command(ac: bool) -> (command: DaemonCommand)
    ensures
        command == (DaemonCommand::GetLogoLedState { ac: spec_ac_index(ac) }),
{
    DaemonCommand::GetLogoLedState { ac: ac_index(ac) }
}

/// What a reply to [`get_logo_command`] tells.
pub open spec fn spec_get_logo(reply: Option<DaemonResponse>) -> Result<u8, ProtocolError> {
    match reply {
        Some(DaemonResponse::GetLogoLedState { logo_state }) => Ok(logo_state),
        Some(_) => Err(ProtocolError::ProtocolMismatch),
        None => Err(ProtocolError::NoResponse),
    }
}

/// The logo light's state, from the reply to [`get_logo_command`]. Any other
/// response is a protocol violation.
pub fn get_logo(reply: Option<DaemonResponse>) -> (told: Result<u8, ProtocolError>)
    ensures
        told == spec_get_logo(reply),
{
    match reply {
        Some(DaemonResponse::GetLogoLedState { logo_state }) => Ok(logo_state),
        Some(_) => Err(ProtocolError::ProtocolMismatch),
        None => Err(ProtocolError::NoResponse),
    }
}

/// The request that [`set_logo`] reads the reply to.
pub fn set_logo_command(ac: bool, logo_state: u8) -> (command: DaemonCommand)
    ensures
        command == (DaemonCommand::SetLogoLedState { ac: spec_ac_index(ac), logo_state }),
{
    DaemonCommand::SetLogoLedState { ac: ac_index(ac), logo_state }
}

/// What a reply to [`set_logo_command`] tells.
pub open spec fn spec_set_logo(reply: Option<DaemonResponse>) -> Result<bool, ProtocolError> {
    match reply {
        Some(DaemonResponse::SetLogoLedState { result }) => Ok(result),
        Some(_) => Err(ProtocolError::ProtocolMismatch),
        None => Err(ProtocolError::NoResponse),
    }
}

/// Whether the logo light's state was set, from the reply to
/// [`set_logo_command`]. Any other response is a protocol violation.
pub fn set_logo(reply: Option<DaemonResponse>) -> (told: Result<bool, ProtocolError>)
    ensures
        told == spec_set_logo(reply),
{
    match reply {
        Some(DaemonResponse::SetLogoLedState { result }) => Ok(result),
        Some(_) => Err(ProtocolError::ProtocolMismatch),
        None => Err(ProtocolError::NoResponse),
    }
}

/// The request that [`set_effect`] reads the reply to.
pub fn set_effect_command(name: String, params: Vec<u8>) -> (command: DaemonCommand)
    ensures
        command == (DaemonCommand::SetEffect { name, params }),
{
    DaemonCommand::SetEffect { name, params }
}

/// What a reply to [`set_effect_command`] tells.
pub open spec fn spec_set_effect(reply: Option<DaemonResponse>) -> Result<bool, ProtocolError> {
    match reply {
        Some(DaemonResponse::SetEffect { result }) => Ok(result),
        Some(_) => Err(ProtocolError::ProtocolMismatch),
        None => Err(ProtocolError::NoResponse),
    }
}

/// Whether the effect was set, from the reply to [`set_effect_command`]. Any
/// other response is a protocol violation.
pub fn set_effect(reply: Option<DaemonResponse>) -> (told: Result<bool, ProtocolError>)
    ensures
        told == spec_set_effect(reply),
{
    match reply {
        Some(DaemonResponse::SetEffect { result }) => Ok(result),
        Some(_) => Err(ProtocolError::ProtocolMismatch),
        None => Err(ProtocolError::NoResponse),
    }
}

/// The request that [`get_pwr_level`] reads the reply to.
pub fn get_pwr_level_command(ac: bool) -> (command: DaemonCommand)
    ensures
        command == (DaemonCommand::GetPwrLevel { ac: spec_ac_index(ac) }),
{
    DaemonCommand::GetPwrLevel { ac: ac_index(ac) }
}

/// What a reply to [`get_pwr_level_command`] tells.
pub open spec fn spec_get_pwr_level(reply: Option<DaemonResponse>) -> Result<u8, ProtocolError> {
    match reply {
        Some(DaemonResponse::GetPwrLevel { pwr }) => Ok(pwr),
        Some(_) => Err(ProtocolError::ProtocolMismatch),
        None => Err(ProtocolError::NoResponse),
    }
}

/// The power profile, from the reply to [`get_pwr_level_command`]. Any other
/// response is a protocol violation.
pub fn get_pwr_level(reply: Option<DaemonResponse>) -> (told: Result<u8, ProtocolError>)
    ensures
        told == spec_get_pwr_level(reply),
{
    match reply {
        Some(DaemonResponse::GetPwrLevel { pwr }) => Ok(pwr),
        Some(_) => Err(ProtocolError::ProtocolMismatch),
        None => Err(ProtocolError::NoResponse),
    }
}

/// The request that [`get_cpu_boost`] reads the reply to.
pub fn get_cpu_boost_command(ac: bool) -> (command: DaemonCommand)
    ensures
        command == (DaemonCommand::GetCPUBoost { ac: spec_ac_index(ac) }),
{
    DaemonCommand::GetCPUBoost { ac: ac_index(ac) }
}

/// What a reply to [`get_cpu_boost_command`] tells.
pub open spec fn spec_get_cpu_boost(reply: Option<DaemonResponse>) -> Result<u8, ProtocolError> {
    match reply {
        Some(DaemonResponse::GetCPUBoost { cpu }) => Ok(cpu),
        Some(_) => Err(ProtocolError::ProtocolMismatch),
        None => Err(ProtocolError::NoResponse),
    }
}

/// The CPU boost level, from the reply to [`get_cpu_boost_command`]. Any
/// other response is a protocol violation.
pub fn get_cpu_boost(reply: Option<DaemonResponse>) -> (told: Result<u8, ProtocolError>)
    ensures
        told == spec_get_cpu_boost(reply),
{
    match reply {
        Some(DaemonResponse::GetCPUBoost { cpu }) => Ok(cpu),
        Some(_) => Err(ProtocolError::ProtocolMismatch),
        None => Err(ProtocolError::NoResponse),
    }
}

/// The request that [`get_gpu_boost`] reads the reply to.
pub fn get_gpu_boost_command(ac: bool) -> (command: DaemonCommand)
    ensures
        command == (DaemonCommand::GetGPUBoost { ac: spec_ac_index(ac) }),
{
    DaemonCommand::GetGPUBoost { ac: ac_index(ac) }
}

/// What a reply to [`get_gpu_boost_command`] tells.
pub open spec fn spec_get_gpu_boost(reply: Option<DaemonResponse>) -> Result<u8, ProtocolError> {
    match reply {
        Some(DaemonResponse::GetGPUBoost { gpu }) => Ok(gpu),
        Some(_) => Err(ProtocolError::ProtocolMismatch),
        None => Err(ProtocolError::NoResponse),
    }
}

/// The GPU boost level, from the reply to [`get_gpu_boost_command`]. Any
/// other response is a protocol violation.
pub fn get_gpu_boost(reply: Option<DaemonResponse>) -> (told: Result<u8, ProtocolError>)
    ensures
        told == spec_get_gpu_boost(reply),
{
    match reply {
        Some(DaemonResponse::GetGPUBoost { gpu }) => Ok(gpu),
        Some(_) => Err(ProtocolError::ProtocolMismatch),
        None => Err(ProtocolError::NoResponse),
    }
}

/// The request that [`set_power`] reads the reply to.
pub fn set_power_command(ac: bool, pwr: u8, cpu: u8, gpu: u8) -> (command: DaemonCommand)
    ensures
        command == (DaemonCommand::SetPowerMode { ac: spec_ac_index(ac), pwr, cpu, gpu }),
{
    DaemonCommand::SetPowerMode { ac: ac_index(ac), pwr, cpu, gpu }
}

/// What a reply to [`set_power_command`] tells.
pub open spec fn spec_set_power(reply: Option<DaemonResponse>) -> Result<bool, ProtocolError> {
    match reply {
        Some(DaemonResponse::SetPowerMode { result }) => Ok(result),
        Some(_) => Err(ProtocolError::ProtocolMismatch),
        None => Err(ProtocolError::NoResponse),
    }
}

/// Whether the power profile and boost levels were set, from the reply to
/// [`set_power_command`]. Any other response is a protocol violation.
pub fn set_power(reply: Option<DaemonResponse>) -> (told: Result<bool, ProtocolError>)
    ensures
        told == spec_set_power(reply),
{
    match reply {
        Some(DaemonResponse::SetPowerMode { result }) => Ok(result),
        Some(_) => Err(ProtocolError::ProtocolMismatch),
        None => Err(ProtocolError::NoResponse),
    }
}

/// The request that [`get_fan_speed`] reads the reply to.
pub fn get_fan_speed_command(ac: bool) -> (command: DaemonCommand)
    ensures
        command == (DaemonCommand::GetFanSpeed { ac: spec_ac_index(ac) }),
{
    DaemonCommand::GetFanSpeed { ac: ac_index(ac) }
}

/// What a reply to [`get_fan_speed_command`] tells.
pub open spec fn spec_get_fan_speed(reply: Option<DaemonResponse>) -> Result<i32, ProtocolError> {
    match reply {
        Some(DaemonResponse::GetFanSpeed { rpm }) => Ok(rpm),
        Some(_) => Err(ProtocolError::ProtocolMismatch),
        None => Err(ProtocolError::NoResponse),
    }
}

/// The fan's speed, from the reply to [`get_fan_speed_command`]. Any other
/// response is a protocol violation.
pub fn get_fan_speed(reply: Option<DaemonResponse>) -> (told: Result<i32, ProtocolError>)
    ensures
        told == spec_get_fan_speed(reply),
{
    match reply {
        Some(DaemonResponse::GetFanSpeed { rpm }) => Ok(rpm),
        Some(_) => Err(ProtocolError::ProtocolMismatch),
        None => Err(ProtocolError::NoResponse),
    }
}

/// The request that [`set_fan_speed`] reads the reply to.
pub fn set_fan_speed_command(ac: bool, rpm: i32) -> (command: DaemonCommand)
    ensures
        command == (DaemonCommand::SetFanSpeed { ac: spec_ac_index(ac), rpm }),
{
    DaemonCommand::SetFanSpeed { ac: ac_index(ac), rpm }
}

/// What a reply to [`set_fan_speed_command`] tells.
pub open spec fn spec_set_fan_speed(reply: Option<DaemonResponse>) -> Result<bool, ProtocolError> {
    match reply {
        Some(DaemonResponse::SetFanSpeed { result }) => Ok(result),
        Some(_) => Err(ProtocolError::ProtocolMismatch),
        None => Err(ProtocolError::NoResponse),
    }
}

/// Whether the fan's speed was set, from the reply to
/// [`set_fan_speed_command`]. Any other response is a protocol violation.
pub fn set_fan_speed(reply: Option<DaemonResponse>) -> (told: Result<bool, ProtocolError>)
    ensures
        told == spec_set_fan_speed(reply),
{
    match reply {
        Some(DaemonResponse::SetFanSpeed { result }) => Ok(result),
        Some(_) => Err(ProtocolError::ProtocolMismatch),
        None => Err(ProtocolError::NoResponse),
    }
}

/// How far the query of the power settings has come.  It takes three
/// requests, for the power profile, the CPU boost and the GPU boost, in that
/// order; the first reply that is no answer ends it.
#[derive(Clone, Copy, PartialEq, Eq, Structural, Debug)]
pub enum PowerQuery {
    /// The power profile is to be asked for.
    AskPwrLevel,
    /// The CPU boost is to be asked for.
    AskCpuBoost { pwr: u8 },
    /// The GPU boost is to be asked for.
    AskGpuBoost { pwr: u8, cpu: u8 },
    /// All three are known.
    Known { pwr: u8, cpu: u8, gpu: u8 },
    /// A reply was no answer.
    Failed { error: ProtocolError },
}

impl PowerQuery {
    /// The request to send at this step, and `None` once the query is over.
    pub open spec fn spec_command(self, ac: bool) -> Option<DaemonCommand> {
        match self {
            PowerQuery::AskPwrLevel => Some(DaemonCommand::GetPwrLevel { ac: spec_ac_index(ac) }),
            PowerQuery::AskCpuBoost { .. } => Some(
                DaemonCommand::GetCPUBoost { ac: spec_ac_index(ac) },
            ),
            PowerQuery::AskGpuBoost { .. } => Some(
                DaemonCommand::GetGPUBoost { ac: spec_ac_index(ac) },
            ),
            PowerQuery::Known { .. } => None,
            PowerQuery::Failed { .. } => None,
        }
    }

    /// The step after the reply to this step's request.
    pub open spec fn after(self, reply: Option<DaemonResponse>) -> PowerQuery {
        match self {
            PowerQuery::AskPwrLevel => match spec_get_pwr_level(reply) {
                Ok(pwr) => PowerQuery::AskCpuBoost { pwr },
                Err(error) => PowerQuery::Failed { error },
            },
            PowerQuery::AskCpuBoost { pwr } => match spec_get_cpu_boost(reply) {
                Ok(cpu) => PowerQuery::AskGpuBoost { pwr, cpu },
                Err(error) => PowerQuery::Failed { error },
            },
            PowerQuery::AskGpuBoost { pwr, cpu } => match spec_get_gpu_boost(reply) {
                Ok(gpu) => PowerQuery::Known { pwr, cpu, gpu },
                Err(error) => PowerQuery::Failed { error },
            },
            PowerQuery::Known { .. } => self,
            PowerQuery::Failed { .. } => self,
        }
    }

    /// What the query has found: power profile, CPU boost and GPU boost, or
    /// the error that ended it, and `None` while it is under way.
    pub open spec fn spec_outcome(self) -> Option<Result<(u8, u8, u8), ProtocolError>> {
        match self {
            PowerQuery::Known { pwr, cpu, gpu } => Some(Ok((pwr, cpu, gpu))),
            PowerQuery::Failed { error } => Some(Err(error)),
            _ => None,
        }
    }

    /// The step at which the query begins.
    pub fn start() -> (query: PowerQuery)
        ensures
            query == PowerQuery::AskPwrLevel,
    {
        PowerQuery::AskPwrLevel
    }

    /// The request to send at this step, and `None` once the query is over.
    pub fn command(&self, ac: bool) -> (command: Option<DaemonCommand>)
        ensures
            command == self.spec_command(ac),
    {
        match self {
            PowerQuery::AskPwrLevel => Some(get_pwr_level_command(ac)),
            PowerQuery::AskCpuBoost { .. } => Some(get_cpu_boost_command(ac)),
            PowerQuery::AskGpuBoost { .. } => Some(get_gpu_boost_command(ac)),
            PowerQuery::Known { .. } => None,
            PowerQuery::Failed { .. } => None,
        }
    }

    /// The step after the reply to this step's request.
    pub fn advance(self, reply: Option<DaemonResponse>) -> (next: PowerQuery)
        ensures
            next == self.after(reply),
    {
        match self {
            PowerQuery::AskPwrLevel => match get_pwr_level(reply) {
                Ok(pwr) => PowerQuery::AskCpuBoost { pwr },
                Err(error) => PowerQuery::Failed { error },
            },
            PowerQuery::AskCpuBoost { pwr } => match get_cpu_boost(reply) {
                Ok(cpu) => PowerQuery::AskGpuBoost { pwr, cpu },
                Err(error) => PowerQuery::Failed { error },
            },
            PowerQuery::AskGpuBoost { pwr, cpu } => match get_gpu_boost(reply) {
                Ok(gpu) => PowerQuery::Known { pwr, cpu, gpu },
                Err(error) => PowerQuery::Failed { error },
            },
            PowerQuery::Known { pwr, cpu, gpu } => PowerQuery::Known { pwr, cpu, gpu },
            PowerQuery::Failed { error } => PowerQuery::Failed { error },
        }
    }

    /// What the query has found, and `None` while it is under way.
    pub fn outcome(&self) -> (found: Option<Result<(u8, u8, u8), ProtocolError>>)
        ensures
            found == self.spec_outcome(),
    {
        match self {
            PowerQuery::Known { pwr, cpu, gpu } => Some(Ok((*pwr, *cpu, *gpu))),
            PowerQuery::Failed { error } => Some(Err(*error)),
            _ => None,
        }
    }
}

/// The power settings, from the replies to the three requests of a power
/// query: power profile, CPU boost and GPU boost.
pub open spec fn spec_get_power(
    pwr: Option<DaemonResponse>,
    cpu: Option<DaemonResponse>,
    gpu: Option<DaemonResponse>,
) -> PowerQuery {
    PowerQuery::AskPwrLevel.after(pwr).after(cpu).after(gpu)
}

/// A power query ends with all three settings where each reply answers its
/// request, and only then; it sends nothing more after a reply that does
/// not.
pub proof fn lemma_power_query(
    ac: bool,
    pwr: Option<DaemonResponse>,
    cpu: Option<DaemonResponse>,
    gpu: Option<DaemonResponse>,
)
    ensures
        spec_get_power(pwr, cpu, gpu) is Known <==> spec_get_pwr_level(pwr) is Ok
            && spec_get_cpu_boost(cpu) is Ok && spec_get_gpu_boost(gpu) is Ok,
        spec_get_power(pwr, cpu, gpu) matches PowerQuery::Known { pwr: p, cpu: c, gpu: g }
            ==> spec_get_pwr_level(pwr) == Ok::<u8, ProtocolError>(p) && spec_get_cpu_boost(cpu)
            == Ok::<u8, ProtocolError>(c) && spec_get_gpu_boost(gpu) == Ok::<u8, ProtocolError>(g),
        spec_get_pwr_level(pwr) is Err ==> PowerQuery::AskPwrLevel.after(pwr).spec_command(ac)
            is None,
        spec_get_cpu_boost(cpu) is Err ==> PowerQuery::AskPwrLevel.after(pwr).after(
            cpu,
        ).spec_command(ac) is None,
        !(spec_get_power(pwr, cpu, gpu) is AskPwrLevel),
        spec_get_power(pwr, cpu, gpu).spec_outcome() is Some,
{
}

/// A reply is read as an answer exactly where it is the response that
/// answers the request: a response of another name is refused whatever it
/// carries.
pub proof fn lemma_reply_read_iff_answer(ac: bool, reply: DaemonResponse)
    ensures
        spec_get_device_name(Some(reply)) is Ok <==> answers(DaemonCommand::GetDeviceName, reply),
        spec_get_bho(Some(reply)) is Ok <==> answers(
            DaemonCommand::GetBatteryHealthOptimizer,
            reply,
        ),
        spec_get_brightness(Some(reply)) is Ok <==> answers(
            DaemonCommand::GetBrightness { ac: spec_ac_index(ac) },
            reply,
        ),
        spec_get_logo(Some(reply)) is Ok <==> answers(
            DaemonCommand::GetLogoLedState { ac: spec_ac_index(ac) },
            reply,
        ),
        spec_get_pwr_level(Some(reply)) is Ok <==> answers(
            DaemonCommand::GetPwrLevel { ac: spec_ac_index(ac) },
            reply,
        ),
        spec_get_cpu_boost(Some(reply)) is Ok <==> answers(
            DaemonCommand::GetCPUBoost { ac: spec_ac_index(ac) },
            reply,
        ),
        spec_get_gpu_boost(Some(reply)) is Ok <==> answers(
            DaemonCommand::GetGPUBoost { ac: spec_ac_index(ac) },
            reply,
        ),
        spec_get_fan_speed(Some(reply)) is Ok <==> answers(
            DaemonCommand::GetFanSpeed { ac: spec_ac_index(ac) },
            reply,
        ),
        spec_set_bho(Some(reply)) is Ok <==> reply is SetBatteryHealthOptimizer,
        spec_set_brightness(Some(reply)) is Ok <==> reply is SetBrightness,
        spec_set_logo(Some(reply)) is Ok <==> reply is SetLogoLedState,
        spec_set_effect(Some(reply)) is Ok <==> reply is SetEffect,
        spec_set_power(Some(reply)) is Ok <==> reply is SetPowerMode,
        spec_set_fan_speed(Some(reply)) is Ok <==> reply is SetFanSpeed,
{
}

} // verus!
