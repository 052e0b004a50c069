//! The kernel driver's attribute files: where each one lies, what is
//! written to it and how what it holds is read.
//!
//! Nothing here touches a file.  A write is prepared as a [`SysfsWrite`] for
//! the caller to carry out, and a read takes what the caller found in the
//! file.

use vstd::prelude::*;
use vstd::string::StringExecFns;
use vstd::string::StrSliceExecFns;
use crate::decimal::decimal_text;
use crate::decimal::format_i32;
use crate::decimal::format_u8;
use crate::decimal::lemma_decimal_round_trip;
use crate::decimal::parse_i32;
use crate::decimal::parse_u8;
use crate::decimal::spec_parse_i32;
use crate::decimal::spec_parse_u8;
use crate::decimal::trim_newlines;
use crate::decimal::trimmed_len;

verus! {

/// The directory whose entries are the driver's devices.
pub const DRIVER_DIR: &'static str = "/sys/module/razercontrol/drivers/hid:razerctrl";

/// The file that tells whether the machine is on mains power.
pub const POWER_SUPPLY_FILE: &'static str = "/sys/class/power_supply/AC0/online";

/// The attribute file of the backlight's brightness, from 0 to 100.
pub const BRIGHTNESS: &'static str = "brightness";

/// The attribute file of the power mode.
pub const POWER_MODE: &'static str = "power_mode";

/// The attribute file of the CPU boost level.
pub const CPU_BOOST: &'static str = "cpu_boost";

/// The attribute file of the GPU boost level.
pub const GPU_BOOST: &'static str = "gpu_boost";

/// The attribute file of the fan's speed.
pub const FAN_RPM: &'static str = "fan_rpm";

/// The attribute file of the logo light's state.
pub const LOGO_LED_STATE: &'static str = "logo_led_state";

/// The attribute file of the custom mode flag; it is only written.
pub const CUSTOM_FRAME_MODE: &'static str = "custom_frame_mode";

/// The attribute file of the colour map; it is only written.
pub const KEY_COLOUR_MAP: &'static str = "key_colour_map";

/// Why an attribute could not be read or written.
#[derive(Clone, Copy, PartialEq, Eq, Structural, Debug)]
pub enum DriverError {
    /// The driver's attribute directory was not found.
    DeviceNotFound,
    /// Reading or writing the attribute file failed.
    IoError,
    /// The attribute file does not hold a number of the expected type.
    ParseError,
}

/// Where the machine draws its power from.
#[derive(Clone, Copy, PartialEq, Eq, Structural, Debug)]
pub enum PowerSupply {
    /// The machine is plugged in.
    AC,
    /// The machine runs on battery.
    BAT,
    /// The source is not known.
    UNK,
}

impl PowerSupply {
    /// Whether the machine is on mains power, where that is known.
    pub open spec fn spec_on_mains(self) -> Option<bool> {
        match self {
            PowerSupply::AC => Some(true),
            PowerSupply::BAT => Some(false),
            PowerSupply::UNK => None,
        }
    }

    /// Whether the machine is on mains power, where that is known.
    pub fn on_mains(self) -> (mains: Option<bool>)
        ensures
            mains == self.spec_on_mains(),
    {
        match self {
            PowerSupply::AC => Some(true),
            PowerSupply::BAT => Some(false),
            PowerSupply::UNK => None,
        }
    }
}

/// What a prepared write holds: the file, and the bytes that go into it.
pub struct WriteView {
    pub path: Seq<char>,
    pub data: Seq<u8>,
}

/// A write for the caller to carry out: `data` replaces what the file at
/// `path` holds.
#[derive(Clone, PartialEq, Eq, Debug)]
pub struct SysfsWrite {
    pub path: String,
    pub data: Vec<u8>,
}

impl View for SysfsWrite {
    type V = WriteView;

    open spec fn view(&self) -> WriteView {
        WriteView { path: self.path@, data: self.data@ }
    }
}

/// The driver's attribute directory, looked up once; `None` where the
/// driver has no device.
pub struct SysfsPath {
    path: Option<String>,
}

impl View for SysfsPath {
    type V = Option<Seq<char>>;

    closed spec fn view(&self) -> Option<Seq<char>> {
        path_view(self.path)
    }
}

/// Whether a directory entry's name is that of a device of the driver.
pub open spec fn is_device_name(name: Seq<char>) -> bool {
    name.len() >= 3 && name[0] == '0' && name[1] == '0' && name[2] == '0'
}

/// The path of the entry `name` of the driver's directory.
pub open spec fn device_path(name: Seq<char>) -> Seq<char> {
    DRIVER_DIR@ + "/"@ + name
}

/// The attribute directory that a listing of the driver's directory makes
/// known: the first entry with a device's name.
pub open spec fn spec_resolve(names: Seq<Seq<char>>) -> Option<Seq<char>>
    decreases names.len(),
{
    if names.len() == 0 {
        None
    } else if is_device_name(names.first()) {
        Some(device_path(names.first()))
    } else {
        spec_resolve(names.drop_first())
    }
}

/// The names of a listing.
pub open spec fn name_views(entries: Seq<String>) -> Seq<Seq<char>> {
    Seq::new(entries.len(), |i: int| entries[i]@)
}

/// The path of the attribute file `name`, or the error where the directory
/// was not found.
pub open spec fn spec_attribute_path(dir: Option<Seq<char>>, name: Seq<char>) -> Result<
    Seq<char>,
    DriverError,
> {
    match dir {
        Some(d) => Ok(d + "/"@ + name),
        None => Err(DriverError::DeviceNotFound),
    }
}

/// The write of `data` to the attribute file `name`, or the error where the
/// directory was not found.
pub open spec fn spec_write(dir: Option<Seq<char>>, name: Seq<char>, data: Seq<u8>) -> Result<
    WriteView,
    DriverError,
> {
    match dir {
        Some(d) => Ok(WriteView { path: d + "/"@ + name, data }),
        None => Err(DriverError::DeviceNotFound),
    }
}

/// What a prepared write, or its refusal, holds.
pub open spec fn write_view(write: Result<SysfsWrite, DriverError>) -> Result<
    WriteView,
    DriverError,
> {
    match write {
        Ok(w) => Ok(w@),
        Err(e) => Err(e),
    }
}

/// What a path that may be missing holds.
pub open spec fn path_view(path: Option<String>) -> Option<Seq<char>> {
    match path {
        Some(p) => Some(p@),
        None => None,
    }
}

/// What a text, or the error in its place, holds.
pub open spec fn text_view(text: Result<String, DriverError>) -> Result<Seq<char>, DriverError> {
    match text {
        Ok(t) => Ok(t@),
        Err(e) => Err(e),
    }
}

/// What a run of bytes, or the error in its place, holds.
pub open spec fn bytes_view(bytes: Result<Vec<u8>, DriverError>) -> Result<Seq<u8>, DriverError> {
    match bytes {
        Ok(b) => Ok(b@),
        Err(e) => Err(e),
    }
}

/// What was found in a file, as plain values.
pub open spec fn raw_view(raw: Option<Vec<u8>>) -> Option<Seq<u8>> {
    match raw {
        Some(bytes) => Some(bytes@),
        None => None,
    }
}

/// The text of an attribute: what was found in its file, without the line
/// feeds at its end.
pub open spec fn spec_read_text(dir: Option<Seq<char>>, raw: Option<Seq<u8>>) -> Result<
    Seq<u8>,
    DriverError,
> {
    if dir is None {
        Err(DriverError::DeviceNotFound)
    } else {
        match raw {
            Some(bytes) => Ok(trim_newlines(bytes)),
            None => Err(DriverError::IoError),
        }
    }
}

/// The `u8` that an attribute holds, with every failure told apart.
pub open spec fn spec_read_u8(dir: Option<Seq<char>>, raw: Option<Seq<u8>>) -> Result<
    u8,
    DriverError,
> {
    match spec_read_text(dir, raw) {
        Ok(text) => match spec_parse_u8(text) {
            Some(v) => Ok(v),
            None => Err(DriverError::ParseError),
        },
        Err(e) => Err(e),
    }
}

/// The `i32` that an attribute holds, with every failure told apart.
pub open spec fn spec_read_i32(dir: Option<Seq<char>>, raw: Option<Seq<u8>>) -> Result<
    i32,
    DriverError,
> {
    match spec_read_text(dir, raw) {
        Ok(text) => match spec_parse_i32(text) {
            Some(v) => Ok(v),
            None => Err(DriverError::ParseError),
        },
        Err(e) => Err(e),
    }
}

/// What a typed read answers: without a directory the error, else the
/// number in the file, and 0 where the file could not be read or holds no
/// such number.
pub open spec fn or_zero_u8(strict: Result<u8, DriverError>) -> Result<u8, DriverError> {
    match strict {
        Ok(v) => Ok(v),
        Err(DriverError::DeviceNotFound) => Err(DriverError::DeviceNotFound),
        Err(_) => Ok(0u8),
    }
}

/// As [`or_zero_u8`], for an `i32`.
pub open spec fn or_zero_i32(strict: Result<i32, DriverError>) -> Result<i32, DriverError> {
    match strict {
        Ok(v) => Ok(v),
        Err(DriverError::DeviceNotFound) => Err(DriverError::DeviceNotFound),
        Err(_) => Ok(0i32),
    }
}

/// The power source that the status file tells: on mains where it holds
/// `1`, on battery where it holds `0`, unknown where it holds anything else
/// or could not be read.
pub open spec fn spec_power_source(raw: Option<Seq<u8>>) -> PowerSupply {
    match raw {
        Some(bytes) => if trim_newlines(bytes) == seq![49u8] {
            PowerSupply::AC
        } else if trim_newlines(bytes) == seq![48u8] {
            PowerSupply::BAT
        } else {
            PowerSupply::UNK
        },
        None => PowerSupply::UNK,
    }
}

fn has_device_name(name: &str) -> (is: bool)
    ensures
        is == is_device_name(name@),
{
    name.unicode_len() >= 3 && name.get_char(0) == '0' && name.get_char(1) == '0' && name.get_char(
        2,
    ) == '0'
}

impl SysfsPath {
    /// Looks the attribute directory up in a listing of [`DRIVER_DIR`]: it
    /// is the first entry whose name begins with `000`.  A listing without
    /// such an entry leaves the directory unknown.
    pub fn resolve(entries: &Vec<String>) -> (found: SysfsPath)
        ensures
            found@ == spec_resolve(name_views(entries@)),
    {
        let ghost names = name_views(entries@);
        let mut i: usize = 0;
        assert(names.skip(0) =~= names);
        while i < entries.len()
            invariant
                i <= entries@.len(),
                names == name_views(entries@),
                spec_resolve(names) == spec_resolve(names.skip(i as int)),
            decreases entries.len() - i,
        {
            assert(names.skip(i as int).first() == entries@[i as int]@);
            assert(names.skip(i as int).drop_first() =~= names.skip(i + 1));
            if has_device_name(entries[i].as_str()) {
                let path = String::from_str(DRIVER_DIR).concat("/").concat(entries[i].as_str());
                return SysfsPath { path: Some(path) };
            }
            i = i + 1;
        }
        SysfsPath { path: None }
    }

    /// No attribute directory: what [`SysfsPath::resolve`] gives where the
    /// driver has no device.
    pub fn missing() -> (none: SysfsPath)
        ensures
            none@ is None,
    {
        SysfsPath { path: None }
    }

    /// Whether the attribute directory was found.
    pub fn is_found(&self) -> (found: bool)
        ensures
            found == (self@ is Some),
    {
        self.path.is_some()
    }
}

/// The attribute directory, if it was found.
pub fn get_path(driver: &SysfsPath) -> (path: Option<String>)
    ensures
        path_view(path) == driver@,
{
    match &driver.path {
        Some(p) => Some(p.clone()),
        None => None,
    }
}

/// The path of the attribute file `sysfs_name`.
pub fn attribute_path(driver: &SysfsPath, sysfs_name: &str) -> (path: Result<String, DriverError>)
    ensures
        text_view(path) == spec_attribute_path(driver@, sysfs_name@),
{
    match &driver.path {
        Some(dir) => Ok(dir.clone().concat("/").concat(sysfs_name)),
        None => Err(DriverError::DeviceNotFound),
    }
}

/// Prepares the write of `val` to the attribute file `sysfs_name`.
fn write_to_sysfs(driver: &SysfsPath, sysfs_name: &str, val: Vec<u8>) -> (write: Result<
    SysfsWrite,
    DriverError,
>)
    ensures
        write_view(write) == spec_write(driver@, sysfs_name@, val@),
{
    match attribute_path(driver, sysfs_name) {
        Ok(path) => Ok(SysfsWrite { path, data: val }),
        Err(e) => Err(e),
    }
}

/// What was found in an attribute file, without the line feeds at its end.
fn read_from_sysfs(driver: &SysfsPath, raw: &Option<Vec<u8>>) -> (text: Result<
    Vec<u8>,
    DriverError,
>)
    ensures
        bytes_view(text) == spec_read_text(driver@, raw_view(*raw)),
{
    if driver.path.is_none() {
        return Err(DriverError::DeviceNotFound);
    }
    match raw {
        Some(bytes) => {
            let len = trimmed_len(bytes.as_slice());
            let mut text: Vec<u8> = Vec::new();
            let mut i: usize = 0;
            while i < len
                invariant
                    i <= len <= bytes@.len(),
                    text@ == bytes@.take(i as int),
                decreases len - i,
            {
                text.push(bytes[i]);
                assert(bytes@.take(i + 1) =~= bytes@.take(i as int).push(bytes@[i as int]));
                i = i + 1;
            }
            Ok(text)
        },
        None => Err(DriverError::IoError),
    }
}

/// Reads a `u8` attribute from what was found in its file (`None` where
/// the file could not be read) and tells every failure apart.
pub fn read_u8(driver: &SysfsPath, raw: &Option<Vec<u8>>) -> (value: Result<u8, DriverError>)
    ensures
        value == spec_read_u8(driver@, raw_view(*raw)),
{
    match read_from_sysfs(driver, raw) {
        Ok(text) => match parse_u8(text.as_slice()) {
            Some(v) => Ok(v),
            None => Err(DriverError::ParseError),
        },
        Err(e) => Err(e),
    }
}

/// Reads an `i32` attribute from what was found in its file (`None` where
/// the file could not be read) and tells every failure apart.
pub fn read_i32(driver: &SysfsPath, raw: &Option<Vec<u8>>) -> (value: Result<i32, DriverError>)
    ensures
        value == spec_read_i32(driver@, raw_view(*raw)),
{
    match read_from_sysfs(driver, raw) {
        Ok(text) => match parse_i32(text.as_slice()) {
            Some(v) => Ok(v),
            None => Err(DriverError::ParseError),
        },
        Err(e) => Err(e),
    }
}

fn read_u8_or_zero(driver: &SysfsPath, raw: &Option<Vec<u8>>) -> (value: Result<u8, DriverError>)
    ensures
        value == or_zero_u8(spec_read_u8(driver@, raw_view(*raw))),
{
    match read_u8(driver, raw) {
        Ok(v) => Ok(v),
        Err(DriverError::DeviceNotFound) => Err(DriverError::DeviceNotFound),
        Err(_) => Ok(0),
    }
}

/// Prepares the write of a frame's colour map, as raw bytes.
pub fn write_rgb_map(driver: &SysfsPath, map: Vec<u8>) -> (write: Result<SysfsWrite, DriverError>)
    ensures
        write_view(write) == spec_write(driver@, KEY_COLOUR_MAP@, map@),
{
    write_to_sysfs(driver, KEY_COLOUR_MAP, map)
}

/// Prepares the write of the flag that makes the firmware show the colour
/// map it was sent.
pub fn write_custom_mode_frame(driver: &SysfsPath, custom_mode_frame: u8) -> (write: Result<
    SysfsWrite,
    DriverError,
>)
    ensures
        write_view(write) == spec_write(
            driver@,
            CUSTOM_FRAME_MODE@,
            decimal_text(custom_mode_frame as int),
        ),
{
    write_to_sysfs(driver, CUSTOM_FRAME_MODE, format_u8(custom_mode_frame))
}

/// Prepares the write of the backlight's brightness.
pub fn write_brightness(driver: &SysfsPath, lvl: u8) -> (write: Result<SysfsWrite, DriverError>)
    ensures
        write_view(write) == spec_write(driver@, BRIGHTNESS@, decimal_text(lvl as int)),
{
    write_to_sysfs(driver, BRIGHTNESS, format_u8(lvl))
}

/// The backlight's brightness, from what was found in its file.
pub fn read_brightness(driver: &SysfsPath, raw: &Option<Vec<u8>>) -> (value: Result<
    u8,
    DriverError,
>)
    ensures
        value == or_zero_u8(spec_read_u8(driver@, raw_view(*raw))),
{
    read_u8_or_zero(driver, raw)
}

/// Prepares the write of the power mode.
pub fn write_power(driver: &SysfsPath, mode: u8) -> (write: Result<SysfsWrite, DriverError>)
    ensures
        write_view(write) == spec_write(driver@, POWER_MODE@, decimal_text(mode as int)),
{
    write_to_sysfs(driver, POWER_MODE, format_u8(mode))
}

/// Prepares the write of the CPU boost level.
pub fn write_cpu_boost(driver: &SysfsPath, cpu_boost: u8) -> (write: Result<
    SysfsWrite,
    DriverError,
>)
    ensures
        write_view(write) == spec_write(driver@, CPU_BOOST@, decimal_text(cpu_boost as int)),
{
    write_to_sysfs(driver, CPU_BOOST, format_u8(cpu_boost))
}

/// Prepares the write of the GPU boost level.
pub fn write_gpu_boost(driver: &SysfsPath, gpu_boost: u8) -> (write: Result<
    SysfsWrite,
    DriverError,
>)
    ensures
        write_view(write) == spec_write(driver@, GPU_BOOST@, decimal_text(gpu_boost as int)),
{
    write_to_sysfs(driver, GPU_BOOST, format_u8(gpu_boost))
}

/// Prepares the write of the logo light's state.
pub fn write_logo_state(driver: &SysfsPath, logo_state: u8) -> (write: Result<
    SysfsWrite,
    DriverError,
>)
    ensures
        write_view(write) == spec_write(driver@, LOGO_LED_STATE@, decimal_text(logo_state as int)),
{
    write_to_sysfs(driver, LOGO_LED_STATE, format_u8(logo_state))
}

/// The logo light's state, from what was found in its file.
pub fn read_logo_state(driver: &SysfsPath, raw: &Option<Vec<u8>>) -> (value: Result<
    u8,
    DriverError,
>)
    ensures
        value == or_zero_u8(spec_read_u8(driver@, raw_view(*raw))),
{
    read_u8_or_zero(driver, raw)
}

/// The power mode, from what was found in its file.
pub fn read_power(driver: &SysfsPath, raw: &Option<Vec<u8>>) -> (value: Result<u8, DriverError>)
    ensures
        value == or_zero_u8(spec_read_u8(driver@, raw_view(*raw))),
{
    read_u8_or_zero(driver, raw)
}

/// The CPU boost level, from what was found in its file.
pub fn read_cpu_boost(driver: &SysfsPath, raw: &Option<Vec<u8>>) -> (value: Result<
    u8,
    DriverError,
>)
    ensures
        value == or_zero_u8(spec_read_u8(driver@, raw_view(*raw))),
{
    read_u8_or_zero(driver, raw)
}

/// The GPU boost level, from what was found in its file.
pub fn read_gpu_boost(driver: &SysfsPath, raw: &Option<Vec<u8>>) -> (value: Result<
    u8,
    DriverError,
>)
    ensures
        value == or_zero_u8(spec_read_u8(driver@, raw_view(*raw))),
{
    read_u8_or_zero(driver, raw)
}

/// Prepares the write of the fan's speed: 0 leaves the fan to the firmware,
/// any other number is the speed to hold.
pub fn write_fan_rpm(driver: &SysfsPath, rpm: i32) -> (write: Result<SysfsWrite, DriverError>)
    ensures
        write_view(write) == spec_write(driver@, FAN_RPM@, decimal_text(rpm as int)),
{
    write_to_sysfs(driver, FAN_RPM, format_i32(rpm))
}

/// The fan's speed, from what was found in its file.
pub fn read_fan_rpm(driver: &SysfsPath, raw: &Option<Vec<u8>>) -> (value: Result<
    i32,
    DriverError,
>)
    ensures
        value == or_zero_i32(spec_read_i32(driver@, raw_view(*raw))),
{
    match read_i32(driver, raw) {
        Ok(v) => Ok(v),
        Err(DriverError::DeviceNotFound) => Err(DriverError::DeviceNotFound),
        Err(_) => Ok(0),
    }
}

/// What a write that was carried out amounts to: a failed one is an
/// [`DriverError::IoError`].
pub fn write_result(written: bool) -> (done: Result<(), DriverError>)
    ensures
        done == (if written {
            Ok::<(), DriverError>(())
        } else {
            Err::<(), DriverError>(DriverError::IoError)
        }),
{
    if written {
        Ok(())
    } else {
        Err(DriverError::IoError)
    }
}

/// The machine's power source, from what was found in
/// [`POWER_SUPPLY_FILE`] (`None` where the file could not be read).
pub fn read_power_source(raw: &Option<Vec<u8>>) -> (source: PowerSupply)
    ensures
        source == spec_power_source(raw_view(*raw)),
{
    match raw {
        Some(bytes) => {
            let len = trimmed_len(bytes.as_slice());
            let ghost text = trim_newlines(bytes@);
            if len == 1 && bytes[0] == 49 {
                assert(text =~= seq![49u8]);
                PowerSupply::AC
            } else if len == 1 && bytes[0] == 48 {
                assert(text =~= seq![48u8]);
                PowerSupply::BAT
            } else {
                assert(text != seq![49u8] && text != seq![48u8]) by {
                    if text.len() == 1 {
                        assert(text[0] == bytes@[0]);
                        assert(seq![49u8][0] == 49u8);
                        assert(seq![48u8][0] == 48u8);
                    } else {
                        assert(seq![49u8].len() == 1);
                        assert(seq![48u8].len() == 1);
                    }
                }
                PowerSupply::UNK
            }
        },
        None => PowerSupply::UNK,
    }
}

/// What is written for a number is read back as that number, with or
/// without a line feed after it: the file that a write of `lvl` or `rpm`
/// fills gives `lvl` or `rpm` again when it is read.
pub proof fn lemma_write_then_read(dir: Seq<char>, name: Seq<char>, lvl: u8, rpm: i32)
    ensures
        spec_write(Some(dir), name, decimal_text(lvl as int)) matches Ok(write) && spec_read_u8(
            Some(dir),
            Some(write.data),
        ) == Ok::<u8, DriverError>(lvl) && or_zero_u8(spec_read_u8(Some(dir), Some(write.data)))
            == Ok::<u8, DriverError>(lvl) && or_zero_u8(
            spec_read_u8(Some(dir), Some(write.data.push(10))),
        ) == Ok::<u8, DriverError>(lvl),
        spec_write(Some(dir), name, decimal_text(rpm as int)) matches Ok(write) && spec_read_i32(
            Some(dir),
            Some(write.data),
        ) == Ok::<i32, DriverError>(rpm) && or_zero_i32(spec_read_i32(Some(dir), Some(write.data)))
            == Ok::<i32, DriverError>(rpm) && or_zero_i32(
            spec_read_i32(Some(dir), Some(write.data.push(10))),
        ) == Ok::<i32, DriverError>(rpm),
{
    lemma_decimal_round_trip(lvl as int);
    lemma_decimal_round_trip(rpm as int);
}

/// Without an attribute directory every write and every read is refused
/// as [`DriverError::DeviceNotFound`], whatever is to be written and
/// whatever was found.
pub proof fn lemma_device_not_found(name: Seq<char>, data: Seq<u8>, raw: Option<Seq<u8>>)
    ensures
        spec_attribute_path(None, name) == Err::<Seq<char>, DriverError>(
            DriverError::DeviceNotFound,
        ),
        spec_write(None, name, data) == Err::<WriteView, DriverError>(DriverError::DeviceNotFound),
        spec_read_u8(None, raw) == Err::<u8, DriverError>(DriverError::DeviceNotFound),
        spec_read_i32(None, raw) == Err::<i32, DriverError>(DriverError::DeviceNotFound),
        or_zero_u8(spec_read_u8(None, raw)) == Err::<u8, DriverError>(DriverError::DeviceNotFound),
        or_zero_i32(spec_read_i32(None, raw)) == Err::<i32, DriverError>(
            DriverError::DeviceNotFound,
        ),
{
}

} // verus!
