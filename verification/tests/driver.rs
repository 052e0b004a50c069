use razer_control::driver_sysfs::attribute_path;
use razer_control::driver_sysfs::get_path;
use razer_control::driver_sysfs::read_brightness;
use razer_control::driver_sysfs::read_cpu_boost;
use razer_control::driver_sysfs::read_fan_rpm;
use razer_control::driver_sysfs::read_gpu_boost;
use razer_control::driver_sysfs::read_i32;
use razer_control::driver_sysfs::read_logo_state;
use razer_control::driver_sysfs::read_power;
use razer_control::driver_sysfs::read_power_source;
use razer_control::driver_sysfs::read_u8;
use razer_control::driver_sysfs::write_brightness;
use razer_control::driver_sysfs::write_cpu_boost;
use razer_control::driver_sysfs::write_custom_mode_frame;
use razer_control::driver_sysfs::write_fan_rpm;
use razer_control::driver_sysfs::write_gpu_boost;
use razer_control::driver_sysfs::write_logo_state;
use razer_control::driver_sysfs::write_power;
use razer_control::driver_sysfs::write_result;
use razer_control::driver_sysfs::write_rgb_map;
use razer_control::driver_sysfs::DriverError;
use razer_control::driver_sysfs::PowerSupply;
use razer_control::driver_sysfs::SysfsPath;
use razer_control::driver_sysfs::SysfsWrite;
use razer_control::driver_sysfs::DRIVER_DIR;
use razer_control::driver_sysfs::POWER_SUPPLY_FILE;

const DEVICE: &str = "/sys/module/razercontrol/drivers/hid:razerctrl/0003:1532:0233.0001";

fn device() -> SysfsPath {
    SysfsPath::resolve(&vec![String::from("0003:1532:0233.0001")])
}

fn raw(text: &str) -> Option<Vec<u8>> {
    Some(text.as_bytes().to_vec())
}

fn write_to(name: &str, data: &str) -> Result<SysfsWrite, DriverError> {
    Ok(SysfsWrite { path: format!("{}/{}", DEVICE, name), data: data.as_bytes().to_vec() })
}

#[test]
fn paths_are_the_drivers() {
    assert_eq!(DRIVER_DIR, "/sys/module/razercontrol/drivers/hid:razerctrl");
    assert_eq!(POWER_SUPPLY_FILE, "/sys/class/power_supply/AC0/online");
}

#[test]
fn resolve_takes_the_first_entry_with_the_prefix() {
    let entries = vec![
        String::from("bind"),
        String::from("00"),
        String::from("0003:1532:0233.0001"),
        String::from("0004:1532:0233.0002"),
        String::from("uevent"),
    ];
    let driver = SysfsPath::resolve(&entries);
    assert!(driver.is_found());
    assert_eq!(get_path(&driver), Some(String::from(DEVICE)));
}

#[test]
fn resolve_accepts_the_bare_prefix() {
    let driver = SysfsPath::resolve(&vec![String::from("000")]);
    assert_eq!(
        get_path(&driver),
        Some(String::from("/sys/module/razercontrol/drivers/hid:razerctrl/000"))
    );
}

#[test]
fn resolve_without_a_device_finds_nothing() {
    let none = SysfsPath::resolve(&vec![]);
    assert!(!none.is_found());
    assert_eq!(get_path(&none), None);
    let others = SysfsPath::resolve(&vec![
        String::from("bind"),
        String::from("00"),
        String::from("1000"),
        String::from("a000"),
        String::from(""),
    ]);
    assert_eq!(get_path(&others), None);
    assert_eq!(get_path(&SysfsPath::missing()), None);
}

#[test]
fn attribute_path_joins_directory_and_name() {
    assert_eq!(attribute_path(&device(), "fan_rpm"), Ok(format!("{}/fan_rpm", DEVICE)));
    assert_eq!(
        attribute_path(&SysfsPath::missing(), "fan_rpm"),
        Err(DriverError::DeviceNotFound)
    );
}

#[test]
fn write_brightness_then_read_brightness_gives_the_value() {
    let driver = device();
    let write = write_brightness(&driver, 50).unwrap();
    assert_eq!(write.path, format!("{}/brightness", DEVICE));
    assert_eq!(write.data, b"50".to_vec());
    assert_eq!(read_brightness(&driver, &Some(write.data.clone())), Ok(50));
    let mut with_line_feed = write.data;
    with_line_feed.push(b'\n');
    assert_eq!(read_brightness(&driver, &Some(with_line_feed)), Ok(50));
}

#[test]
fn every_value_written_is_read_back() {
    let driver = device();
    for v in 0..=255u8 {
        let write = write_power(&driver, v).unwrap();
        assert_eq!(read_power(&driver, &Some(write.data)), Ok(v));
    }
    for rpm in [0, 1, 3500, 5000, -1, i32::MAX, i32::MIN] {
        let write = write_fan_rpm(&driver, rpm).unwrap();
        assert_eq!(read_fan_rpm(&driver, &Some(write.data)), Ok(rpm));
    }
}

#[test]
fn each_write_goes_to_its_own_file() {
    let driver = device();
    assert_eq!(write_brightness(&driver, 100), write_to("brightness", "100"));
    assert_eq!(write_power(&driver, 4), write_to("power_mode", "4"));
    assert_eq!(write_cpu_boost(&driver, 3), write_to("cpu_boost", "3"));
    assert_eq!(write_gpu_boost(&driver, 2), write_to("gpu_boost", "2"));
    assert_eq!(write_logo_state(&driver, 1), write_to("logo_led_state", "1"));
    assert_eq!(write_fan_rpm(&driver, 0), write_to("fan_rpm", "0"));
    assert_eq!(write_fan_rpm(&driver, 5000), write_to("fan_rpm", "5000"));
    assert_eq!(write_fan_rpm(&driver, -3), write_to("fan_rpm", "-3"));
    assert_eq!(write_custom_mode_frame(&driver, 1), write_to("custom_frame_mode", "1"));
    assert_eq!(write_custom_mode_frame(&driver, 0), write_to("custom_frame_mode", "0"));
}

#[test]
fn rgb_map_is_written_as_raw_bytes() {
    let driver = device();
    let map: Vec<u8> = vec![0, 255, 10, 13, 48];
    let write = write_rgb_map(&driver, map.clone()).unwrap();
    assert_eq!(write.path, format!("{}/key_colour_map", DEVICE));
    assert_eq!(write.data, map);
}

#[test]
fn without_a_device_every_accessor_is_device_not_found() {
    let driver = SysfsPath::missing();
    let found = raw("50\n");
    let not_found = Err(DriverError::DeviceNotFound);
    assert_eq!(write_rgb_map(&driver, vec![1, 2, 3]), not_found);
    assert_eq!(write_custom_mode_frame(&driver, 1), not_found);
    assert_eq!(write_brightness(&driver, 50), not_found);
    assert_eq!(write_power(&driver, 1), not_found);
    assert_eq!(write_cpu_boost(&driver, 1), not_found);
    assert_eq!(write_gpu_boost(&driver, 1), not_found);
    assert_eq!(write_logo_state(&driver, 1), not_found);
    assert_eq!(write_fan_rpm(&driver, 5000), not_found);
    assert_eq!(read_brightness(&driver, &found), Err(DriverError::DeviceNotFound));
    assert_eq!(read_logo_state(&driver, &found), Err(DriverError::DeviceNotFound));
    assert_eq!(read_power(&driver, &found), Err(DriverError::DeviceNotFound));
    assert_eq!(read_cpu_boost(&driver, &found), Err(DriverError::DeviceNotFound));
    assert_eq!(read_gpu_boost(&driver, &found), Err(DriverError::DeviceNotFound));
    assert_eq!(read_fan_rpm(&driver, &found), Err(DriverError::DeviceNotFound));
    assert_eq!(read_brightness(&driver, &None), Err(DriverError::DeviceNotFound));
    assert_eq!(read_u8(&driver, &found), Err(DriverError::DeviceNotFound));
    assert_eq!(read_i32(&driver, &None), Err(DriverError::DeviceNotFound));
}

#[test]
fn reads_trim_line_feeds_and_parse() {
    let driver = device();
    assert_eq!(read_brightness(&driver, &raw("75\n")), Ok(75));
    assert_eq!(read_logo_state(&driver, &raw("2\n")), Ok(2));
    assert_eq!(read_power(&driver, &raw("4")), Ok(4));
    assert_eq!(read_cpu_boost(&driver, &raw("3\n\n")), Ok(3));
    assert_eq!(read_gpu_boost(&driver, &raw("1\n")), Ok(1));
    assert_eq!(read_fan_rpm(&driver, &raw("4400\n")), Ok(4400));
    assert_eq!(read_fan_rpm(&driver, &raw("0\n")), Ok(0));
    assert_eq!(read_fan_rpm(&driver, &raw("-20\n")), Ok(-20));
}

#[test]
fn a_read_that_fails_gives_zero() {
    let driver = device();
    assert_eq!(read_brightness(&driver, &None), Ok(0));
    assert_eq!(read_brightness(&driver, &raw("")), Ok(0));
    assert_eq!(read_brightness(&driver, &raw("\n")), Ok(0));
    assert_eq!(read_brightness(&driver, &raw("bright")), Ok(0));
    assert_eq!(read_brightness(&driver, &raw("300")), Ok(0));
    assert_eq!(read_brightness(&driver, &raw("50 \n")), Ok(0));
    assert_eq!(read_brightness(&driver, &Some(vec![0xff, 0xfe])), Ok(0));
    assert_eq!(read_logo_state(&driver, &None), Ok(0));
    assert_eq!(read_power(&driver, &raw("-1")), Ok(0));
    assert_eq!(read_cpu_boost(&driver, &raw("x")), Ok(0));
    assert_eq!(read_gpu_boost(&driver, &None), Ok(0));
    assert_eq!(read_fan_rpm(&driver, &None), Ok(0));
    assert_eq!(read_fan_rpm(&driver, &raw("fast")), Ok(0));
    assert_eq!(read_fan_rpm(&driver, &raw("99999999999")), Ok(0));
}

#[test]
fn strict_reads_tell_failures_apart() {
    let driver = device();
    assert_eq!(read_u8(&driver, &raw("0\n")), Ok(0));
    assert_eq!(read_u8(&driver, &raw("50\n")), Ok(50));
    assert_eq!(read_u8(&driver, &None), Err(DriverError::IoError));
    assert_eq!(read_u8(&driver, &raw("")), Err(DriverError::ParseError));
    assert_eq!(read_u8(&driver, &raw("256")), Err(DriverError::ParseError));
    assert_eq!(read_i32(&driver, &raw("-7\n")), Ok(-7));
    assert_eq!(read_i32(&driver, &None), Err(DriverError::IoError));
    assert_eq!(read_i32(&driver, &raw("7.5")), Err(DriverError::ParseError));
}

#[test]
fn write_result_maps_failure_to_io_error() {
    assert_eq!(write_result(true), Ok(()));
    assert_eq!(write_result(false), Err(DriverError::IoError));
}

#[test]
fn power_source_probe() {
    assert_eq!(read_power_source(&raw("1")), PowerSupply::AC);
    assert_eq!(read_power_source(&raw("1\n")), PowerSupply::AC);
    assert_eq!(read_power_source(&raw("1\n\n")), PowerSupply::AC);
    assert_eq!(read_power_source(&raw("0")), PowerSupply::BAT);
    assert_eq!(read_power_source(&raw("0\n")), PowerSupply::BAT);
    assert_eq!(read_power_source(&None), PowerSupply::UNK);
    assert_eq!(read_power_source(&raw("")), PowerSupply::UNK);
    assert_eq!(read_power_source(&raw("\n")), PowerSupply::UNK);
    assert_eq!(read_power_source(&raw("2\n")), PowerSupply::UNK);
    assert_eq!(read_power_source(&raw("11\n")), PowerSupply::UNK);
    assert_eq!(read_power_source(&raw("01\n")), PowerSupply::UNK);
    assert_eq!(read_power_source(&raw(" 1\n")), PowerSupply::UNK);
    assert_eq!(read_power_source(&raw("on\n")), PowerSupply::UNK);
    assert_eq!(read_power_source(&raw("\n1")), PowerSupply::UNK);
}

#[test]
fn power_source_tells_mains_from_battery() {
    assert_eq!(PowerSupply::AC.on_mains(), Some(true));
    assert_eq!(PowerSupply::BAT.on_mains(), Some(false));
    assert_eq!(PowerSupply::UNK.on_mains(), None);
    assert_eq!(read_power_source(&raw("1\n")).on_mains(), Some(true));
    assert_eq!(read_power_source(&None).on_mains(), None);
}
