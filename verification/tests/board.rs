use razer_control::driver_sysfs::DriverError;
use razer_control::driver_sysfs::SysfsPath;
use razer_control::kbd::board::KeyColour;
use razer_control::kbd::board::KeyboardData;
use razer_control::kbd::board::PushStep;
use razer_control::kbd::board::KEYS;

fn device() -> SysfsPath {
    SysfsPath::resolve(&vec![String::from("0003:1532:0233.0001")])
}

#[test]
fn new_board_is_dark() {
    let board = KeyboardData::new();
    for pos in 0..KEYS {
        assert_eq!(board.get_key_at(pos), KeyColour { r: 0, g: 0, b: 0 });
    }
}

#[test]
fn set_key_changes_one_key_only() {
    let mut board = KeyboardData::new();
    board.set_key_at(17, KeyColour::new(1, 2, 3));
    for pos in 0..KEYS {
        let expected = if pos == 17 {
            KeyColour { r: 1, g: 2, b: 3 }
        } else {
            KeyColour { r: 0, g: 0, b: 0 }
        };
        assert_eq!(board.get_key_at(pos), expected);
    }
}

#[test]
fn first_and_last_key_can_be_set() {
    let mut board = KeyboardData::new();
    board.set_key_at(0, KeyColour::new(9, 8, 7));
    board.set_key_at(89, KeyColour::new(6, 5, 4));
    assert_eq!(board.get_key_at(0), KeyColour { r: 9, g: 8, b: 7 });
    assert_eq!(board.get_key_at(89), KeyColour { r: 6, g: 5, b: 4 });
}

#[test]
fn set_kbd_colour_paints_every_key() {
    let mut board = KeyboardData::new();
    board.set_key_at(3, KeyColour::new(1, 1, 1));
    board.set_kbd_colour(10, 20, 30);
    for pos in 0..KEYS {
        assert_eq!(board.get_key_at(pos), KeyColour { r: 10, g: 20, b: 30 });
    }
}

#[test]
fn state_bytes_are_rgb_in_key_order() {
    let mut board = KeyboardData::new();
    board.set_key_at(0, KeyColour::new(1, 2, 3));
    board.set_key_at(1, KeyColour::new(4, 5, 6));
    board.set_key_at(89, KeyColour::new(7, 8, 9));
    let bytes = board.get_curr_state();
    assert_eq!(bytes.len(), 270);
    assert_eq!(&bytes[0..6], &[1, 2, 3, 4, 5, 6]);
    assert_eq!(&bytes[6..9], &[0, 0, 0]);
    assert_eq!(&bytes[267..270], &[7, 8, 9]);
}

#[test]
fn push_writes_map_then_flag() {
    let laptop = device();
    let mut board = KeyboardData::new();
    board.set_kbd_colour(255, 0, 0);

    let step = PushStep::first();
    assert_eq!(step, PushStep::WriteMap);
    let map = board.push_to_hardware(&laptop, step).unwrap().unwrap();
    assert_eq!(
        map.path,
        "/sys/module/razercontrol/drivers/hid:razerctrl/0003:1532:0233.0001/key_colour_map"
    );
    assert_eq!(map.data, board.get_curr_state());
    assert_eq!(map.data.len(), 270);
    assert_eq!(&map.data[0..3], &[255, 0, 0]);

    let step = step.advance(true);
    assert_eq!(step, PushStep::ActivateCustomMode);
    let flag = board.push_to_hardware(&laptop, step).unwrap().unwrap();
    assert_eq!(
        flag.path,
        "/sys/module/razercontrol/drivers/hid:razerctrl/0003:1532:0233.0001/custom_frame_mode"
    );
    assert_eq!(flag.data, b"1".to_vec());

    let step = step.advance(true);
    assert_eq!(step, PushStep::Shown);
    assert_eq!(board.push_to_hardware(&laptop, step), Ok(None));
}

#[test]
fn push_stops_after_a_failed_map_write() {
    let laptop = device();
    let board = KeyboardData::new();
    let step = PushStep::first().advance(false);
    assert_eq!(step, PushStep::Failed);
    assert_eq!(board.push_to_hardware(&laptop, step), Err(DriverError::IoError));
    assert_eq!(step.advance(true), PushStep::Failed);
}

#[test]
fn push_fails_after_a_failed_flag_write() {
    let laptop = device();
    let board = KeyboardData::new();
    let step = PushStep::first().advance(true).advance(false);
    assert_eq!(step, PushStep::Failed);
    assert_eq!(board.push_to_hardware(&laptop, step), Err(DriverError::IoError));
}

#[test]
fn push_without_a_device_is_device_not_found() {
    let laptop = SysfsPath::missing();
    let board = KeyboardData::new();
    for step in [
        PushStep::WriteMap,
        PushStep::ActivateCustomMode,
        PushStep::Shown,
        PushStep::Failed,
    ] {
        assert_eq!(board.push_to_hardware(&laptop, step), Err(DriverError::DeviceNotFound));
    }
    assert_eq!(board.update_kbd(&laptop), Err(DriverError::DeviceNotFound));
    assert_eq!(board.update_custom_mode(&laptop), Err(DriverError::DeviceNotFound));
}

#[test]
fn update_kbd_and_custom_mode_prepare_the_two_writes() {
    let laptop = device();
    let mut board = KeyboardData::new();
    board.set_key_at(1, KeyColour::new(4, 5, 6));
    let map = board.update_kbd(&laptop).unwrap();
    assert_eq!(&map.data[3..6], &[4, 5, 6]);
    let flag = board.update_custom_mode(&laptop).unwrap();
    assert_eq!(flag.data, vec![b'1']);
}
