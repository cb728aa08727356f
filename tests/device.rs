use whisper_ware::device::{
    check_formats, device_by_name, resolve_device, resolve_devices, selected_position, DeviceChoice, Role,
    StreamFormat,
};
use whisper_ware::error::{ConfigIssue, ErrorKind};

fn names() -> Vec<Option<String>> {
    vec![
        Some(String::from("Speakers (Realtek High Definition Audio)")),
        None,
        Some(String::from("Headphones (USB Audio Device)")),
        Some(String::from("Line Out (USB Audio Device)")),
    ]
}

#[test]
fn default_selection_binds_to_platform_default() {
    let sel = String::from("Default");
    assert_eq!(resolve_device(&sel, Role::Capture, true, &names()), Ok(DeviceChoice::PlatformDefault));
    assert!(matches!(
        resolve_device(&sel, Role::Capture, false, &names()),
        Err(ErrorKind::NoInputDevice)
    ));
    assert!(matches!(
        resolve_device(&sel, Role::Render, false, &names()),
        Err(ErrorKind::NoOutputDevice)
    ));
}

#[test]
fn selection_binds_to_first_name_containing_it() {
    let sel = String::from("USB Audio");
    assert_eq!(resolve_device(&sel, Role::Render, true, &names()), Ok(DeviceChoice::Listed(2)));
    let sel = String::from("Speakers");
    assert_eq!(resolve_device(&sel, Role::Render, false, &names()), Ok(DeviceChoice::Listed(0)));
    let sel = String::from("Line Out (USB Audio Device)");
    assert_eq!(resolve_device(&sel, Role::Render, true, &names()), Ok(DeviceChoice::Listed(3)));
}

#[test]
fn unmatched_selection_is_device_absence() {
    let sel = String::from("Bluetooth");
    assert!(matches!(
        resolve_device(&sel, Role::Render, true, &names()),
        Err(ErrorKind::NoOutputDevice)
    ));
    assert!(matches!(
        resolve_device(&sel, Role::Capture, true, &Vec::new()),
        Err(ErrorKind::NoInputDevice)
    ));
}

#[test]
fn name_matching_is_by_substring() {
    let name = Some(String::from("Mikrofon (Gerät)"));
    assert!(device_by_name(&name, &String::from("Gerät")));
    assert!(device_by_name(&name, &String::from("")));
    assert!(!device_by_name(&name, &String::from("Gerät) x")));
    assert!(!device_by_name(&None, &String::from("")));
}

#[test]
fn differing_sample_rates_are_rejected() {
    let capture = StreamFormat { sample_rate: 48000, channels: 2 };
    let render = StreamFormat { sample_rate: 44100, channels: 2 };
    assert!(matches!(
        check_formats(capture, render),
        Err(ErrorKind::InvalidConfiguration(ConfigIssue::SampleRateMismatch))
    ));
}

#[test]
fn non_stereo_is_rejected() {
    let capture = StreamFormat { sample_rate: 48000, channels: 1 };
    let render = StreamFormat { sample_rate: 48000, channels: 2 };
    assert!(matches!(
        check_formats(capture, render),
        Err(ErrorKind::InvalidConfiguration(ConfigIssue::NotStereo))
    ));
    let render = StreamFormat { sample_rate: 48000, channels: 6 };
    let capture = StreamFormat { sample_rate: 48000, channels: 2 };
    assert!(matches!(
        check_formats(capture, render),
        Err(ErrorKind::InvalidConfiguration(ConfigIssue::NotStereo))
    ));
}

#[test]
fn matching_stereo_pair_is_accepted() {
    let f = StreamFormat { sample_rate: 96000, channels: 2 };
    assert_eq!(check_formats(f, f), Ok(96000));
}

#[test]
fn selected_position_is_last_equal_entry() {
    let list = vec![String::from("A"), String::from("B"), String::from("A")];
    assert_eq!(selected_position(&list, &String::from("A")), Some(2));
    assert_eq!(selected_position(&list, &String::from("B")), Some(1));
    assert_eq!(selected_position(&list, &String::from("C")), None);
}

#[test]
fn pair_resolution_reports_input_absence_first() {
    let missing = String::from("Nothing like this");
    let dflt = String::from("Default");
    assert!(matches!(
        resolve_devices(&missing, true, &names(), &missing, true, &names()),
        Err(ErrorKind::NoInputDevice)
    ));
    assert!(matches!(
        resolve_devices(&dflt, true, &names(), &missing, true, &names()),
        Err(ErrorKind::NoOutputDevice)
    ));
    assert_eq!(
        resolve_devices(&dflt, true, &names(), &String::from("Line"), false, &names()),
        Ok((DeviceChoice::PlatformDefault, DeviceChoice::Listed(3)))
    );
}
