use c_hjkl::kbd::fault::{Fault, OPEN_FAILED};

#[test]
fn failed_open_is_a_fault() {
    assert_eq!(OPEN_FAILED, -1);
    assert_eq!(Fault::on_open(-1), Some(Fault::DeviceOpen));
    assert!(Fault::DeviceOpen.is_fatal());
}

#[test]
fn descriptor_is_no_fault() {
    assert_eq!(Fault::on_open(0), None);
    assert_eq!(Fault::on_open(3), None);
    assert_eq!(Fault::on_open(i32::MAX), None);
    assert_eq!(Fault::on_open(-2), None);
}

#[test]
fn only_a_refused_grab_is_survived() {
    assert!(Fault::DeviceOpen.is_fatal());
    assert!(Fault::SinkCreate.is_fatal());
    assert!(Fault::PartialRead.is_fatal());
    assert!(Fault::SinkWrite.is_fatal());
    assert!(!Fault::Grab.is_fatal());
}

#[test]
fn message_names_operation_and_device() {
    let path = "/dev/input/event3";
    assert_eq!(Fault::DeviceOpen.message(path), "Cannot open input device: /dev/input/event3");
    assert_eq!(Fault::SinkCreate.message(path), "Cannot create output device: /dev/input/event3");
    assert_eq!(Fault::PartialRead.message(path), "Read a partial event: /dev/input/event3");
    assert_eq!(Fault::SinkWrite.message(path), "Cannot write to output device: /dev/input/event3");
    assert_eq!(Fault::Grab.message(path), "Cannot grab input device: /dev/input/event3");
}

#[test]
fn message_with_empty_path() {
    assert_eq!(Fault::PartialRead.message(""), "Read a partial event: ");
}

#[test]
fn message_with_wide_characters() {
    assert_eq!(Fault::DeviceOpen.message("/dev/키보드"), "Cannot open input device: /dev/키보드");
}
