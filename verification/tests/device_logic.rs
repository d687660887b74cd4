use itgio_bridge::device::derive_pipe_paths;
use itgio_bridge::device::lights_line_to_bitmap;
use itgio_bridge::device::remaining_poll_delay;
use itgio_bridge::device::ButtonMonitor;
use itgio_bridge::itgio::confirm_light_transfer;
use itgio_bridge::itgio::interpret_button_report;
use itgio_bridge::itgio::judge_detach_outcome;
use itgio_bridge::itgio::le_bytes_to_u32;
use itgio_bridge::itgio::u32_to_le_bytes;
use itgio_bridge::itgio::DeviceIdentifier;
use itgio_bridge::itgio::ItgioBtnStatus;
use itgio_bridge::itgio::ItgioError;
use itgio_bridge::itgio::UsbError;
use itgio_bridge::sextetstream::frame_line;
use itgio_bridge::sextetstream::pipe_acquire_action;
use itgio_bridge::sextetstream::MkfifoOutcome;
use itgio_bridge::sextetstream::PipeAction;

#[test]
fn all_low_raw_report_means_nothing_pressed() {
    // The hardware reports low-active: an all-ones raw report is "no
    // button pressed" and must invert to zero.
    let report = vec![0xFF, 0xFF, 0xFF, 0xFF];
    assert_eq!(interpret_button_report(&report, 4), Ok(ItgioBtnStatus(0)));
}

#[test]
fn raw_report_is_inverted_little_endian() {
    let report = vec![0xFD, 0xFF, 0xFF, 0xFF];
    assert_eq!(interpret_button_report(&report, 4), Ok(ItgioBtnStatus(0x0000_0002)));
    let report = vec![0x78, 0x56, 0x34, 0x12];
    assert_eq!(interpret_button_report(&report, 4), Ok(ItgioBtnStatus(!0x1234_5678u32)));
}

#[test]
fn short_button_transfer_is_rejected() {
    // A control transfer that moved 3 bytes instead of 4 fails without
    // producing a state.
    let report = vec![0xFF, 0xFF, 0xFF, 0x00];
    assert_eq!(interpret_button_report(&report, 3), Err(ItgioError::TransferLength(3)));
    assert_eq!(interpret_button_report(&report, 0), Err(ItgioError::TransferLength(0)));
}

#[test]
fn light_transfer_length_is_checked() {
    assert_eq!(confirm_light_transfer(4), Ok(()));
    assert_eq!(confirm_light_transfer(2), Err(ItgioError::TransferLength(2)));
}

#[test]
fn le_bytes_round_trip() {
    assert_eq!(u32_to_le_bytes(0x1234_5678), vec![0x78, 0x56, 0x34, 0x12]);
    assert_eq!(le_bytes_to_u32(&vec![0x78, 0x56, 0x34, 0x12]), 0x1234_5678);
    for x in [0u32, 1, 0xFFFF_FFFF, 0x8000_0001, 0xDEAD_BEEF] {
        assert_eq!(le_bytes_to_u32(&u32_to_le_bytes(x)), x);
    }
}

#[test]
fn monitor_emits_only_on_change() {
    // The device reports 0x00000000, then 0x00000002 (hardware bit 1):
    // one line goes out, carrying the raw sextet 0b000010 behind the
    // printable transform.
    let mut monitor = ButtonMonitor::new();
    assert_eq!(monitor.observe(ItgioBtnStatus(0)), None);
    let line = monitor.observe(ItgioBtnStatus(0x0000_0002)).expect("a change must emit");
    assert_eq!(line.len(), 1);
    assert_eq!(line[0] & 0x3F, 0b000010);
    assert_eq!(monitor.observe(ItgioBtnStatus(0x0000_0002)), None);
    assert_eq!(monitor.observe(ItgioBtnStatus(0)), Some(Vec::new()));
}

#[test]
fn lights_line_is_stripped_and_decoded() {
    // Host writes b"\x02\n": byte 0 bit 1 is stream index 1, which the
    // fixed table wires to hardware bit 10; the terminator contributes
    // nothing.
    assert_eq!(lights_line_to_bitmap(&[0x02, 0x0A]), 1 << 10);
    assert_eq!(lights_line_to_bitmap(&[0x02]), 1 << 10);
    assert_eq!(lights_line_to_bitmap(&[0x0A]), 0);
    assert_eq!(lights_line_to_bitmap(&[]), 0);
}

#[test]
fn poll_delay_clamps_to_zero() {
    assert_eq!(remaining_poll_delay(0), 20);
    assert_eq!(remaining_poll_delay(5), 15);
    assert_eq!(remaining_poll_delay(20), 0);
    assert_eq!(remaining_poll_delay(1000), 0);
}

#[test]
fn pipe_paths_use_the_two_suffixes() {
    let (lights, buttons) = derive_pipe_paths("/opt/itgio_0");
    assert_eq!(lights, "/opt/itgio_0-lights".to_string());
    assert_eq!(buttons, "/opt/itgio_0-buttons".to_string());
}

#[test]
fn known_identifiers_are_the_three_models() {
    for pid in [0x1502u16, 0x1582, 0x1584] {
        assert!(DeviceIdentifier { vid: 0x07C0, pid }.is_known());
    }
    assert!(!DeviceIdentifier { vid: 0x07C0, pid: 0x1585 }.is_known());
    assert!(!DeviceIdentifier { vid: 0x0000, pid: 0x1502 }.is_known());
    assert!(!DeviceIdentifier { vid: 0, pid: 0 }.is_known());
}

#[test]
fn existing_regular_file_is_a_path_conflict() {
    // A path occupied by something that is not a FIFO must fail with a
    // conflict, never be truncated or overwritten.
    assert_eq!(
        pipe_acquire_action(MkfifoOutcome::AlreadyExists, false),
        PipeAction::FailConflict
    );
    assert_eq!(pipe_acquire_action(MkfifoOutcome::AlreadyExists, true), PipeAction::OpenPipe);
    assert_eq!(pipe_acquire_action(MkfifoOutcome::Created, false), PipeAction::OpenPipe);
    assert_eq!(pipe_acquire_action(MkfifoOutcome::Failed, false), PipeAction::FailOther);
}

#[test]
fn framed_line_ends_with_line_feed() {
    assert_eq!(frame_line(&[0x41, 0x42]), vec![0x41, 0x42, 0x0A]);
    assert_eq!(frame_line(&[]), vec![0x0A]);
}

#[test]
fn detach_outcomes_fatal_and_benign() {
    assert_eq!(judge_detach_outcome(Ok(())), Ok(()));
    assert_eq!(judge_detach_outcome(Err(UsbError::NotFound)), Ok(()));
    assert_eq!(judge_detach_outcome(Err(UsbError::InvalidParam)), Ok(()));
    assert_eq!(judge_detach_outcome(Err(UsbError::NoDevice)), Ok(()));
    assert_eq!(
        judge_detach_outcome(Err(UsbError::NotSupported)),
        Err(ItgioError::Usb(UsbError::NotSupported))
    );
    assert_eq!(
        judge_detach_outcome(Err(UsbError::Other)),
        Err(ItgioError::Usb(UsbError::Other))
    );
}
