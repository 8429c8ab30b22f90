use gecko::wiimote::{eeprom_calibration, ReportMode, WiimoteState, BTN_A, BTN_B};

#[test]
fn core_button_report_encodes_a_press_and_release() {
    let mut wiimote = WiimoteState::default();

    assert!(wiimote.set_buttons(BTN_A));
    assert_eq!(wiimote.make_input_report(), [0xA1, 0x30, 0x00, 0x08]);

    assert!(wiimote.set_buttons(0));
    assert_eq!(wiimote.make_input_report(), [0xA1, 0x30, 0x00, 0x00]);
}

#[test]
fn data_reporting_mode_selects_extended_minimal_reports() {
    let mut wiimote = WiimoteState::default();

    assert!(wiimote.set_buttons(BTN_A));
    let acks = wiimote.handle_output_report(&[0xA2, 0x12, 0x04, 0x31]);
    assert_eq!(acks, vec![vec![0xA1, 0x22, 0x00, 0x08, 0x12, 0x00]]);
    assert!(wiimote.continuous());
    assert_eq!(wiimote.make_input_report(), [0xA1, 0x31, 0x00, 0x08, 0x80, 0x80, 0xB3]);

    let acks = wiimote.handle_output_report(&[0xA2, 0x12, 0x00, 0x33]);
    assert_eq!(acks, vec![vec![0xA1, 0x22, 0x00, 0x08, 0x12, 0x00]]);
    let mut expected = vec![0xA1, 0x33, 0x00, 0x08, 0x80, 0x80, 0xB3];
    expected.extend_from_slice(&[0xFF; 12]);
    assert_eq!(wiimote.make_input_report(), expected);
}

#[test]
fn read_memory_returns_chunked_calibration_data() {
    let mut wiimote = WiimoteState::default();
    let reports = wiimote.handle_output_report(&[0xA2, 0x17, 0x00, 0x00, 0x00, 0x16, 0x00, 0x10]);
    assert_eq!(reports.len(), 1);
    let r = &reports[0];
    assert_eq!(&r[0..2], &[0xA1, 0x21]);
    assert_eq!(r[4], 0xF0); // 16 bytes - 1 = 0x0F, shifted into upper nibble
    assert_eq!(&r[5..7], &[0x00, 0x16]);
    assert_eq!(&r[7..23], &eeprom_calibration()[22..38]);
}

#[test]
fn unsupported_report_mode_is_rejected_and_kept_at_previous() {
    let mut wiimote = WiimoteState::default();
    // Pin a known mode first.
    wiimote.handle_output_report(&[0xA2, 0x12, 0x00, 0x31]);
    assert_eq!(wiimote.report_mode(), ReportMode::CoreAccel);
    // Reject unknown mode 0x3D and stay on 0x31.
    wiimote.handle_output_report(&[0xA2, 0x12, 0x00, 0x3D]);
    assert_eq!(wiimote.report_mode(), ReportMode::CoreAccel);
}

#[test]
fn set_buttons_reports_no_change_when_repeated() {
    let mut wiimote = WiimoteState::default();
    assert!(wiimote.set_buttons(BTN_B));
    assert!(!wiimote.set_buttons(BTN_B));
}

#[test]
fn status_request_reports_leds_and_extension() {
    let mut wiimote = WiimoteState::default();
    let acks = wiimote.handle_output_report(&[0xA2, 0x11, 0x30]);
    assert_eq!(acks, vec![vec![0xA1, 0x22, 0x00, 0x00, 0x11, 0x00]]);
    let reports = wiimote.handle_output_report(&[0xA2, 0x15, 0x00]);
    assert_eq!(reports, vec![vec![0xA1, 0x20, 0x00, 0x00, 0x32, 0x00, 0x00, 0x64]]);
}

#[test]
fn short_or_foreign_packets_get_no_reply() {
    let mut wiimote = WiimoteState::default();
    assert!(wiimote.handle_output_report(&[0xA2]).is_empty());
    assert!(wiimote.handle_output_report(&[0xA1, 0x15]).is_empty());
    assert!(wiimote.handle_output_report(&[0xA2, 0x42]).is_empty());
    assert!(wiimote.handle_output_report(&[0xA2, 0x12, 0x00]).is_empty());
}

#[test]
fn write_then_read_memory_returns_written_bytes() {
    let mut wiimote = WiimoteState::default();
    let acks = wiimote.handle_output_report(&[0xA2, 0x16, 0x00, 0x00, 0x01, 0x00, 0x03, 0x11, 0x22, 0x33]);
    assert_eq!(acks, vec![vec![0xA1, 0x22, 0x00, 0x00, 0x16, 0x00]]);
    let reports = wiimote.handle_output_report(&[0xA2, 0x17, 0x00, 0x00, 0x01, 0x00, 0x00, 0x03]);
    assert_eq!(reports.len(), 1);
    assert_eq!(reports[0][4], 0x20);
    assert_eq!(&reports[0][7..10], &[0x11, 0x22, 0x33]);
    assert_eq!(&reports[0][10..23], &[0u8; 13]);
}

#[test]
fn read_past_eeprom_end_reports_error() {
    let mut wiimote = WiimoteState::default();
    let reports = wiimote.handle_output_report(&[0xA2, 0x17, 0x00, 0x00, 0x16, 0xF8, 0x00, 0x10]);
    assert_eq!(reports.len(), 1);
    assert_eq!(reports[0][4], 0x08);
    assert_eq!(&reports[0][5..7], &[0x16, 0xF8]);
}

#[test]
fn register_read_returns_nunchuk_id_and_stops_at_end() {
    let mut wiimote = WiimoteState::default();
    let reports = wiimote.handle_output_report(&[0xA2, 0x17, 0x04, 0xA4, 0x00, 0xFA, 0x00, 0x10]);
    assert_eq!(reports.len(), 1);
    assert_eq!(reports[0][4], 0x08);
    let reports = wiimote.handle_output_report(&[0xA2, 0x17, 0x04, 0xA4, 0x00, 0xFA, 0x00, 0x06]);
    assert_eq!(reports.len(), 1);
    assert_eq!(reports[0][4], 0x50);
    assert_eq!(&reports[0][7..13], &[0x00, 0x00, 0xA4, 0x20, 0x00, 0x00]);
}

#[test]
fn nunchuk_calibration_checksum_matches_sum() {
    let (a, b) = gecko::wiimote::compute_calibration_checksum(&[0x01, 0x02, 0xFF]);
    assert_eq!(a, 0x02u8.wrapping_add(0x55));
    assert_eq!(b, 0x02u8.wrapping_add(0xAA));
}

#[test]
fn nunchuk_extension_report_inverts_buttons() {
    let mut wiimote = WiimoteState::default();
    wiimote.handle_output_report(&[0xA2, 0x12, 0x00, 0x32]);
    assert!(wiimote.set_nunchuk(0x01, 0x10, 0x20));
    let r = wiimote.make_input_report();
    assert_eq!(r, vec![0xA1, 0x32, 0x00, 0x00, 0x10, 0x20, 0x80, 0x80, 0xB3, 0x02, 0xFF, 0xFF]);
}
