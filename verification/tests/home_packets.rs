use ekey::home::{Home, Relay};
use ekey::log::LogValue;
use ekey::tables::{CodeTable, FirmwareTables};
use ekey::{Action, DecodeError, FieldName, Finger};

#[test]
fn home_test_parse() {
    let packet = "1_0003_7_80156809150025_1_2".parse::<Home>().unwrap();

    assert_eq!(packet.user_id(), 3);
    assert_eq!(packet.finger(), Some(Finger::RightIndex));
    assert_eq!(packet.finger_scanner_serial(), 80156809150025);
    assert_eq!(packet.action(), Action::Open);
    assert_eq!(packet.relay(), Some(Relay::Relay2));
}

#[test]
fn home_other_separator_same_values() {
    let under = "1_0003_7_80156809150025_1_2".parse::<Home>().unwrap();
    let comma = "1,0003,7,80156809150025,1,2".parse::<Home>().unwrap();

    assert_eq!(under.user_id(), comma.user_id());
    assert_eq!(under.finger(), comma.finger());
    assert_eq!(under.finger_scanner_serial(), comma.finger_scanner_serial());
    assert_eq!(under.action(), comma.action());
    assert_eq!(under.relay(), comma.relay());
}

#[test]
fn home_sentinel_finger_and_relay_absent() {
    let packet = "1_0003_-_80156809150025_1_-".parse::<Home>().unwrap();

    assert_eq!(packet.finger(), None);
    assert_eq!(packet.relay(), None);
}

#[test]
fn home_truncated_user_id_digit() {
    let r = "1_003_7_80156809150025_1_2".parse::<Home>();
    assert_eq!(r.unwrap_err(), DecodeError::MalformedField);
}

#[test]
fn home_truncated_serial_digit() {
    let r = "1_0003_7_8015680915002_1_2".parse::<Home>();
    assert_eq!(r.unwrap_err(), DecodeError::MalformedField);
}

#[test]
fn home_truncated_last_field() {
    let r = "1_0003_7_80156809150025_1_".parse::<Home>();
    assert_eq!(r.unwrap_err(), DecodeError::TruncatedInput);
}

#[test]
fn home_empty_input() {
    let r = "".parse::<Home>();
    assert_eq!(r.unwrap_err(), DecodeError::TruncatedInput);
}

#[test]
fn home_bad_discriminator() {
    let r = "2_0003_7_80156809150025_1_2".parse::<Home>();
    assert_eq!(r.unwrap_err(), DecodeError::MalformedField);
}

#[test]
fn home_letter_in_user_id() {
    let r = "1_00a3_7_80156809150025_1_2".parse::<Home>();
    assert_eq!(r.unwrap_err(), DecodeError::MalformedField);
}

#[test]
fn home_separator_mismatch() {
    let r = "1_0003_7_80156809150025X1_2".parse::<Home>();
    assert_eq!(r.unwrap_err(), DecodeError::MalformedSeparator);
}

#[test]
fn home_unknown_finger_code() {
    let r = "1_0003_X_80156809150025_1_2".parse::<Home>();
    assert_eq!(
        r.unwrap_err(),
        DecodeError::UnknownVariant(FieldName::Finger, 'X')
    );
}

#[test]
fn home_unknown_action_code() {
    let r = "1_0003_7_80156809150025_z_2".parse::<Home>();
    assert_eq!(
        r.unwrap_err(),
        DecodeError::UnknownVariant(FieldName::Action, 'z')
    );
}

#[test]
fn home_sentinel_action_refused() {
    // The action field is required: the sentinel is no valid action code.
    let r = "1_0003_7_80156809150025_-_2".parse::<Home>();
    assert_eq!(
        r.unwrap_err(),
        DecodeError::UnknownVariant(FieldName::Action, '-')
    );
}

#[test]
fn home_unknown_relay_code() {
    let r = "1_0003_7_80156809150025_1_x".parse::<Home>();
    assert_eq!(
        r.unwrap_err(),
        DecodeError::UnknownVariant(FieldName::Relay, 'x')
    );
}

#[test]
fn home_trailing_character() {
    let r = "1_0003_7_80156809150025_1_2X".parse::<Home>();
    assert_eq!(r.unwrap_err(), DecodeError::TrailingData);
}

#[test]
fn home_largest_serial() {
    let packet = "1_9999_0_99999999999999_8_d".parse::<Home>().unwrap();

    assert_eq!(packet.user_id(), 9999);
    assert_eq!(packet.finger(), Some(Finger::RightLittle));
    assert_eq!(packet.finger_scanner_serial(), 99999999999999);
    assert_eq!(packet.action(), Action::DigitalInput);
    assert_eq!(packet.relay(), Some(Relay::DoubleRelay));
}

#[test]
fn home_custom_firmware_table() {
    // Another firmware revision may bind other codes: the active tables are
    // injected, not compiled in.
    let tables = FirmwareTables {
        finger: CodeTable::new(vec![('Z', Finger::Rfid)]),
        action: Action::standard_table(),
        relay: Relay::standard_table(),
        user_status: ekey::multi::UserStatus::standard_table(),
        key: ekey::multi::Key::standard_table(),
        input: ekey::multi::DigitalInput::standard_table(),
    };
    let packet = Home::decode("1_0003_Z_80156809150025_1_2", &tables).unwrap();
    assert_eq!(packet.finger(), Some(Finger::Rfid));

    // Under the standard tables the same packet is refused.
    let r = "1_0003_Z_80156809150025_1_2".parse::<Home>();
    assert_eq!(
        r.unwrap_err(),
        DecodeError::UnknownVariant(FieldName::Finger, 'Z')
    );
}

#[test]
fn home_log_fields() {
    let packet = "1_0003_7_80156809150025_1_2".parse::<Home>().unwrap();
    let fields = packet.log_fields();

    let expected = vec![
        ("user_id".to_owned(), LogValue::Integer(3)),
        ("finger".to_owned(), LogValue::Tag("right_index".to_owned())),
        (
            "finger_scanner_serial".to_owned(),
            LogValue::Integer(80156809150025),
        ),
        ("action".to_owned(), LogValue::Tag("open".to_owned())),
        ("relay".to_owned(), LogValue::Tag("relay2".to_owned())),
    ];
    assert_eq!(fields, expected);
}

#[test]
fn home_log_fields_absent() {
    let packet = "1_0003_-_80156809150025_1_-".parse::<Home>().unwrap();
    let fields = packet.log_fields();

    assert_eq!(fields[1], ("finger".to_owned(), LogValue::Absent));
    assert_eq!(fields[4], ("relay".to_owned(), LogValue::Absent));
}
