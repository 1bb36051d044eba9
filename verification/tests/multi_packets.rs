use ekey::log::LogValue;
use ekey::multi::{DigitalInput, Key, Multi, UserStatus};
use ekey::{Action, DecodeError, FieldName, Finger};

#[test]
fn multi_test_parse() {
    let packet = "1_0003_JOSEF    _1_7_2_80156809150025_GAR _1_-"
        .parse::<Multi>()
        .unwrap();

    assert_eq!(packet.user_id(), 3);
    assert_eq!(packet.user_name(), Some("JOSEF"));
    assert_eq!(packet.user_staus(), Some(UserStatus::Active));
    assert_eq!(packet.finger(), Some(Finger::RightIndex));
    assert_eq!(packet.key(), Some(Key::Key2));
    assert_eq!(packet.finger_scanner_serial(), 80156809150025);
    assert_eq!(packet.finger_scanner_name(), "GAR");
    assert_eq!(packet.action(), Action::Open);
    assert_eq!(packet.input(), None);
}

#[test]
fn multi_other_separator_same_values() {
    let under = "1_0003_JOSEF    _1_7_2_80156809150025_GAR _1_-"
        .parse::<Multi>()
        .unwrap();
    let comma = "1,0003,JOSEF    ,1,7,2,80156809150025,GAR ,1,-"
        .parse::<Multi>()
        .unwrap();

    assert_eq!(under.user_id(), comma.user_id());
    assert_eq!(under.user_name(), comma.user_name());
    assert_eq!(under.user_staus(), comma.user_staus());
    assert_eq!(under.finger(), comma.finger());
    assert_eq!(under.key(), comma.key());
    assert_eq!(under.finger_scanner_serial(), comma.finger_scanner_serial());
    assert_eq!(under.finger_scanner_name(), comma.finger_scanner_name());
    assert_eq!(under.action(), comma.action());
    assert_eq!(under.input(), comma.input());
}

#[test]
fn multi_leading_sentinel_name_absent() {
    // Only the first character of the span decides absence.
    let packet = "1_0003_-ABCDEFGH_1_7_2_80156809150025_GAR _1_-"
        .parse::<Multi>()
        .unwrap();
    assert_eq!(packet.user_name(), None);
}

#[test]
fn multi_leading_sentinel_skips_class_check() {
    // Behind a leading sentinel even characters outside the text class are
    // consumed unchecked: the whole span is absent. Inherited quirk of the
    // wire format, kept as specified.
    let packet = "1_0003_-!!!???.._1_7_2_80156809150025_GAR _1_-"
        .parse::<Multi>()
        .unwrap();
    assert_eq!(packet.user_name(), None);
}

#[test]
fn multi_name_all_spaces_trims_to_empty() {
    let packet = "1_0003_         _1_7_2_80156809150025_GAR _1_-"
        .parse::<Multi>()
        .unwrap();
    assert_eq!(packet.user_name(), Some(""));
}

#[test]
fn multi_sentinel_optional_fields_absent() {
    let packet = "1_0003_JOSEF    _-_-_-_80156809150025_GAR _1_-"
        .parse::<Multi>()
        .unwrap();

    assert_eq!(packet.user_staus(), None);
    assert_eq!(packet.finger(), None);
    // The key field's sentinel reading denotes the pass key.
    assert_eq!(packet.key(), None);
    assert_eq!(packet.input(), None);
}

#[test]
fn multi_truncated_name_by_one() {
    let r = "1_0003_JOSEF   _1_7_2_80156809150025_GAR _1_-".parse::<Multi>();
    assert_eq!(r.unwrap_err(), DecodeError::MalformedField);
}

#[test]
fn multi_truncated_scanner_name_by_one() {
    let r = "1_0003_JOSEF    _1_7_2_80156809150025_GAR_1_-".parse::<Multi>();
    assert_eq!(r.unwrap_err(), DecodeError::MalformedField);
}

#[test]
fn multi_truncated_serial_by_one() {
    let r = "1_0003_JOSEF    _1_7_2_8015680915002_GAR _1_-".parse::<Multi>();
    assert_eq!(r.unwrap_err(), DecodeError::MalformedField);
}

#[test]
fn multi_truncated_last_field() {
    let r = "1_0003_JOSEF    _1_7_2_80156809150025_GAR _1_".parse::<Multi>();
    assert_eq!(r.unwrap_err(), DecodeError::TruncatedInput);
}

#[test]
fn multi_separator_mismatch() {
    let r = "1_0003_JOSEF    X1_7_2_80156809150025_GAR _1_-".parse::<Multi>();
    assert_eq!(r.unwrap_err(), DecodeError::MalformedSeparator);
}

#[test]
fn multi_unknown_status_code() {
    let r = "1_0003_JOSEF    _9_7_2_80156809150025_GAR _1_-".parse::<Multi>();
    assert_eq!(
        r.unwrap_err(),
        DecodeError::UnknownVariant(FieldName::UserStatus, '9')
    );
}

#[test]
fn multi_unknown_finger_code() {
    let r = "1_0003_JOSEF    _1_X_2_80156809150025_GAR _1_-".parse::<Multi>();
    assert_eq!(
        r.unwrap_err(),
        DecodeError::UnknownVariant(FieldName::Finger, 'X')
    );
}

#[test]
fn multi_unknown_key_code() {
    let r = "1_0003_JOSEF    _1_7_9_80156809150025_GAR _1_-".parse::<Multi>();
    assert_eq!(
        r.unwrap_err(),
        DecodeError::UnknownVariant(FieldName::Key, '9')
    );
}

#[test]
fn multi_unknown_action_code() {
    let r = "1_0003_JOSEF    _1_7_2_80156809150025_GAR _0_-".parse::<Multi>();
    assert_eq!(
        r.unwrap_err(),
        DecodeError::UnknownVariant(FieldName::Action, '0')
    );
}

#[test]
fn multi_unknown_input_code() {
    let r = "1_0003_JOSEF    _1_7_2_80156809150025_GAR _1_7".parse::<Multi>();
    assert_eq!(
        r.unwrap_err(),
        DecodeError::UnknownVariant(FieldName::DigitalInput, '7')
    );
}

#[test]
fn multi_trailing_character() {
    let r = "1_0003_JOSEF    _1_7_2_80156809150025_GAR _1_-!".parse::<Multi>();
    assert_eq!(r.unwrap_err(), DecodeError::TrailingData);
}

#[test]
fn multi_empty_input() {
    let r = "".parse::<Multi>();
    assert_eq!(r.unwrap_err(), DecodeError::TruncatedInput);
}

#[test]
fn multi_name_with_digits_and_asterisk() {
    let packet = "1_0003_A1*B2    _2_-_4_00000000000001_X9Y _8_4"
        .parse::<Multi>()
        .unwrap();

    assert_eq!(packet.user_name(), Some("A1*B2"));
    assert_eq!(packet.user_staus(), Some(UserStatus::Inactive));
    assert_eq!(packet.finger(), None);
    assert_eq!(packet.key(), Some(Key::Key4));
    assert_eq!(packet.finger_scanner_serial(), 1);
    assert_eq!(packet.finger_scanner_name(), "X9Y");
    assert_eq!(packet.action(), Action::DigitalInput);
    assert_eq!(packet.input(), Some(DigitalInput::Input4));
}

#[test]
fn multi_log_fields() {
    let packet = "1_0003_JOSEF    _1_7_2_80156809150025_GAR _1_-"
        .parse::<Multi>()
        .unwrap();
    let fields = packet.log_fields();

    let expected = vec![
        ("user_id".to_owned(), LogValue::Integer(3)),
        ("user_name".to_owned(), LogValue::Text("JOSEF".to_owned())),
        ("user_status".to_owned(), LogValue::Tag("active".to_owned())),
        ("finger".to_owned(), LogValue::Tag("right_index".to_owned())),
        ("key".to_owned(), LogValue::Tag("key2".to_owned())),
        (
            "finger_scanner_serial".to_owned(),
            LogValue::Integer(80156809150025),
        ),
        (
            "finger_scanner_name".to_owned(),
            LogValue::Text("GAR".to_owned()),
        ),
        ("action".to_owned(), LogValue::Tag("open".to_owned())),
        ("input".to_owned(), LogValue::Absent),
    ];
    assert_eq!(fields, expected);
}
