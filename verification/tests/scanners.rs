use ekey::scan::{expect_separator, scan_char};
use ekey::tables::CodeTable;
use ekey::{alphanumeric, alphanumeric_n, digit, digit_n, Action, DecodeError, Finger};

#[test]
fn scan_char_takes_any_character() {
    assert_eq!(scan_char("a_", 0), Ok('a'));
    assert_eq!(scan_char("a_", 1), Ok('_'));
    assert_eq!(scan_char("a_", 2), Err(DecodeError::TruncatedInput));
}

#[test]
fn expect_separator_matches_resolved_character() {
    assert_eq!(expect_separator("a_b", 1, '_'), Ok(2));
    assert_eq!(
        expect_separator("a_b", 1, ','),
        Err(DecodeError::MalformedSeparator)
    );
    assert_eq!(
        expect_separator("a_b", 3, '_'),
        Err(DecodeError::TruncatedInput)
    );
}

#[test]
fn digit_accepts_and_refuses() {
    assert_eq!(digit("4x", 0), Ok('4'));
    assert_eq!(digit("4x", 1), Err(DecodeError::MalformedField));
    assert_eq!(digit("4x", 2), Err(DecodeError::TruncatedInput));
}

#[test]
fn alphanumeric_accepts_class() {
    assert_eq!(alphanumeric("aZ9 *-", 0), Ok('a'));
    assert_eq!(alphanumeric("aZ9 *-", 1), Ok('Z'));
    assert_eq!(alphanumeric("aZ9 *-", 2), Ok('9'));
    assert_eq!(alphanumeric("aZ9 *-", 3), Ok(' '));
    assert_eq!(alphanumeric("aZ9 *-", 4), Ok('*'));
    assert_eq!(alphanumeric("aZ9 *-", 5), Err(DecodeError::MalformedField));
    assert_eq!(alphanumeric("aZ9 *-", 6), Err(DecodeError::TruncatedInput));
}

#[test]
fn digit_n_folds_left_to_right() {
    assert_eq!(digit_n("0042", 0, 4), Ok((4, 42)));
    assert_eq!(digit_n("x0042y", 1, 4), Ok((5, 42)));
    assert_eq!(digit_n("99999999999999", 0, 14), Ok((14, 99999999999999)));
}

#[test]
fn digit_n_exact_width_only() {
    assert_eq!(digit_n("123", 0, 4), Err(DecodeError::TruncatedInput));
    assert_eq!(digit_n("12a4", 0, 4), Err(DecodeError::MalformedField));
    assert_eq!(digit_n("", 0, 1), Err(DecodeError::TruncatedInput));
}

#[test]
fn alphanumeric_n_returns_raw_span() {
    assert_eq!(
        alphanumeric_n("_GAR 7_", 1, 4),
        Ok((5, "GAR ".to_owned()))
    );
    assert_eq!(
        alphanumeric_n("AB", 0, 4),
        Err(DecodeError::TruncatedInput)
    );
    assert_eq!(
        alphanumeric_n("A-CD", 0, 4),
        Err(DecodeError::MalformedField)
    );
}

#[test]
fn code_table_first_match_wins() {
    let table = CodeTable::new(vec![
        ('1', Action::Open),
        ('1', Action::RefuseDisabled),
        ('2', Action::RefuseUnrecognizedFinger),
    ]);
    assert_eq!(table.get('1'), Some(Action::Open));
    assert_eq!(table.get('2'), Some(Action::RefuseUnrecognizedFinger));
    assert_eq!(table.get('3'), None);
}

#[test]
fn standard_finger_table_codes() {
    let table = Finger::standard_table();
    assert_eq!(table.get('7'), Some(Finger::RightIndex));
    assert_eq!(table.get('0'), Some(Finger::RightLittle));
    assert_eq!(table.get('R'), Some(Finger::Rfid));
    assert_eq!(table.get('-'), None);
}

#[test]
fn enum_tags_are_snake_case() {
    assert_eq!(Action::Open.tag(), "open");
    assert_eq!(Action::FifteenMinuteCodePadLock.tag(), "fifteen_minute_code_pad_lock");
    assert_eq!(Finger::LeftThumb.tag(), "left_thumb");
}
