//! The Multi packet: the long authentication-event record, which carries the
//! user's name, status, key and the scanner's name beside the fields of the
//! Home packet.

use vstd::prelude::*;

use crate::action::Action;
use crate::error::DecodeError;
use crate::error::FieldName;
use crate::finger::Finger;
use crate::scan::all_digits;
use crate::scan::all_name_chars;
use crate::scan::alphanumeric_n_core;
use crate::scan::digit_n_core;
use crate::scan::digits_err;
use crate::scan::digits_ok;
use crate::scan::digits_val;
use crate::scan::expect_separator_core;
use crate::scan::lemma_digits_val_bound;
use crate::scan::lemma_trim_spaces_prefix;
use crate::scan::names_err;
use crate::scan::names_ok;
use crate::scan::pow10;
use crate::scan::scan_char_core;
use crate::scan::trim_spaces;
use crate::scan::trim_trailing_spaces;
use crate::scan::SENTINEL;
use crate::tables::decode_optional_core;
use crate::tables::decode_required_core;
use crate::tables::lookup;
use crate::tables::CodeTable;
use crate::tables::standard_tables_view;
use crate::tables::FirmwareTables;
use crate::tables::FirmwareTablesView;

verus! {

/// Whether the reported user is enabled on the terminal.
#[derive(Debug, Clone, Copy, PartialEq, Eq, Structural)]
pub enum UserStatus {
    /// Active.
    Active,
    /// Inactive.
    Inactive,
}

/// The user status codes of the standard firmware revision.
pub open spec fn user_status_codes() -> Seq<(char, UserStatus)> {
    seq![('1', UserStatus::Active), ('2', UserStatus::Inactive)]
}

/// The snake_case tag under which a user status appears in the structured
/// name-to-value view of a decoded packet.
pub open spec fn user_status_tag(u: UserStatus) -> Seq<char> {
    match u {
        UserStatus::Active => "active"@,
        UserStatus::Inactive => "inactive"@,
    }
}

impl UserStatus {
    /// The user status code table of the standard firmware revision.
    pub fn standard_table() -> (t: CodeTable<UserStatus>)
        ensures
            t@ == user_status_codes(),
    {
        let mut pairs: Vec<(char, UserStatus)> = Vec::new();
        pairs.push(('1', UserStatus::Active));
        pairs.push(('2', UserStatus::Inactive));
        proof {
            assert(pairs@ =~= user_status_codes());
        }
        CodeTable::new(pairs)
    }

    /// The snake_case tag of this user status.
    pub fn tag(&self) -> (r: String)
        ensures
            r@ == user_status_tag(*self),
    {
        match self {
            UserStatus::Active => "active".to_owned(),
            UserStatus::Inactive => "inactive".to_owned(),
        }
    }
}

/// The key a Multi event reports. In the key field the sentinel does not
/// mean "missing": its absence denotes the pass key, a valid domain value of
/// its own, so the decoded field's empty case carries that meaning.
#[derive(Debug, Clone, Copy, PartialEq, Eq, Structural)]
pub enum Key {
    /// Key 1.
    Key1,
    /// Key 2.
    Key2,
    /// Key 3.
    Key3,
    /// Key 4.
    Key4,
}

/// The key codes of the standard firmware revision.
pub open spec fn key_codes() -> Seq<(char, Key)> {
    seq![('1', Key::Key1), ('2', Key::Key2), ('3', Key::Key3), ('4', Key::Key4)]
}

/// The snake_case tag under which a key appears in the structured
/// name-to-value view of a decoded packet.
pub open spec fn key_tag(k: Key) -> Seq<char> {
    match k {
        Key::Key1 => "key1"@,
        Key::Key2 => "key2"@,
        Key::Key3 => "key3"@,
        Key::Key4 => "key4"@,
    }
}

impl Key {
    /// The key code table of the standard firmware revision.
    pub fn standard_table() -> (t: CodeTable<Key>)
        ensures
            t@ == key_codes(),
    {
        let mut pairs: Vec<(char, Key)> = Vec::new();
        pairs.push(('1', Key::Key1));
        pairs.push(('2', Key::Key2));
        pairs.push(('3', Key::Key3));
        pairs.push(('4', Key::Key4));
        proof {
            assert(pairs@ =~= key_codes());
        }
        CodeTable::new(pairs)
    }

    /// The snake_case tag of this key.
    pub fn tag(&self) -> (r: String)
        ensures
            r@ == key_tag(*self),
    {
        match self {
            Key::Key1 => "key1".to_owned(),
            Key::Key2 => "key2".to_owned(),
            Key::Key3 => "key3".to_owned(),
            Key::Key4 => "key4".to_owned(),
        }
    }
}

/// The digital input that triggered a Multi event.
#[derive(Debug, Clone, Copy, PartialEq, Eq, Structural)]
pub enum DigitalInput {
    /// Input 1.
    Input1,
    /// Input 2.
    Input2,
    /// Input 3.
    Input3,
    /// Input 4.
    Input4,
}

/// The digital input codes of the standard firmware revision.
pub open spec fn digital_input_codes() -> Seq<(char, DigitalInput)> {
    seq![
        ('1', DigitalInput::Input1),
        ('2', DigitalInput::Input2),
        ('3', DigitalInput::Input3),
        ('4', DigitalInput::Input4),
    ]
}

/// The snake_case tag under which a digital input appears in the structured
/// name-to-value view of a decoded packet.
pub open spec fn digital_input_tag(d: DigitalInput) -> Seq<char> {
    match d {
        DigitalInput::Input1 => "input1"@,
        DigitalInput::Input2 => "input2"@,
        DigitalInput::Input3 => "input3"@,
        DigitalInput::Input4 => "input4"@,
    }
}

impl DigitalInput {
    /// The digital input code table of the standard firmware revision.
    pub fn standard_table() -> (t: CodeTable<DigitalInput>)
        ensures
            t@ == digital_input_codes(),
    {
        let mut pairs: Vec<(char, DigitalInput)> = Vec::new();
        pairs.push(('1', DigitalInput::Input1));
        pairs.push(('2', DigitalInput::Input2));
        pairs.push(('3', DigitalInput::Input3));
        pairs.push(('4', DigitalInput::Input4));
        proof {
            assert(pairs@ =~= digital_input_codes());
        }
        CodeTable::new(pairs)
    }

    /// The snake_case tag of this digital input.
    pub fn tag(&self) -> (r: String)
        ensures
            r@ == digital_input_tag(*self),
    {
        match self {
            DigitalInput::Input1 => "input1".to_owned(),
            DigitalInput::Input2 => "input2".to_owned(),
            DigitalInput::Input3 => "input3".to_owned(),
            DigitalInput::Input4 => "input4".to_owned(),
        }
    }
}

/// The mathematical image of a decoded Multi packet.
pub ghost struct MultiView {
    pub user_id: int,
    pub user_name: Option<Seq<char>>,
    pub user_status: Option<UserStatus>,
    pub finger: Option<Finger>,
    pub key: Option<Key>,
    pub finger_scanner_serial: int,
    pub finger_scanner_name: Seq<char>,
    pub action: Action,
    pub input: Option<DigitalInput>,
}

impl MultiView {
    /// Every successfully decoded Multi packet satisfies this: numeric
    /// fields are within the range their declared width allows, and text
    /// fields are within their declared width, drawn from the text character
    /// class, and carry no trailing padding.
    pub open spec fn wf(self) -> bool {
        &&& 0 <= self.user_id < pow10(4)
        &&& 0 <= self.finger_scanner_serial < pow10(14)
        &&& (self.user_name matches Some(n) ==> n.len() <= 9 && all_name_chars(n) && (n.len() > 0
            ==> n.last() != ' '))
        &&& self.finger_scanner_name.len() <= 4
        &&& all_name_chars(self.finger_scanner_name)
        &&& (self.finger_scanner_name.len() > 0 ==> self.finger_scanner_name.last() != ' ')
    }
}

/// A syntactically valid Multi packet: the discriminator `'1'`; the
/// packet's own separator at every field boundary; a 4-digit user id; a
/// 9-character user name, absent when its first character is the sentinel;
/// optional user status, finger and key codes; a 14-digit scanner serial; a
/// 4-character scanner name; a required action code; and an optional
/// digital input code; and not a character more.
///
/// When the user name's first character is the sentinel the whole span is
/// treated as absent regardless of the remaining characters in it: they are
/// consumed without any character-class check. That is an inherited quirk
/// of the wire format, kept as specified.
pub open spec fn multi_wf(s: Seq<char>, t: FirmwareTablesView) -> bool {
    &&& s.len() == 46
    &&& s[0] == '1'
    &&& s[6] == s[1]
    &&& s[16] == s[1]
    &&& s[18] == s[1]
    &&& s[20] == s[1]
    &&& s[22] == s[1]
    &&& s[37] == s[1]
    &&& s[42] == s[1]
    &&& s[44] == s[1]
    &&& all_digits(s.subrange(2, 6))
    &&& (s[7] == SENTINEL || all_name_chars(s.subrange(7, 16)))
    &&& (s[17] == SENTINEL || lookup(t.user_status, s[17]) is Some)
    &&& (s[19] == SENTINEL || lookup(t.finger, s[19]) is Some)
    &&& (s[21] == SENTINEL || lookup(t.key, s[21]) is Some)
    &&& all_digits(s.subrange(23, 37))
    &&& all_name_chars(s.subrange(38, 42))
    &&& lookup(t.action, s[43]) is Some
    &&& (s[45] == SENTINEL || lookup(t.input, s[45]) is Some)
}

/// The field values of a syntactically valid Multi packet. Text fields are
/// trimmed of trailing padding spaces.
pub open spec fn multi_fields(s: Seq<char>, t: FirmwareTablesView) -> MultiView {
    MultiView {
        user_id: digits_val(s.subrange(2, 6)),
        user_name: if s[7] == SENTINEL {
            None
        } else {
            Some(trim_spaces(s.subrange(7, 16)))
        },
        user_status: if s[17] == SENTINEL {
            None
        } else {
            lookup(t.user_status, s[17])
        },
        finger: if s[19] == SENTINEL {
            None
        } else {
            lookup(t.finger, s[19])
        },
        key: if s[21] == SENTINEL {
            None
        } else {
            lookup(t.key, s[21])
        },
        finger_scanner_serial: digits_val(s.subrange(23, 37)),
        finger_scanner_name: trim_spaces(s.subrange(38, 42)),
        action: lookup(t.action, s[43])->0,
        input: if s[45] == SENTINEL {
            None
        } else {
            lookup(t.input, s[45])
        },
    }
}

/// What decoding `s` as a Multi packet under the tables `t` yields: either
/// the decoded fields, or the error of the first field failure in strict
/// scan order.
pub open spec fn multi_decode_spec(s: Seq<char>, t: FirmwareTablesView) -> Result<
    MultiView,
    DecodeError,
> {
    if s.len() < 1 {
        Err(DecodeError::TruncatedInput)
    } else if s[0] != '1' {
        Err(DecodeError::MalformedField)
    } else if s.len() < 2 {
        Err(DecodeError::TruncatedInput)
    } else if !digits_ok(s, 2, 4) {
        Err(digits_err(s, 2, 4))
    } else if s.len() < 7 {
        Err(DecodeError::TruncatedInput)
    } else if s[6] != s[1] {
        Err(DecodeError::MalformedSeparator)
    } else if s.len() < 8 {
        Err(DecodeError::TruncatedInput)
    } else if s[7] == SENTINEL && s.len() < 16 {
        Err(DecodeError::TruncatedInput)
    } else if s[7] != SENTINEL && !names_ok(s, 7, 9) {
        Err(names_err(s, 7, 9))
    } else if s.len() < 17 {
        Err(DecodeError::TruncatedInput)
    } else if s[16] != s[1] {
        Err(DecodeError::MalformedSeparator)
    } else if s.len() < 18 {
        Err(DecodeError::TruncatedInput)
    } else if s[17] != SENTINEL && lookup(t.user_status, s[17]) is None {
        Err(DecodeError::UnknownVariant(FieldName::UserStatus, s[17]))
    } else if s.len() < 19 {
        Err(DecodeError::TruncatedInput)
    } else if s[18] != s[1] {
        Err(DecodeError::MalformedSeparator)
    } else if s.len() < 20 {
        Err(DecodeError::TruncatedInput)
    } else if s[19] != SENTINEL && lookup(t.finger, s[19]) is None {
        Err(DecodeError::UnknownVariant(FieldName::Finger, s[19]))
    } else if s.len() < 21 {
        Err(DecodeError::TruncatedInput)
    } else if s[20] != s[1] {
        Err(DecodeError::MalformedSeparator)
    } else if s.len() < 22 {
        Err(DecodeError::TruncatedInput)
    } else if s[21] != SENTINEL && lookup(t.key, s[21]) is None {
        Err(DecodeError::UnknownVariant(FieldName::Key, s[21]))
    } else if s.len() < 23 {
        Err(DecodeError::TruncatedInput)
    } else if s[22] != s[1] {
        Err(DecodeError::MalformedSeparator)
    } else if !digits_ok(s, 23, 14) {
        Err(digits_err(s, 23, 14))
    } else if s.len() < 38 {
        Err(DecodeError::TruncatedInput)
    } else if s[37] != s[1] {
        Err(DecodeError::MalformedSeparator)
    } else if !names_ok(s, 38, 4) {
        Err(names_err(s, 38, 4))
    } else if s.len() < 43 {
        Err(DecodeError::TruncatedInput)
    } else if s[42] != s[1] {
        Err(DecodeError::MalformedSeparator)
    } else if s.len() < 44 {
        Err(DecodeError::TruncatedInput)
    } else if lookup(t.action, s[43]) is None {
        Err(DecodeError::UnknownVariant(FieldName::Action, s[43]))
    } else if s.len() < 45 {
        Err(DecodeError::TruncatedInput)
    } else if s[44] != s[1] {
        Err(DecodeError::MalformedSeparator)
    } else if s.len() < 46 {
        Err(DecodeError::TruncatedInput)
    } else if s[45] != SENTINEL && lookup(t.input, s[45]) is None {
        Err(DecodeError::UnknownVariant(FieldName::DigitalInput, s[45]))
    } else if s.len() > 46 {
        Err(DecodeError::TrailingData)
    } else {
        Ok(multi_fields(s, t))
    }
}

/// Decoding succeeds exactly on the syntactically valid packets, and then
/// yields exactly the packet's field values.
pub proof fn lemma_multi_decode_ok_iff_wf(s: Seq<char>, t: FirmwareTablesView)
    ensures
        multi_decode_spec(s, t) is Ok <==> multi_wf(s, t),
        multi_wf(s, t) ==> multi_decode_spec(s, t) == Ok::<MultiView, DecodeError>(
            multi_fields(s, t),
        ),
{
}

/// A decoded Multi packet: an authentication event with the user's id,
/// name and status, the finger and key used, the scanner's serial and name,
/// the action taken and the digital input involved.
#[derive(Debug, Clone)]
pub struct Multi {
    user_id: u16,
    user_name: Option<String>,
    user_status: Option<UserStatus>,
    finger: Option<Finger>,
    key: Option<Key>,
    finger_scanner_serial: u64,
    finger_scanner_name: String,
    action: Action,
    input: Option<DigitalInput>,
}

impl View for Multi {
    type V = MultiView;

    closed spec fn view(&self) -> MultiView {
        MultiView {
            user_id: self.user_id as int,
            user_name: match self.user_name {
                Some(n) => Some(n@),
                None => None,
            },
            user_status: self.user_status,
            finger: self.finger,
            key: self.key,
            finger_scanner_serial: self.finger_scanner_serial as int,
            finger_scanner_name: self.finger_scanner_name@,
            action: self.action,
            input: self.input,
        }
    }
}

impl Multi {
    /// Decodes one complete Multi packet under the active firmware tables.
    ///
    /// The decode is atomic: it succeeds, consuming the whole input, exactly
    /// when the input is a syntactically valid Multi packet, and otherwise
    /// reports the first field failure in scan order.
    pub fn decode(s: &str, tables: &FirmwareTables) -> (r: Result<Multi, DecodeError>)
        ensures
            r is Ok <==> multi_wf(s@, tables@),
            r matches Ok(m) ==> m@ == multi_fields(s@, tables@) && m@.wf(),
            r matches Err(e) ==> Err::<MultiView, DecodeError>(e) == multi_decode_spec(s@, tables@),
    {
        let len = s.unicode_len();
        let disc = match scan_char_core(s, len, 0) {
            Ok(c) => c,
            Err(e) => {
                return Err(e);
            },
        };
        if disc != '1' {
            return Err(DecodeError::MalformedField);
        }
        let sep = match scan_char_core(s, len, 1) {
            Ok(c) => c,
            Err(e) => {
                return Err(e);
            },
        };
        let (p, user_id) = match digit_n_core(s, len, 2, 4) {
            Ok(v) => v,
            Err(e) => {
                return Err(e);
            },
        };
        let p = match expect_separator_core(s, len, p, sep) {
            Ok(p) => p,
            Err(e) => {
                return Err(e);
            },
        };
        // The user name is optional through the leading-sentinel rule: when
        // its first character is the sentinel, the whole 9-character span is
        // consumed as absent without any character-class check.
        let first = match scan_char_core(s, len, p) {
            Ok(c) => c,
            Err(e) => {
                return Err(e);
            },
        };
        let (p, user_name): (usize, Option<String>) = if first == SENTINEL {
            if len < 16 {
                return Err(DecodeError::TruncatedInput);
            }
            (16, None)
        } else {
            match alphanumeric_n_core(s, len, p, 9) {
                Ok((q, raw)) => (q, Some(trim_trailing_spaces(raw.as_str()))),
                Err(e) => {
                    return Err(e);
                },
            }
        };
        let p = match expect_separator_core(s, len, p, sep) {
            Ok(p) => p,
            Err(e) => {
                return Err(e);
            },
        };
        let (p, user_status) = match decode_optional_core(s, len, p, &tables.user_status,
            FieldName::UserStatus) {
            Ok(v) => v,
            Err(e) => {
                return Err(e);
            },
        };
        let p = match expect_separator_core(s, len, p, sep) {
            Ok(p) => p,
            Err(e) => {
                return Err(e);
            },
        };
        let (p, finger) = match decode_optional_core(s, len, p, &tables.finger, FieldName::Finger) {
            Ok(v) => v,
            Err(e) => {
                return Err(e);
            },
        };
        let p = match expect_separator_core(s, len, p, sep) {
            Ok(p) => p,
            Err(e) => {
                return Err(e);
            },
        };
        let (p, key) = match decode_optional_core(s, len, p, &tables.key, FieldName::Key) {
            Ok(v) => v,
            Err(e) => {
                return Err(e);
            },
        };
        let p = match expect_separator_core(s, len, p, sep) {
            Ok(p) => p,
            Err(e) => {
                return Err(e);
            },
        };
        let (p, serial) = match digit_n_core(s, len, p, 14) {
            Ok(v) => v,
            Err(e) => {
                return Err(e);
            },
        };
        let p = match expect_separator_core(s, len, p, sep) {
            Ok(p) => p,
            Err(e) => {
                return Err(e);
            },
        };
        let (p, scanner_raw) = match alphanumeric_n_core(s, len, p, 4) {
            Ok(v) => v,
            Err(e) => {
                return Err(e);
            },
        };
        let finger_scanner_name = trim_trailing_spaces(scanner_raw.as_str());
        let p = match expect_separator_core(s, len, p, sep) {
            Ok(p) => p,
            Err(e) => {
                return Err(e);
            },
        };
        let (p, action) = match decode_required_core(s, len, p, &tables.action, FieldName::Action) {
            Ok(v) => v,
            Err(e) => {
                return Err(e);
            },
        };
        let p = match expect_separator_core(s, len, p, sep) {
            Ok(p) => p,
            Err(e) => {
                return Err(e);
            },
        };
        let (p, input) = match decode_optional_core(s, len, p, &tables.input, FieldName::DigitalInput) {
            Ok(v) => v,
            Err(e) => {
                return Err(e);
            },
        };
        if p < len {
            return Err(DecodeError::TrailingData);
        }
        proof {
            lemma_digits_val_bound(s@.subrange(2, 6));
            lemma_digits_val_bound(s@.subrange(23, 37));
            assert(pow10(4) == 10000 && pow10(14) == 100_000_000_000_000) by {
                reveal_with_fuel(pow10, 15);
            }
            lemma_trim_spaces_prefix(s@.subrange(7, 16));
            lemma_trim_spaces_prefix(s@.subrange(38, 42));
        }
        Ok(
            Multi {
                user_id: user_id as u16,
                user_name,
                user_status,
                finger,
                key,
                finger_scanner_serial: serial,
                finger_scanner_name,
                action,
                input,
            },
        )
    }

    /// The 4-digit user id.
    pub fn user_id(&self) -> (r: u16)
        ensures
            r as int == self@.user_id,
    {
        self.user_id
    }

    /// The user's name, trimmed of trailing padding, or `None` for the
    /// leading sentinel.
    pub fn user_name(&self) -> (r: Option<&str>)
        ensures
            r is Some <==> self@.user_name is Some,
            r matches Some(n) ==> Some(n@) == self@.user_name,
    {
        match &self.user_name {
            Some(n) => Some(n.as_str()),
            None => None,
        }
    }

    /// The user's status, or `None` for the sentinel.
    pub fn user_staus(&self) -> (r: Option<UserStatus>)
        ensures
            r == self@.user_status,
    {
        self.user_status
    }

    /// The finger presented, or `None` for the sentinel.
    pub fn finger(&self) -> (r: Option<Finger>)
        ensures
            r == self@.finger,
    {
        self.finger
    }

    /// The key used; `None` is the sentinel's reading and denotes the pass
    /// key, a valid value of its own, not a missing field.
    pub fn key(&self) -> (r: Option<Key>)
        ensures
            r == self@.key,
    {
        self.key
    }

    /// The 14-digit serial number of the reporting finger scanner.
    pub fn finger_scanner_serial(&self) -> (r: u64)
        ensures
            r as int == self@.finger_scanner_serial,
    {
        self.finger_scanner_serial
    }

    /// The finger scanner's name, trimmed of trailing padding.
    pub fn finger_scanner_name(&self) -> (r: &str)
        ensures
            r@ == self@.finger_scanner_name,
    {
        self.finger_scanner_name.as_str()
    }

    /// The action the terminal took.
    pub fn action(&self) -> (r: Action)
        ensures
            r == self@.action,
    {
        self.action
    }

    /// The digital input involved, or `None` for the sentinel.
    pub fn input(&self) -> (r: Option<DigitalInput>)
        ensures
            r == self@.input,
    {
        self.input
    }
}

impl core::str::FromStr for Multi {
    type Err = DecodeError;

    /// Decodes a Multi packet under the standard firmware tables.
    fn from_str(s: &str) -> (r: Result<Multi, DecodeError>)
        ensures
            r is Ok <==> multi_wf(s@, standard_tables_view()),
            r matches Ok(m) ==> m@ == multi_fields(s@, standard_tables_view()) && m@.wf(),
            r matches Err(e) ==> Err::<MultiView, DecodeError>(e) == multi_decode_spec(
                s@,
                standard_tables_view(),
            ),
    {
        Multi::decode(s, &FirmwareTables::standard())
    }
}

/// A Multi packet assembled from its parts as the grammar lays them out,
/// with `sep` as the packet's separator.
pub open spec fn encode_multi(
    uid: Seq<char>,
    name: Seq<char>,
    status_code: char,
    finger_code: char,
    key_code: char,
    serial: Seq<char>,
    scanner: Seq<char>,
    action_code: char,
    input_code: char,
    sep: char,
) -> Seq<char> {
    Seq::new(
        46,
        |i: int|
            if i == 0 {
                '1'
            } else if i == 1 || i == 6 || i == 16 || i == 18 || i == 20 || i == 22 || i == 37 || i
                == 42 || i == 44 {
                sep
            } else if 2 <= i < 6 {
                uid[i - 2]
            } else if 7 <= i < 16 {
                name[i - 7]
            } else if i == 17 {
                status_code
            } else if i == 19 {
                finger_code
            } else if i == 21 {
                key_code
            } else if 23 <= i < 37 {
                serial[i - 23]
            } else if 38 <= i < 42 {
                scanner[i - 38]
            } else if i == 43 {
                action_code
            } else {
                input_code
            },
    )
}

/// The field values that decoding an assembled Multi packet must yield.
pub open spec fn encoded_multi_fields(
    uid: Seq<char>,
    name: Seq<char>,
    status_code: char,
    finger_code: char,
    key_code: char,
    serial: Seq<char>,
    scanner: Seq<char>,
    action_code: char,
    input_code: char,
    t: FirmwareTablesView,
) -> MultiView {
    MultiView {
        user_id: digits_val(uid),
        user_name: if name[0] == SENTINEL {
            None
        } else {
            Some(trim_spaces(name))
        },
        user_status: if status_code == SENTINEL {
            None
        } else {
            lookup(t.user_status, status_code)
        },
        finger: if finger_code == SENTINEL {
            None
        } else {
            lookup(t.finger, finger_code)
        },
        key: if key_code == SENTINEL {
            None
        } else {
            lookup(t.key, key_code)
        },
        finger_scanner_serial: digits_val(serial),
        finger_scanner_name: trim_spaces(scanner),
        action: lookup(t.action, action_code)->0,
        input: if input_code == SENTINEL {
            None
        } else {
            lookup(t.input, input_code)
        },
    }
}

/// Round trip: a Multi packet assembled from any in-domain parts, under any
/// separator character whatsoever, decodes successfully, and every decoded
/// field equals the part it was assembled from (text fields trimmed of
/// their trailing padding).
pub proof fn lemma_multi_round_trip(
    uid: Seq<char>,
    name: Seq<char>,
    status_code: char,
    finger_code: char,
    key_code: char,
    serial: Seq<char>,
    scanner: Seq<char>,
    action_code: char,
    input_code: char,
    sep: char,
    t: FirmwareTablesView,
)
    requires
        uid.len() == 4,
        all_digits(uid),
        name.len() == 9,
        name[0] == SENTINEL || all_name_chars(name),
        status_code == SENTINEL || lookup(t.user_status, status_code) is Some,
        finger_code == SENTINEL || lookup(t.finger, finger_code) is Some,
        key_code == SENTINEL || lookup(t.key, key_code) is Some,
        serial.len() == 14,
        all_digits(serial),
        scanner.len() == 4,
        all_name_chars(scanner),
        lookup(t.action, action_code) is Some,
        input_code == SENTINEL || lookup(t.input, input_code) is Some,
    ensures
        multi_decode_spec(
            encode_multi(
                uid,
                name,
                status_code,
                finger_code,
                key_code,
                serial,
                scanner,
                action_code,
                input_code,
                sep,
            ),
            t,
        ) == Ok::<MultiView, DecodeError>(
            encoded_multi_fields(
                uid,
                name,
                status_code,
                finger_code,
                key_code,
                serial,
                scanner,
                action_code,
                input_code,
                t,
            ),
        ),
{
    let s = encode_multi(
        uid,
        name,
        status_code,
        finger_code,
        key_code,
        serial,
        scanner,
        action_code,
        input_code,
        sep,
    );
    assert(s.subrange(2, 6) =~= uid);
    assert(s.subrange(7, 16) =~= name);
    assert(s.subrange(23, 37) =~= serial);
    assert(s.subrange(38, 42) =~= scanner);
    assert(multi_wf(s, t));
}

/// The leading-sentinel rule: when the user name span's first character is
/// the sentinel, the name decodes to "absent" whatever the remaining eight
/// characters of the span are — they are consumed without any
/// character-class check. An inherited quirk of the wire format, kept as
/// specified.
pub proof fn lemma_multi_leading_sentinel_name_absent(
    uid: Seq<char>,
    name: Seq<char>,
    status_code: char,
    finger_code: char,
    key_code: char,
    serial: Seq<char>,
    scanner: Seq<char>,
    action_code: char,
    input_code: char,
    sep: char,
    t: FirmwareTablesView,
)
    requires
        uid.len() == 4,
        all_digits(uid),
        name.len() == 9,
        name[0] == SENTINEL,
        status_code == SENTINEL || lookup(t.user_status, status_code) is Some,
        finger_code == SENTINEL || lookup(t.finger, finger_code) is Some,
        key_code == SENTINEL || lookup(t.key, key_code) is Some,
        serial.len() == 14,
        all_digits(serial),
        scanner.len() == 4,
        all_name_chars(scanner),
        lookup(t.action, action_code) is Some,
        input_code == SENTINEL || lookup(t.input, input_code) is Some,
    ensures
        multi_decode_spec(
            encode_multi(
                uid,
                name,
                status_code,
                finger_code,
                key_code,
                serial,
                scanner,
                action_code,
                input_code,
                sep,
            ),
            t,
        ) matches Ok(m) && m.user_name is None,
{
    lemma_multi_round_trip(
        uid,
        name,
        status_code,
        finger_code,
        key_code,
        serial,
        scanner,
        action_code,
        input_code,
        sep,
        t,
    );
}

/// The separator carries no information: re-assembling the same parts with
/// any other separator character decodes to the very same field values.
pub proof fn lemma_multi_separator_irrelevant(
    uid: Seq<char>,
    name: Seq<char>,
    status_code: char,
    finger_code: char,
    key_code: char,
    serial: Seq<char>,
    scanner: Seq<char>,
    action_code: char,
    input_code: char,
    sep1: char,
    sep2: char,
    t: FirmwareTablesView,
)
    requires
        uid.len() == 4,
        all_digits(uid),
        name.len() == 9,
        name[0] == SENTINEL || all_name_chars(name),
        status_code == SENTINEL || lookup(t.user_status, status_code) is Some,
        finger_code == SENTINEL || lookup(t.finger, finger_code) is Some,
        key_code == SENTINEL || lookup(t.key, key_code) is Some,
        serial.len() == 14,
        all_digits(serial),
        scanner.len() == 4,
        all_name_chars(scanner),
        lookup(t.action, action_code) is Some,
        input_code == SENTINEL || lookup(t.input, input_code) is Some,
    ensures
        multi_decode_spec(
            encode_multi(
                uid,
                name,
                status_code,
                finger_code,
                key_code,
                serial,
                scanner,
                action_code,
                input_code,
                sep1,
            ),
            t,
        ) == multi_decode_spec(
            encode_multi(
                uid,
                name,
                status_code,
                finger_code,
                key_code,
                serial,
                scanner,
                action_code,
                input_code,
                sep2,
            ),
            t,
        ),
{
    lemma_multi_round_trip(
        uid,
        name,
        status_code,
        finger_code,
        key_code,
        serial,
        scanner,
        action_code,
        input_code,
        sep1,
        t,
    );
    lemma_multi_round_trip(
        uid,
        name,
        status_code,
        finger_code,
        key_code,
        serial,
        scanner,
        action_code,
        input_code,
        sep2,
        t,
    );
}

/// Any character appended to an otherwise valid Multi packet fails the
/// whole decode with `TrailingData`.
pub proof fn lemma_multi_trailing_data(
    uid: Seq<char>,
    name: Seq<char>,
    status_code: char,
    finger_code: char,
    key_code: char,
    serial: Seq<char>,
    scanner: Seq<char>,
    action_code: char,
    input_code: char,
    sep: char,
    extra: Seq<char>,
    t: FirmwareTablesView,
)
    requires
        uid.len() == 4,
        all_digits(uid),
        name.len() == 9,
        name[0] == SENTINEL || all_name_chars(name),
        status_code == SENTINEL || lookup(t.user_status, status_code) is Some,
        finger_code == SENTINEL || lookup(t.finger, finger_code) is Some,
        key_code == SENTINEL || lookup(t.key, key_code) is Some,
        serial.len() == 14,
        all_digits(serial),
        scanner.len() == 4,
        all_name_chars(scanner),
        lookup(t.action, action_code) is Some,
        input_code == SENTINEL || lookup(t.input, input_code) is Some,
        extra.len() > 0,
    ensures
        multi_decode_spec(
            encode_multi(
                uid,
                name,
                status_code,
                finger_code,
                key_code,
                serial,
                scanner,
                action_code,
                input_code,
                sep,
            ) + extra,
            t,
        ) == Err::<MultiView, DecodeError>(DecodeError::TrailingData),
{
    let s0 = encode_multi(
        uid,
        name,
        status_code,
        finger_code,
        key_code,
        serial,
        scanner,
        action_code,
        input_code,
        sep,
    );
    let s = s0 + extra;
    assert(forall|i: int| 0 <= i < 46 ==> s[i] == s0[i]);
    assert(s.subrange(2, 6) =~= uid);
    assert(s.subrange(7, 16) =~= name);
    assert(s.subrange(23, 37) =~= serial);
    assert(s.subrange(38, 42) =~= scanner);
}

/// A Multi packet of any length other than exactly 46 characters never
/// decodes: in particular, truncating a valid packet anywhere fails it.
pub proof fn lemma_multi_wrong_length(s: Seq<char>, t: FirmwareTablesView)
    requires
        s.len() != 46,
    ensures
        multi_decode_spec(s, t) is Err,
{
    lemma_multi_decode_ok_iff_wf(s, t);
}

/// A code absent from its active table, standing in any enumerated field
/// of a Multi packet whose earlier fields are in domain and not itself the
/// sentinel (for the optional fields), fails the whole decode with
/// `UnknownVariant` naming that field and that code.
pub proof fn lemma_multi_unknown_code(
    uid: Seq<char>,
    name: Seq<char>,
    status_code: char,
    finger_code: char,
    key_code: char,
    serial: Seq<char>,
    scanner: Seq<char>,
    action_code: char,
    input_code: char,
    sep: char,
    t: FirmwareTablesView,
    field: FieldName,
)
    requires
        uid.len() == 4,
        all_digits(uid),
        name.len() == 9,
        name[0] == SENTINEL || all_name_chars(name),
        serial.len() == 14,
        all_digits(serial),
        scanner.len() == 4,
        all_name_chars(scanner),
        field == FieldName::UserStatus ==> status_code != SENTINEL && lookup(
            t.user_status,
            status_code,
        ) is None,
        field != FieldName::UserStatus ==> status_code == SENTINEL || lookup(
            t.user_status,
            status_code,
        ) is Some,
        field == FieldName::Finger ==> finger_code != SENTINEL && lookup(
            t.finger,
            finger_code,
        ) is None,
        field != FieldName::Finger ==> finger_code == SENTINEL || lookup(
            t.finger,
            finger_code,
        ) is Some,
        field == FieldName::Key ==> key_code != SENTINEL && lookup(t.key, key_code) is None,
        field != FieldName::Key ==> key_code == SENTINEL || lookup(t.key, key_code) is Some,
        field == FieldName::Action ==> lookup(t.action, action_code) is None,
        field != FieldName::Action ==> lookup(t.action, action_code) is Some,
        field == FieldName::DigitalInput ==> input_code != SENTINEL && lookup(
            t.input,
            input_code,
        ) is None,
        field != FieldName::DigitalInput ==> input_code == SENTINEL || lookup(
            t.input,
            input_code,
        ) is Some,
        field != FieldName::Relay,
    ensures
        multi_decode_spec(
            encode_multi(
                uid,
                name,
                status_code,
                finger_code,
                key_code,
                serial,
                scanner,
                action_code,
                input_code,
                sep,
            ),
            t,
        ) matches Err(e) && e matches DecodeError::UnknownVariant(f, c) && f == field && c
            == (match field {
            FieldName::UserStatus => status_code,
            FieldName::Finger => finger_code,
            FieldName::Key => key_code,
            FieldName::Action => action_code,
            _ => input_code,
        }),
{
    let s = encode_multi(
        uid,
        name,
        status_code,
        finger_code,
        key_code,
        serial,
        scanner,
        action_code,
        input_code,
        sep,
    );
    assert(s.subrange(2, 6) =~= uid);
    assert(s.subrange(7, 16) =~= name);
    assert(s.subrange(23, 37) =~= serial);
    assert(s.subrange(38, 42) =~= scanner);
}

} // verus!
