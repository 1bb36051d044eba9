//! The Home packet: the short authentication-event record.

use vstd::prelude::*;

use crate::action::Action;
use crate::error::DecodeError;
use crate::error::FieldName;
use crate::finger::Finger;
use crate::scan::all_digits;
use crate::scan::digit_n_core;
use crate::scan::digits_err;
use crate::scan::digits_ok;
use crate::scan::digits_val;
use crate::scan::expect_separator_core;
use crate::scan::lemma_digits_val_bound;
use crate::scan::pow10;
use crate::scan::scan_char_core;
use crate::scan::SENTINEL;
use crate::tables::decode_optional_core;
use crate::tables::decode_required_core;
use crate::tables::lookup;
use crate::tables::CodeTable;
use crate::tables::standard_tables_view;
use crate::tables::FirmwareTables;
use crate::tables::FirmwareTablesView;

verus! {

/// The relay (lock output) a Home event activated.
#[derive(Debug, Clone, Copy, PartialEq, Eq, Structural)]
pub enum Relay {
    /// Relay 1.
    Relay1,
    /// Relay 2.
    Relay2,
    /// Relay 3.
    Relay3,
    /// Relay 4.
    Relay4,
    /// Double relay.
    DoubleRelay,
}

/// The relay codes of the standard firmware revision.
pub open spec fn standard_relay_codes() -> Seq<(char, Relay)> {
    seq![
        ('1', Relay::Relay1),
        ('2', Relay::Relay2),
        ('3', Relay::Relay3),
        ('4', Relay::Relay4),
        ('d', Relay::DoubleRelay),
    ]
}

/// The snake_case tag under which a relay appears in the structured
/// name-to-value view of a decoded packet.
pub open spec fn relay_tag(r: Relay) -> Seq<char> {
    match r {
        Relay::Relay1 => "relay1"@,
        Relay::Relay2 => "relay2"@,
        Relay::Relay3 => "relay3"@,
        Relay::Relay4 => "relay4"@,
        Relay::DoubleRelay => "double_relay"@,
    }
}

impl Relay {
    /// The relay code table of the standard firmware revision.
    pub fn standard_table() -> (t: CodeTable<Relay>)
        ensures
            t@ == standard_relay_codes(),
    {
        let mut pairs: Vec<(char, Relay)> = Vec::new();
        pairs.push(('1', Relay::Relay1));
        pairs.push(('2', Relay::Relay2));
        pairs.push(('3', Relay::Relay3));
        pairs.push(('4', Relay::Relay4));
        pairs.push(('d', Relay::DoubleRelay));
        proof {
            assert(pairs@ =~= standard_relay_codes());
        }
        CodeTable::new(pairs)
    }

    /// The snake_case tag of this relay.
    pub fn tag(&self) -> (r: String)
        ensures
            r@ == relay_tag(*self),
    {
        match self {
            Relay::Relay1 => "relay1".to_owned(),
            Relay::Relay2 => "relay2".to_owned(),
            Relay::Relay3 => "relay3".to_owned(),
            Relay::Relay4 => "relay4".to_owned(),
            Relay::DoubleRelay => "double_relay".to_owned(),
        }
    }
}

/// The mathematical image of a decoded Home packet.
pub ghost struct HomeView {
    pub user_id: int,
    pub finger: Option<Finger>,
    pub finger_scanner_serial: int,
    pub action: Action,
    pub relay: Option<Relay>,
}

impl HomeView {
    /// Every successfully decoded Home packet satisfies this: each numeric
    /// field is within the range its declared width allows.
    pub open spec fn wf(self) -> bool {
        &&& 0 <= self.user_id < pow10(4)
        &&& 0 <= self.finger_scanner_serial < pow10(14)
    }
}

/// A syntactically valid Home packet: the discriminator `'1'`; the packet's
/// own separator recurring at every field boundary; a 4-digit user id; an
/// optional finger code; a 14-digit scanner serial; a required action code;
/// an optional relay code; and not a character more.
///
/// The separator is accepted unvalidated, as the wire format demands; since
/// every field has a fixed width, field boundaries sit at fixed offsets and
/// no choice of separator can make a valid packet ambiguous.
pub open spec fn home_wf(s: Seq<char>, t: FirmwareTablesView) -> bool {
    &&& s.len() == 27
    &&& s[0] == '1'
    &&& s[6] == s[1]
    &&& s[8] == s[1]
    &&& s[23] == s[1]
    &&& s[25] == s[1]
    &&& all_digits(s.subrange(2, 6))
    &&& all_digits(s.subrange(9, 23))
    &&& (s[7] == SENTINEL || lookup(t.finger, s[7]) is Some)
    &&& lookup(t.action, s[24]) is Some
    &&& (s[26] == SENTINEL || lookup(t.relay, s[26]) is Some)
}

/// The field values of a syntactically valid Home packet.
pub open spec fn home_fields(s: Seq<char>, t: FirmwareTablesView) -> HomeView {
    HomeView {
        user_id: digits_val(s.subrange(2, 6)),
        finger: if s[7] == SENTINEL {
            None
        } else {
            lookup(t.finger, s[7])
        },
        finger_scanner_serial: digits_val(s.subrange(9, 23)),
        action: lookup(t.action, s[24])->0,
        relay: if s[26] == SENTINEL {
            None
        } else {
            lookup(t.relay, s[26])
        },
    }
}

/// What decoding `s` as a Home packet under the tables `t` yields: either
/// the decoded fields, or the error of the first field failure in strict
/// scan order.
pub open spec fn home_decode_spec(s: Seq<char>, t: FirmwareTablesView) -> Result<
    HomeView,
    DecodeError,
> {
    if s.len() < 1 {
        Err(DecodeError::TruncatedInput)
    } else if s[0] != '1' {
        Err(DecodeError::MalformedField)
    } else if s.len() < 2 {
        Err(DecodeError::TruncatedInput)
    } else if !digits_ok(s, 2, 4) {
        Err(digits_err(s, 2, 4))
    } else if s.len() < 7 {
        Err(DecodeError::TruncatedInput)
    } else if s[6] != s[1] {
        Err(DecodeError::MalformedSeparator)
    } else if s.len() < 8 {
        Err(DecodeError::TruncatedInput)
    } else if s[7] != SENTINEL && lookup(t.finger, s[7]) is None {
        Err(DecodeError::UnknownVariant(FieldName::Finger, s[7]))
    } else if s.len() < 9 {
        Err(DecodeError::TruncatedInput)
    } else if s[8] != s[1] {
        Err(DecodeError::MalformedSeparator)
    } else if !digits_ok(s, 9, 14) {
        Err(digits_err(s, 9, 14))
    } else if s.len() < 24 {
        Err(DecodeError::TruncatedInput)
    } else if s[23] != s[1] {
        Err(DecodeError::MalformedSeparator)
    } else if s.len() < 25 {
        Err(DecodeError::TruncatedInput)
    } else if lookup(t.action, s[24]) is None {
        Err(DecodeError::UnknownVariant(FieldName::Action, s[24]))
    } else if s.len() < 26 {
        Err(DecodeError::TruncatedInput)
    } else if s[25] != s[1] {
        Err(DecodeError::MalformedSeparator)
    } else if s.len() < 27 {
        Err(DecodeError::TruncatedInput)
    } else if s[26] != SENTINEL && lookup(t.relay, s[26]) is None {
        Err(DecodeError::UnknownVariant(FieldName::Relay, s[26]))
    } else if s.len() > 27 {
        Err(DecodeError::TrailingData)
    } else {
        Ok(home_fields(s, t))
    }
}

/// Decoding succeeds exactly on the syntactically valid packets, and then
/// yields exactly the packet's field values.
pub proof fn lemma_home_decode_ok_iff_wf(s: Seq<char>, t: FirmwareTablesView)
    ensures
        home_decode_spec(s, t) is Ok <==> home_wf(s, t),
        home_wf(s, t) ==> home_decode_spec(s, t) == Ok::<HomeView, DecodeError>(home_fields(s, t)),
{
}

/// A decoded Home packet: an authentication event with the user, finger,
/// scanner serial, action taken and relay activated.
#[derive(Debug, Clone)]
pub struct Home {
    user_id: u16,
    finger: Option<Finger>,
    finger_scanner_serial: u64,
    action: Action,
    relay: Option<Relay>,
}

impl View for Home {
    type V = HomeView;

    closed spec fn view(&self) -> HomeView {
        HomeView {
            user_id: self.user_id as int,
            finger: self.finger,
            finger_scanner_serial: self.finger_scanner_serial as int,
            action: self.action,
            relay: self.relay,
        }
    }
}

impl Home {
    /// Decodes one complete Home packet under the active firmware tables.
    ///
    /// The decode is atomic: it succeeds, consuming the whole input, exactly
    /// when the input is a syntactically valid Home packet, and otherwise
    /// reports the first field failure in scan order.
    pub fn decode(s: &str, tables: &FirmwareTables) -> (r: Result<Home, DecodeError>)
        ensures
            r is Ok <==> home_wf(s@, tables@),
            r matches Ok(h) ==> h@ == home_fields(s@, tables@) && h@.wf(),
            r matches Err(e) ==> Err::<HomeView, DecodeError>(e) == home_decode_spec(s@, tables@),
    {
        let len = s.unicode_len();
        let disc = match scan_char_core(s, len, 0) {
            Ok(c) => c,
            Err(e) => {
                return Err(e);
            },
        };
        if disc != '1' {
            return Err(DecodeError::MalformedField);
        }
        let sep = match scan_char_core(s, len, 1) {
            Ok(c) => c,
            Err(e) => {
                return Err(e);
            },
        };
        let (p, user_id) = match digit_n_core(s, len, 2, 4) {
            Ok(v) => v,
            Err(e) => {
                return Err(e);
            },
        };
        let p = match expect_separator_core(s, len, p, sep) {
            Ok(p) => p,
            Err(e) => {
                return Err(e);
            },
        };
        let (p, finger) = match decode_optional_core(s, len, p, &tables.finger, FieldName::Finger) {
            Ok(v) => v,
            Err(e) => {
                return Err(e);
            },
        };
        let p = match expect_separator_core(s, len, p, sep) {
            Ok(p) => p,
            Err(e) => {
                return Err(e);
            },
        };
        let (p, serial) = match digit_n_core(s, len, p, 14) {
            Ok(v) => v,
            Err(e) => {
                return Err(e);
            },
        };
        let p = match expect_separator_core(s, len, p, sep) {
            Ok(p) => p,
            Err(e) => {
                return Err(e);
            },
        };
        let (p, action) = match decode_required_core(s, len, p, &tables.action, FieldName::Action) {
            Ok(v) => v,
            Err(e) => {
                return Err(e);
            },
        };
        let p = match expect_separator_core(s, len, p, sep) {
            Ok(p) => p,
            Err(e) => {
                return Err(e);
            },
        };
        let (p, relay) = match decode_optional_core(s, len, p, &tables.relay, FieldName::Relay) {
            Ok(v) => v,
            Err(e) => {
                return Err(e);
            },
        };
        if p < len {
            return Err(DecodeError::TrailingData);
        }
        proof {
            lemma_digits_val_bound(s@.subrange(2, 6));
            lemma_digits_val_bound(s@.subrange(9, 23));
            assert(pow10(4) == 10000 && pow10(14) == 100_000_000_000_000) by {
                reveal_with_fuel(pow10, 15);
            }
        }
        Ok(
            Home {
                user_id: user_id as u16,
                finger,
                finger_scanner_serial: serial,
                action,
                relay,
            },
        )
    }

    /// The 4-digit user id.
    pub fn user_id(&self) -> (r: u16)
        ensures
            r as int == self@.user_id,
    {
        self.user_id
    }

    /// The finger presented, or `None` for the sentinel.
    pub fn finger(&self) -> (r: Option<Finger>)
        ensures
            r == self@.finger,
    {
        self.finger
    }

    /// The 14-digit serial number of the reporting finger scanner.
    pub fn finger_scanner_serial(&self) -> (r: u64)
        ensures
            r as int == self@.finger_scanner_serial,
    {
        self.finger_scanner_serial
    }

    /// The action the terminal took.
    pub fn action(&self) -> (r: Action)
        ensures
            r == self@.action,
    {
        self.action
    }

    /// The relay activated, or `None` for the sentinel.
    pub fn relay(&self) -> (r: Option<Relay>)
        ensures
            r == self@.relay,
    {
        self.relay
    }
}

impl core::str::FromStr for Home {
    type Err = DecodeError;

    /// Decodes a Home packet under the standard firmware tables.
    fn from_str(s: &str) -> (r: Result<Home, DecodeError>)
        ensures
            r is Ok <==> home_wf(s@, standard_tables_view()),
            r matches Ok(h) ==> h@ == home_fields(s@, standard_tables_view()) && h@.wf(),
            r matches Err(e) ==> Err::<HomeView, DecodeError>(e) == home_decode_spec(
                s@,
                standard_tables_view(),
            ),
    {
        Home::decode(s, &FirmwareTables::standard())
    }
}

/// A Home packet assembled from its parts as the grammar lays them out,
/// with `sep` as the packet's separator.
pub open spec fn encode_home(
    uid: Seq<char>,
    finger_code: char,
    serial: Seq<char>,
    action_code: char,
    relay_code: char,
    sep: char,
) -> Seq<char> {
    Seq::new(
        27,
        |i: int|
            if i == 0 {
                '1'
            } else if i == 1 || i == 6 || i == 8 || i == 23 || i == 25 {
                sep
            } else if 2 <= i < 6 {
                uid[i - 2]
            } else if i == 7 {
                finger_code
            } else if 9 <= i < 23 {
                serial[i - 9]
            } else if i == 24 {
                action_code
            } else {
                relay_code
            },
    )
}

/// Round trip: a Home packet assembled from any in-domain parts, under any
/// separator character whatsoever, decodes successfully, and every decoded
/// field equals the part it was assembled from.
pub proof fn lemma_home_round_trip(
    uid: Seq<char>,
    finger_code: char,
    serial: Seq<char>,
    action_code: char,
    relay_code: char,
    sep: char,
    t: FirmwareTablesView,
)
    requires
        uid.len() == 4,
        all_digits(uid),
        finger_code == SENTINEL || lookup(t.finger, finger_code) is Some,
        serial.len() == 14,
        all_digits(serial),
        lookup(t.action, action_code) is Some,
        relay_code == SENTINEL || lookup(t.relay, relay_code) is Some,
    ensures
        home_decode_spec(encode_home(uid, finger_code, serial, action_code, relay_code, sep), t)
            == Ok::<HomeView, DecodeError>(
            HomeView {
                user_id: digits_val(uid),
                finger: if finger_code == SENTINEL {
                    None
                } else {
                    lookup(t.finger, finger_code)
                },
                finger_scanner_serial: digits_val(serial),
                action: lookup(t.action, action_code)->0,
                relay: if relay_code == SENTINEL {
                    None
                } else {
                    lookup(t.relay, relay_code)
                },
            },
        ),
{
    let s = encode_home(uid, finger_code, serial, action_code, relay_code, sep);
    assert(s.subrange(2, 6) =~= uid);
    assert(s.subrange(9, 23) =~= serial);
    assert(home_wf(s, t));
}

/// The separator carries no information: re-assembling the same parts with
/// any other separator character decodes to the very same field values.
pub proof fn lemma_home_separator_irrelevant(
    uid: Seq<char>,
    finger_code: char,
    serial: Seq<char>,
    action_code: char,
    relay_code: char,
    sep1: char,
    sep2: char,
    t: FirmwareTablesView,
)
    requires
        uid.len() == 4,
        all_digits(uid),
        finger_code == SENTINEL || lookup(t.finger, finger_code) is Some,
        serial.len() == 14,
        all_digits(serial),
        lookup(t.action, action_code) is Some,
        relay_code == SENTINEL || lookup(t.relay, relay_code) is Some,
    ensures
        home_decode_spec(encode_home(uid, finger_code, serial, action_code, relay_code, sep1), t)
            == home_decode_spec(
            encode_home(uid, finger_code, serial, action_code, relay_code, sep2),
            t,
        ),
{
    lemma_home_round_trip(uid, finger_code, serial, action_code, relay_code, sep1, t);
    lemma_home_round_trip(uid, finger_code, serial, action_code, relay_code, sep2, t);
}

/// Any character appended to an otherwise valid Home packet fails the whole
/// decode with `TrailingData`.
pub proof fn lemma_home_trailing_data(
    uid: Seq<char>,
    finger_code: char,
    serial: Seq<char>,
    action_code: char,
    relay_code: char,
    sep: char,
    extra: Seq<char>,
    t: FirmwareTablesView,
)
    requires
        uid.len() == 4,
        all_digits(uid),
        finger_code == SENTINEL || lookup(t.finger, finger_code) is Some,
        serial.len() == 14,
        all_digits(serial),
        lookup(t.action, action_code) is Some,
        relay_code == SENTINEL || lookup(t.relay, relay_code) is Some,
        extra.len() > 0,
    ensures
        home_decode_spec(
            encode_home(uid, finger_code, serial, action_code, relay_code, sep) + extra,
            t,
        ) == Err::<HomeView, DecodeError>(DecodeError::TrailingData),
{
    let s0 = encode_home(uid, finger_code, serial, action_code, relay_code, sep);
    let s = s0 + extra;
    assert(forall|i: int| 0 <= i < 27 ==> s[i] == s0[i]);
    assert(s.subrange(2, 6) =~= uid);
    assert(s.subrange(9, 23) =~= serial);
}

/// A Home packet of any length other than exactly 27 characters never
/// decodes: in particular, truncating a valid packet anywhere fails it.
pub proof fn lemma_home_wrong_length(s: Seq<char>, t: FirmwareTablesView)
    requires
        s.len() != 27,
    ensures
        home_decode_spec(s, t) is Err,
{
    lemma_home_decode_ok_iff_wf(s, t);
}

/// A finger code absent from the active table fails the whole decode with
/// `UnknownVariant` naming the finger field and the code, whatever stands
/// in the later fields.
pub proof fn lemma_home_unknown_finger(
    uid: Seq<char>,
    finger_code: char,
    serial: Seq<char>,
    action_code: char,
    relay_code: char,
    sep: char,
    t: FirmwareTablesView,
)
    requires
        uid.len() == 4,
        all_digits(uid),
        finger_code != SENTINEL,
        lookup(t.finger, finger_code) is None,
        serial.len() == 14,
    ensures
        home_decode_spec(encode_home(uid, finger_code, serial, action_code, relay_code, sep), t)
            == Err::<HomeView, DecodeError>(
            DecodeError::UnknownVariant(FieldName::Finger, finger_code),
        ),
{
    let s = encode_home(uid, finger_code, serial, action_code, relay_code, sep);
    assert(s.subrange(2, 6) =~= uid);
}

/// An action code absent from the active table fails the whole decode with
/// `UnknownVariant` naming the action field and the code.
pub proof fn lemma_home_unknown_action(
    uid: Seq<char>,
    finger_code: char,
    serial: Seq<char>,
    action_code: char,
    relay_code: char,
    sep: char,
    t: FirmwareTablesView,
)
    requires
        uid.len() == 4,
        all_digits(uid),
        finger_code == SENTINEL || lookup(t.finger, finger_code) is Some,
        serial.len() == 14,
        all_digits(serial),
        lookup(t.action, action_code) is None,
    ensures
        home_decode_spec(encode_home(uid, finger_code, serial, action_code, relay_code, sep), t)
            == Err::<HomeView, DecodeError>(
            DecodeError::UnknownVariant(FieldName::Action, action_code),
        ),
{
    let s = encode_home(uid, finger_code, serial, action_code, relay_code, sep);
    assert(s.subrange(2, 6) =~= uid);
    assert(s.subrange(9, 23) =~= serial);
}

/// A relay code absent from the active table and not the sentinel fails
/// the whole decode with `UnknownVariant` naming the relay field and the
/// code.
pub proof fn lemma_home_unknown_relay(
    uid: Seq<char>,
    finger_code: char,
    serial: Seq<char>,
    action_code: char,
    relay_code: char,
    sep: char,
    t: FirmwareTablesView,
)
    requires
        uid.len() == 4,
        all_digits(uid),
        finger_code == SENTINEL || lookup(t.finger, finger_code) is Some,
        serial.len() == 14,
        all_digits(serial),
        lookup(t.action, action_code) is Some,
        relay_code != SENTINEL,
        lookup(t.relay, relay_code) is None,
    ensures
        home_decode_spec(encode_home(uid, finger_code, serial, action_code, relay_code, sep), t)
            == Err::<HomeView, DecodeError>(
            DecodeError::UnknownVariant(FieldName::Relay, relay_code),
        ),
{
    let s = encode_home(uid, finger_code, serial, action_code, relay_code, sep);
    assert(s.subrange(2, 6) =~= uid);
    assert(s.subrange(9, 23) =~= serial);
}

} // verus!
