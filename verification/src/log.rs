//! The structured name-to-value view of a decoded packet.
//!
//! A decoded record flattens, without loss, into a list of named primitive
//! values for a downstream logging or telemetry sink: numbers, text, named
//! enum tags, and the marker of an absent optional field.

use vstd::prelude::*;

use crate::action::action_tag;
use crate::finger::finger_tag;
use crate::home::relay_tag;
use crate::home::Home;
use crate::multi::digital_input_tag;
use crate::multi::key_tag;
use crate::multi::user_status_tag;
use crate::multi::Multi;

verus! {

/// One primitive value of the structured view.
#[derive(Debug, Clone, PartialEq)]
pub enum LogValue {
    /// A numeric field.
    Integer(u64),
    /// A text field.
    Text(String),
    /// The snake_case tag of an enumerated field's variant.
    Tag(String),
    /// An optional field that the packet marked absent.
    Absent,
}

impl Home {
    /// Flattens this record into its name-to-value view, one entry per
    /// field, in packet order, without loss of information.
    pub fn log_fields(&self) -> (r: Vec<(String, LogValue)>)
        ensures
            r@.len() == 5,
            r@[0].0@ == "user_id"@,
            r@[0].1 matches LogValue::Integer(u) && u as int == self@.user_id,
            r@[1].0@ == "finger"@,
            self@.finger matches Some(f) ==> r@[1].1 matches LogValue::Tag(t) && t@ == finger_tag(
                f,
            ),
            self@.finger is None ==> r@[1].1 == LogValue::Absent,
            r@[2].0@ == "finger_scanner_serial"@,
            r@[2].1 matches LogValue::Integer(u) && u as int == self@.finger_scanner_serial,
            r@[3].0@ == "action"@,
            r@[3].1 matches LogValue::Tag(t) && t@ == action_tag(self@.action),
            r@[4].0@ == "relay"@,
            self@.relay matches Some(y) ==> r@[4].1 matches LogValue::Tag(t) && t@ == relay_tag(y),
            self@.relay is None ==> r@[4].1 == LogValue::Absent,
    {
        let mut r: Vec<(String, LogValue)> = Vec::new();
        r.push(("user_id".to_owned(), LogValue::Integer(self.user_id() as u64)));
        let finger = match self.finger() {
            Some(f) => LogValue::Tag(f.tag()),
            None => LogValue::Absent,
        };
        r.push(("finger".to_owned(), finger));
        r.push(("finger_scanner_serial".to_owned(), LogValue::Integer(
            self.finger_scanner_serial(),
        )));
        r.push(("action".to_owned(), LogValue::Tag(self.action().tag())));
        let relay = match self.relay() {
            Some(y) => LogValue::Tag(y.tag()),
            None => LogValue::Absent,
        };
        r.push(("relay".to_owned(), relay));
        r
    }
}

impl Multi {
    /// Flattens this record into its name-to-value view, one entry per
    /// field, in packet order, without loss of information.
    pub fn log_fields(&self) -> (r: Vec<(String, LogValue)>)
        ensures
            r@.len() == 9,
            r@[0].0@ == "user_id"@,
            r@[0].1 matches LogValue::Integer(u) && u as int == self@.user_id,
            r@[1].0@ == "user_name"@,
            self@.user_name matches Some(n) ==> r@[1].1 matches LogValue::Text(t) && t@ == n,
            self@.user_name is None ==> r@[1].1 == LogValue::Absent,
            r@[2].0@ == "user_status"@,
            self@.user_status matches Some(u) ==> r@[2].1 matches LogValue::Tag(t) && t@
                == user_status_tag(u),
            self@.user_status is None ==> r@[2].1 == LogValue::Absent,
            r@[3].0@ == "finger"@,
            self@.finger matches Some(f) ==> r@[3].1 matches LogValue::Tag(t) && t@ == finger_tag(
                f,
            ),
            self@.finger is None ==> r@[3].1 == LogValue::Absent,
            r@[4].0@ == "key"@,
            self@.key matches Some(k) ==> r@[4].1 matches LogValue::Tag(t) && t@ == key_tag(k),
            self@.key is None ==> r@[4].1 == LogValue::Absent,
            r@[5].0@ == "finger_scanner_serial"@,
            r@[5].1 matches LogValue::Integer(u) && u as int == self@.finger_scanner_serial,
            r@[6].0@ == "finger_scanner_name"@,
            r@[6].1 matches LogValue::Text(t) && t@ == self@.finger_scanner_name,
            r@[7].0@ == "action"@,
            r@[7].1 matches LogValue::Tag(t) && t@ == action_tag(self@.action),
            r@[8].0@ == "input"@,
            self@.input matches Some(d) ==> r@[8].1 matches LogValue::Tag(t) && t@
                == digital_input_tag(d),
            self@.input is None ==> r@[8].1 == LogValue::Absent,
    {
        let mut r: Vec<(String, LogValue)> = Vec::new();
        r.push(("user_id".to_owned(), LogValue::Integer(self.user_id() as u64)));
        let user_name = match self.user_name() {
            Some(n) => LogValue::Text(n.to_owned()),
            None => LogValue::Absent,
        };
        r.push(("user_name".to_owned(), user_name));
        let user_status = match self.user_staus() {
            Some(u) => LogValue::Tag(u.tag()),
            None => LogValue::Absent,
        };
        r.push(("user_status".to_owned(), user_status));
        let finger = match self.finger() {
            Some(f) => LogValue::Tag(f.tag()),
            None => LogValue::Absent,
        };
        r.push(("finger".to_owned(), finger));
        let key = match self.key() {
            Some(k) => LogValue::Tag(k.tag()),
            None => LogValue::Absent,
        };
        r.push(("key".to_owned(), key));
        r.push(("finger_scanner_serial".to_owned(), LogValue::Integer(
            self.finger_scanner_serial(),
        )));
        r.push(("finger_scanner_name".to_owned(), LogValue::Text(
            self.finger_scanner_name().to_owned(),
        )));
        r.push(("action".to_owned(), LogValue::Tag(self.action().tag())));
        let input = match self.input() {
            Some(d) => LogValue::Tag(d.tag()),
            None => LogValue::Absent,
        };
        r.push(("input".to_owned(), input));
        r
    }
}

} // verus!
