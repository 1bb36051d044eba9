//! Enumerated-field code tables.
//!
//! Each enumerated field is a closed set of variants, each bound to exactly
//! one single-character code. The active code-to-variant table is a
//! configuration input: terminal firmware revisions differ in what the same
//! character codes mean, so the mapping is never compiled into the grammar.

use vstd::prelude::*;

use crate::action::standard_action_codes;
use crate::action::Action;
use crate::error::DecodeError;
use crate::error::FieldName;
use crate::finger::standard_finger_codes;
use crate::finger::Finger;
use crate::home::standard_relay_codes;
use crate::home::Relay;
use crate::multi::digital_input_codes;
use crate::multi::key_codes;
use crate::multi::user_status_codes;
use crate::multi::DigitalInput;
use crate::multi::Key;
use crate::multi::UserStatus;
use crate::scan::SENTINEL;

verus! {

/// First match of a character code in a table of `(code, variant)` pairs.
pub open spec fn lookup<V>(t: Seq<(char, V)>, c: char) -> Option<V>
    decreases t.len(),
{
    if t.len() == 0 {
        None
    } else if t[0].0 == c {
        Some(t[0].1)
    } else {
        lookup(t.subrange(1, t.len() as int), c)
    }
}

/// A single-character-code to variant mapping for one enumerated field type.
#[derive(Debug, Clone)]
pub struct CodeTable<V> {
    pairs: Vec<(char, V)>,
}

impl<V> View for CodeTable<V> {
    type V = Seq<(char, V)>;

    closed spec fn view(&self) -> Seq<(char, V)> {
        self.pairs@
    }
}

impl<V: Copy> CodeTable<V> {
    /// Builds the table for one firmware revision from its `(code, variant)`
    /// pairs. If a code is listed twice, the first entry wins.
    pub fn new(pairs: Vec<(char, V)>) -> (t: CodeTable<V>)
        ensures
            t@ == pairs@,
    {
        CodeTable { pairs }
    }

    /// The variant bound to `c` in this table, if any.
    pub fn get(&self, c: char) -> (r: Option<V>)
        ensures
            r == lookup(self@, c),
    {
        let n = self.pairs.len();
        let mut i: usize = 0;
        proof {
            assert(self.pairs@.subrange(0, n as int) =~= self.pairs@);
        }
        while i < n
            invariant
                i <= n,
                n == self.pairs@.len(),
                lookup(self.pairs@.subrange(i as int, n as int), c) == lookup(self.pairs@, c),
            decreases n - i,
        {
            let entry = self.pairs[i];
            proof {
                let rest = self.pairs@.subrange(i as int, n as int);
                assert(rest[0] == self.pairs@[i as int]);
                assert(rest.subrange(1, rest.len() as int) =~= self.pairs@.subrange(
                    i + 1,
                    n as int,
                ));
            }
            if entry.0 == c {
                return Some(entry.1);
            }
            i = i + 1;
        }
        proof {
            assert(self.pairs@.subrange(n as int, n as int) =~= Seq::<(char, V)>::empty());
        }
        None
    }
}

/// Decodes a required enumerated field: one character, which must be mapped
/// by the active table. An unmapped code never degrades to a default: it
/// refuses the whole packet, naming the field and the code.
pub fn decode_required<V: Copy>(
    s: &str,
    pos: usize,
    table: &CodeTable<V>,
    field: FieldName,
) -> (r: Result<(usize, V), DecodeError>)
    ensures
        r is Ok <==> pos < s@.len() && lookup(table@, s@[pos as int]) is Some,
        r matches Ok(v) ==> v.0 == pos + 1 && Some(v.1) == lookup(table@, s@[pos as int]),
        pos >= s@.len() ==> r == Err::<(usize, V), DecodeError>(DecodeError::TruncatedInput),
        pos < s@.len() && lookup(table@, s@[pos as int]) is None ==> r == Err::<
            (usize, V),
            DecodeError,
        >(DecodeError::UnknownVariant(field, s@[pos as int])),
{
    let len = s.unicode_len();
    decode_required_core(s, len, pos, table, field)
}

/// Core of `decode_required`, taking the input's length counted once by
/// the caller, so that one decode never re-walks the input.
pub(crate) fn decode_required_core<V: Copy>(
    s: &str,
    len: usize,
    pos: usize,
    table: &CodeTable<V>,
    field: FieldName,
) -> (r: Result<(usize, V), DecodeError>)
    requires
        len == s@.len(),
    ensures
        r is Ok <==> pos < s@.len() && lookup(table@, s@[pos as int]) is Some,
        r matches Ok(v) ==> v.0 == pos + 1 && Some(v.1) == lookup(table@, s@[pos as int]),
        pos >= s@.len() ==> r == Err::<(usize, V), DecodeError>(DecodeError::TruncatedInput),
        pos < s@.len() && lookup(table@, s@[pos as int]) is None ==> r == Err::<
            (usize, V),
            DecodeError,
        >(DecodeError::UnknownVariant(field, s@[pos as int])),
{
    if pos >= len {
        return Err(DecodeError::TruncatedInput);
    }
    let c = s.get_char(pos);
    match table.get(c) {
        Some(v) => Ok((pos + 1, v)),
        None => Err(DecodeError::UnknownVariant(field, c)),
    }
}

/// Decodes an optional enumerated field: the sentinel is checked before the
/// table and always takes precedence, decoding to "absent"; any other
/// character must be mapped by the active table.
pub fn decode_optional<V: Copy>(
    s: &str,
    pos: usize,
    table: &CodeTable<V>,
    field: FieldName,
) -> (r: Result<(usize, Option<V>), DecodeError>)
    ensures
        r is Ok <==> pos < s@.len() && (s@[pos as int] == SENTINEL || lookup(
            table@,
            s@[pos as int],
        ) is Some),
        r matches Ok(v) ==> v.0 == pos + 1 && v.1 == (if s@[pos as int] == SENTINEL {
            None
        } else {
            lookup(table@, s@[pos as int])
        }),
        pos >= s@.len() ==> r == Err::<(usize, Option<V>), DecodeError>(
            DecodeError::TruncatedInput,
        ),
        pos < s@.len() && s@[pos as int] != SENTINEL && lookup(table@, s@[pos as int]) is None
            ==> r == Err::<(usize, Option<V>), DecodeError>(
            DecodeError::UnknownVariant(field, s@[pos as int]),
        ),
{
    let len = s.unicode_len();
    decode_optional_core(s, len, pos, table, field)
}

/// Core of `decode_optional`, taking the input's length counted once by
/// the caller, so that one decode never re-walks the input.
pub(crate) fn decode_optional_core<V: Copy>(
    s: &str,
    len: usize,
    pos: usize,
    table: &CodeTable<V>,
    field: FieldName,
) -> (r: Result<(usize, Option<V>), DecodeError>)
    requires
        len == s@.len(),
    ensures
        r is Ok <==> pos < s@.len() && (s@[pos as int] == SENTINEL || lookup(
            table@,
            s@[pos as int],
        ) is Some),
        r matches Ok(v) ==> v.0 == pos + 1 && v.1 == (if s@[pos as int] == SENTINEL {
            None
        } else {
            lookup(table@, s@[pos as int])
        }),
        pos >= s@.len() ==> r == Err::<(usize, Option<V>), DecodeError>(
            DecodeError::TruncatedInput,
        ),
        pos < s@.len() && s@[pos as int] != SENTINEL && lookup(table@, s@[pos as int]) is None
            ==> r == Err::<(usize, Option<V>), DecodeError>(
            DecodeError::UnknownVariant(field, s@[pos as int]),
        ),
{
    if pos >= len {
        return Err(DecodeError::TruncatedInput);
    }
    let c = s.get_char(pos);
    if c == SENTINEL {
        return Ok((pos + 1, None));
    }
    match table.get(c) {
        Some(v) => Ok((pos + 1, Some(v))),
        None => Err(DecodeError::UnknownVariant(field, c)),
    }
}

/// The ghost image of a table set: one code-to-variant sequence per
/// enumerated field type.
pub ghost struct FirmwareTablesView {
    pub finger: Seq<(char, Finger)>,
    pub action: Seq<(char, Action)>,
    pub relay: Seq<(char, Relay)>,
    pub user_status: Seq<(char, UserStatus)>,
    pub key: Seq<(char, Key)>,
    pub input: Seq<(char, DigitalInput)>,
}

/// The active code tables for one terminal firmware revision: one table per
/// enumerated field type, injected into every decode call.
#[derive(Debug, Clone)]
pub struct FirmwareTables {
    pub finger: CodeTable<Finger>,
    pub action: CodeTable<Action>,
    pub relay: CodeTable<Relay>,
    pub user_status: CodeTable<UserStatus>,
    pub key: CodeTable<Key>,
    pub input: CodeTable<DigitalInput>,
}

impl View for FirmwareTables {
    type V = FirmwareTablesView;

    open spec fn view(&self) -> FirmwareTablesView {
        FirmwareTablesView {
            finger: self.finger@,
            action: self.action@,
            relay: self.relay@,
            user_status: self.user_status@,
            key: self.key@,
            input: self.input@,
        }
    }
}

/// The ghost image of the standard firmware revision's table set.
pub open spec fn standard_tables_view() -> FirmwareTablesView {
    FirmwareTablesView {
        finger: standard_finger_codes(),
        action: standard_action_codes(),
        relay: standard_relay_codes(),
        user_status: user_status_codes(),
        key: key_codes(),
        input: digital_input_codes(),
    }
}

impl FirmwareTables {
    /// The table set of the standard firmware revision.
    pub fn standard() -> (t: FirmwareTables)
        ensures
            t@ == standard_tables_view(),
    {
        FirmwareTables {
            finger: Finger::standard_table(),
            action: Action::standard_table(),
            relay: Relay::standard_table(),
            user_status: UserStatus::standard_table(),
            key: Key::standard_table(),
            input: DigitalInput::standard_table(),
        }
    }
}

} // verus!
