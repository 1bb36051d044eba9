//! Error model of the packet decoder.
//!
//! Every error is terminal for the packet in which it occurs: the decode is
//! atomic, so the first field failure is the packet's failure and no partially
//! populated record is ever produced.

use vstd::prelude::*;

verus! {

/// Names the enumerated fields of the two packet layouts, so that an
/// unrecognized code can report which field refused it.
#[derive(Debug, Clone, Copy, PartialEq, Eq, Structural)]
pub enum FieldName {
    /// The finger (or RFID) code field.
    Finger,
    /// The terminal action field.
    Action,
    /// The relay field of a Home packet.
    Relay,
    /// The user status field of a Multi packet.
    UserStatus,
    /// The key field of a Multi packet.
    Key,
    /// The digital input field of a Multi packet.
    DigitalInput,
}

/// Why a packet was refused.
#[derive(Debug, Clone, Copy, PartialEq, Eq, Structural)]
pub enum DecodeError {
    /// A field position holds a character outside the field's character
    /// class (or the discriminator is not `'1'`).
    MalformedField,
    /// A field boundary character does not match the separator resolved from
    /// the packet's second character.
    MalformedSeparator,
    /// A non-sentinel enumerated code has no mapping in the active table.
    UnknownVariant(FieldName, char),
    /// Characters remain after the last defined field.
    TrailingData,
    /// Fewer characters are available than a field requires.
    TruncatedInput,
}

} // verus!
