//! The record shape of the binary "Rare" telemetry frame.
//!
//! Only the field list is known; the wire widths and byte order of the
//! frame are unconfirmed, so no decoder is provided for it and none should
//! be inferred from this shape. It is kept as an open item of the protocol.

use vstd::prelude::*;

verus! {

/// The fields a binary telemetry frame is expected to carry.
#[derive(Debug, Clone)]
pub struct Rare {
    pub version: i32,
    pub cmd: i32,
    pub terminal_id: i32,
    pub terminal_serial: [char; 14],
    pub relay_id: u8,
    pub reserved: u8,
    pub user_id: i32,
    pub finger: i32,
    pub event: [char; 16],
    pub time: [char; 16],
    pub name: u16,
    pub personal_id: u16,
}

} // verus!
