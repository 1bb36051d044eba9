//! Decoder for fixed-layout ASCII event packets reported by door-entry
//! terminals (fingerprint/RFID access controllers).
//!
//! A packet is an ASCII line whose delimiter is not a protocol constant: the
//! second character of every packet is taken verbatim as that packet's
//! separator, and the same character must recur at every field boundary.
//! Fields have fixed order and fixed width; optional fields use the sentinel
//! `'-'`; enumerated fields are decoded through swappable per-firmware code
//! tables. The decode is atomic: the first malformed field invalidates the
//! whole packet, and no partially populated record is ever returned.

mod action;
mod error;
mod finger;
pub mod home;
pub mod log;
pub mod multi;
pub mod rare;
pub mod scan;
pub mod tables;

pub use action::action_tag;
pub use action::standard_action_codes;
pub use action::Action;
pub use error::DecodeError;
pub use error::FieldName;
pub use finger::finger_tag;
pub use finger::standard_finger_codes;
pub use finger::Finger;
pub use scan::alphanumeric;
pub use scan::alphanumeric_n;
pub use scan::digit;
pub use scan::digit_n;
