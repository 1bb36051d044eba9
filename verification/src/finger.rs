//! The finger (or RFID token) with which a user authenticated.

use vstd::prelude::*;

use crate::tables::CodeTable;

verus! {

/// Which finger was presented to the scanner, or an RFID token.
#[derive(Debug, Clone, Copy, PartialEq, Eq, Structural)]
pub enum Finger {
    /// Left little finger.
    LeftLittle,
    /// Left ring finger.
    LeftRing,
    /// Left middle finger.
    LeftMiddle,
    /// Left index finger.
    LeftIndex,
    /// Left thumb.
    LeftThumb,
    /// Right thumb.
    RightThumb,
    /// Right index finger.
    RightIndex,
    /// Right middle finger.
    RightMiddle,
    /// Right ring finger.
    RightRing,
    /// Right little finger.
    RightLittle,
    /// RFID token.
    Rfid,
}

/// The finger codes of the standard firmware revision.
pub open spec fn standard_finger_codes() -> Seq<(char, Finger)> {
    seq![
        ('1', Finger::LeftLittle),
        ('2', Finger::LeftRing),
        ('3', Finger::LeftMiddle),
        ('4', Finger::LeftIndex),
        ('5', Finger::LeftThumb),
        ('6', Finger::RightThumb),
        ('7', Finger::RightIndex),
        ('8', Finger::RightMiddle),
        ('9', Finger::RightRing),
        ('0', Finger::RightLittle),
        ('R', Finger::Rfid),
    ]
}

/// The snake_case tag under which a finger appears in the structured
/// name-to-value view of a decoded packet.
pub open spec fn finger_tag(f: Finger) -> Seq<char> {
    match f {
        Finger::LeftLittle => "left_little"@,
        Finger::LeftRing => "left_ring"@,
        Finger::LeftMiddle => "left_middle"@,
        Finger::LeftIndex => "left_index"@,
        Finger::LeftThumb => "left_thumb"@,
        Finger::RightThumb => "right_thumb"@,
        Finger::RightIndex => "right_index"@,
        Finger::RightMiddle => "right_middle"@,
        Finger::RightRing => "right_ring"@,
        Finger::RightLittle => "right_little"@,
        Finger::Rfid => "rfid"@,
    }
}

impl Finger {
    /// The finger code table of the standard firmware revision.
    pub fn standard_table() -> (t: CodeTable<Finger>)
        ensures
            t@ == standard_finger_codes(),
    {
        let mut pairs: Vec<(char, Finger)> = Vec::new();
        pairs.push(('1', Finger::LeftLittle));
        pairs.push(('2', Finger::LeftRing));
        pairs.push(('3', Finger::LeftMiddle));
        pairs.push(('4', Finger::LeftIndex));
        pairs.push(('5', Finger::LeftThumb));
        pairs.push(('6', Finger::RightThumb));
        pairs.push(('7', Finger::RightIndex));
        pairs.push(('8', Finger::RightMiddle));
        pairs.push(('9', Finger::RightRing));
        pairs.push(('0', Finger::RightLittle));
        pairs.push(('R', Finger::Rfid));
        proof {
            assert(pairs@ =~= standard_finger_codes());
        }
        CodeTable::new(pairs)
    }

    /// The snake_case tag of this finger.
    pub fn tag(&self) -> (r: String)
        ensures
            r@ == finger_tag(*self),
    {
        match self {
            Finger::LeftLittle => "left_little".to_owned(),
            Finger::LeftRing => "left_ring".to_owned(),
            Finger::LeftMiddle => "left_middle".to_owned(),
            Finger::LeftIndex => "left_index".to_owned(),
            Finger::LeftThumb => "left_thumb".to_owned(),
            Finger::RightThumb => "right_thumb".to_owned(),
            Finger::RightIndex => "right_index".to_owned(),
            Finger::RightMiddle => "right_middle".to_owned(),
            Finger::RightRing => "right_ring".to_owned(),
            Finger::RightLittle => "right_little".to_owned(),
            Finger::Rfid => "rfid".to_owned(),
        }
    }
}

} // verus!
