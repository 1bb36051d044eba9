//! The action reported by a terminal: what the controller decided to do.

use vstd::prelude::*;

use crate::tables::CodeTable;

verus! {

/// The terminal's decision for an authentication or input event.
#[derive(Debug, Clone, Copy, PartialEq, Eq, Structural)]
pub enum Action {
    /// Open.
    Open,
    /// Refuse unrecognized finger.
    RefuseUnrecognizedFinger,
    /// Refuse time slot A user.
    RefuseTimeSlotA,
    /// Refuse time slot B user.
    RefuseTimeSlotB,
    /// Refuse disabled user.
    RefuseDisabled,
    /// Refuse time-restricted user.
    RefuseTimeRestricted,
    /// Finger scanner not paired.
    FingerScannerNotPaired,
    /// Digital input.
    DigitalInput,
    /// One minute code pad lock.
    OneMinuteCodePadLock,
    /// Fifteen minute code pad lock.
    FifteenMinuteCodePadLock,
}

/// The action codes of the standard firmware revision.
pub open spec fn standard_action_codes() -> Seq<(char, Action)> {
    seq![
        ('1', Action::Open),
        ('2', Action::RefuseUnrecognizedFinger),
        ('3', Action::RefuseTimeSlotA),
        ('4', Action::RefuseTimeSlotB),
        ('5', Action::RefuseDisabled),
        ('6', Action::RefuseTimeRestricted),
        ('7', Action::FingerScannerNotPaired),
        ('8', Action::DigitalInput),
        ('A', Action::OneMinuteCodePadLock),
        ('B', Action::FifteenMinuteCodePadLock),
    ]
}

/// The snake_case tag under which an action appears in the structured
/// name-to-value view of a decoded packet.
pub open spec fn action_tag(a: Action) -> Seq<char> {
    match a {
        Action::Open => "open"@,
        Action::RefuseUnrecognizedFinger => "refuse_unrecognized_finger"@,
        Action::RefuseTimeSlotA => "refuse_time_slot_a"@,
        Action::RefuseTimeSlotB => "refuse_time_slot_b"@,
        Action::RefuseDisabled => "refuse_disabled"@,
        Action::RefuseTimeRestricted => "refuse_time_restricted"@,
        Action::FingerScannerNotPaired => "finger_scanner_not_paired"@,
        Action::DigitalInput => "digital_input"@,
        Action::OneMinuteCodePadLock => "one_minute_code_pad_lock"@,
        Action::FifteenMinuteCodePadLock => "fifteen_minute_code_pad_lock"@,
    }
}

impl Action {
    /// The action code table of the standard firmware revision.
    pub fn standard_table() -> (t: CodeTable<Action>)
        ensures
            t@ == standard_action_codes(),
    {
        let mut pairs: Vec<(char, Action)> = Vec::new();
        pairs.push(('1', Action::Open));
        pairs.push(('2', Action::RefuseUnrecognizedFinger));
        pairs.push(('3', Action::RefuseTimeSlotA));
        pairs.push(('4', Action::RefuseTimeSlotB));
        pairs.push(('5', Action::RefuseDisabled));
        pairs.push(('6', Action::RefuseTimeRestricted));
        pairs.push(('7', Action::FingerScannerNotPaired));
        pairs.push(('8', Action::DigitalInput));
        pairs.push(('A', Action::OneMinuteCodePadLock));
        pairs.push(('B', Action::FifteenMinuteCodePadLock));
        proof {
            assert(pairs@ =~= standard_action_codes());
        }
        CodeTable::new(pairs)
    }

    /// The snake_case tag of this action.
    pub fn tag(&self) -> (r: String)
        ensures
            r@ == action_tag(*self),
    {
        match self {
            Action::Open => "open".to_owned(),
            Action::RefuseUnrecognizedFinger => "refuse_unrecognized_finger".to_owned(),
            Action::RefuseTimeSlotA => "refuse_time_slot_a".to_owned(),
            Action::RefuseTimeSlotB => "refuse_time_slot_b".to_owned(),
            Action::RefuseDisabled => "refuse_disabled".to_owned(),
            Action::RefuseTimeRestricted => "refuse_time_restricted".to_owned(),
            Action::FingerScannerNotPaired => "finger_scanner_not_paired".to_owned(),
            Action::DigitalInput => "digital_input".to_owned(),
            Action::OneMinuteCodePadLock => "one_minute_code_pad_lock".to_owned(),
            Action::FifteenMinuteCodePadLock => "fifteen_minute_code_pad_lock".to_owned(),
        }
    }
}

} // verus!
