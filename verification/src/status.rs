//! Reports that the host sends to the controller: rumble levels and the
//! pattern of the ring of LEDs.
//!
//! A host report is told apart by its first byte together with its total
//! length: `0x00` and eight bytes is a rumble report, `0x01` and three bytes
//! an LED report. Anything else is not parsed.

use vstd::prelude::*;

verus! {

/// Strength of the two rumble motors.
#[derive(Debug, Clone, Copy, PartialEq, Eq, Structural, Default)]
pub struct XinputRumbleState {
    pub left: u8,
    pub right: u8,
}

/// Animation of the ring of LEDs, by its code on the wire.
#[derive(Debug, Clone, Copy, PartialEq, Eq, Structural, Hash)]
pub enum XinputLedPattern {
    Off,
    Blink,
    Flash1,
    Flash2,
    Flash3,
    Flash4,
    On1,
    On2,
    On3,
    On4,
    Rotate,
    BlinkOnce,
    BlinkSlow,
    Alternate,
}

impl XinputLedPattern {
    /// The code of the pattern on the wire, `0x00` to `0x0D`.
    pub open spec fn code(self) -> u8 {
        match self {
            XinputLedPattern::Off => 0x00,
            XinputLedPattern::Blink => 0x01,
            XinputLedPattern::Flash1 => 0x02,
            XinputLedPattern::Flash2 => 0x03,
            XinputLedPattern::Flash3 => 0x04,
            XinputLedPattern::Flash4 => 0x05,
            XinputLedPattern::On1 => 0x06,
            XinputLedPattern::On2 => 0x07,
            XinputLedPattern::On3 => 0x08,
            XinputLedPattern::On4 => 0x09,
            XinputLedPattern::Rotate => 0x0A,
            XinputLedPattern::BlinkOnce => 0x0B,
            XinputLedPattern::BlinkSlow => 0x0C,
            XinputLedPattern::Alternate => 0x0D,
        }
    }

    /// The pattern that a code stands for; codes above `0x0D` stand for none.
    pub open spec fn of_code(code: u8) -> Option<XinputLedPattern> {
        if code == 0x00 {
            Some(XinputLedPattern::Off)
        } else if code == 0x01 {
            Some(XinputLedPattern::Blink)
        } else if code == 0x02 {
            Some(XinputLedPattern::Flash1)
        } else if code == 0x03 {
            Some(XinputLedPattern::Flash2)
        } else if code == 0x04 {
            Some(XinputLedPattern::Flash3)
        } else if code == 0x05 {
            Some(XinputLedPattern::Flash4)
        } else if code == 0x06 {
            Some(XinputLedPattern::On1)
        } else if code == 0x07 {
            Some(XinputLedPattern::On2)
        } else if code == 0x08 {
            Some(XinputLedPattern::On3)
        } else if code == 0x09 {
            Some(XinputLedPattern::On4)
        } else if code == 0x0A {
            Some(XinputLedPattern::Rotate)
        } else if code == 0x0B {
            Some(XinputLedPattern::BlinkOnce)
        } else if code == 0x0C {
            Some(XinputLedPattern::BlinkSlow)
        } else if code == 0x0D {
            Some(XinputLedPattern::Alternate)
        } else {
            None
        }
    }

    /// The code of the pattern on the wire.
    pub fn to_primitive(&self) -> (code: u8)
        ensures
            code == self.code(),
            code <= 0x0D,
    {
        match self {
            XinputLedPattern::Off => 0x00,
            XinputLedPattern::Blink => 0x01,
            XinputLedPattern::Flash1 => 0x02,
            XinputLedPattern::Flash2 => 0x03,
            XinputLedPattern::Flash3 => 0x04,
            XinputLedPattern::Flash4 => 0x05,
            XinputLedPattern::On1 => 0x06,
            XinputLedPattern::On2 => 0x07,
            XinputLedPattern::On3 => 0x08,
            XinputLedPattern::On4 => 0x09,
            XinputLedPattern::Rotate => 0x0A,
            XinputLedPattern::BlinkOnce => 0x0B,
            XinputLedPattern::BlinkSlow => 0x0C,
            XinputLedPattern::Alternate => 0x0D,
        }
    }

    /// The pattern with the given code, `None` for a code above `0x0D`.
    pub fn from_primitive(code: u8) -> (pattern: Option<XinputLedPattern>)
        ensures
            pattern == Self::of_code(code),
            pattern is Some <==> code <= 0x0D,
            pattern matches Some(p) ==> p.code() == code,
    {
        match code {
            0x00 => Some(XinputLedPattern::Off),
            0x01 => Some(XinputLedPattern::Blink),
            0x02 => Some(XinputLedPattern::Flash1),
            0x03 => Some(XinputLedPattern::Flash2),
            0x04 => Some(XinputLedPattern::Flash3),
            0x05 => Some(XinputLedPattern::Flash4),
            0x06 => Some(XinputLedPattern::On1),
            0x07 => Some(XinputLedPattern::On2),
            0x08 => Some(XinputLedPattern::On3),
            0x09 => Some(XinputLedPattern::On4),
            0x0A => Some(XinputLedPattern::Rotate),
            0x0B => Some(XinputLedPattern::BlinkOnce),
            0x0C => Some(XinputLedPattern::BlinkSlow),
            0x0D => Some(XinputLedPattern::Alternate),
            _ => None,
        }
    }
}

/// A report from the host, parsed.
#[derive(Debug, Clone, Copy, PartialEq, Eq, Structural)]
pub enum XinputHostStatus {
    /// Rumble status
    Rumble(XinputRumbleState),
    /// LED status
    Led(XinputLedPattern),
    /// Unknown status packet, not parsed
    Unknown,
}

impl XinputHostStatus {
    /// What the bytes of a host report stand for.
    pub open spec fn parse(value: Seq<u8>) -> XinputHostStatus {
        if value.len() == 8 && value[0] == 0x00 {
            XinputHostStatus::Rumble(XinputRumbleState { left: value[3], right: value[4] })
        } else if value.len() == 3 && value[0] == 0x01 {
            match XinputLedPattern::of_code(value[2]) {
                Some(pattern) => XinputHostStatus::Led(pattern),
                None => XinputHostStatus::Unknown,
            }
        } else {
            XinputHostStatus::Unknown
        }
    }
}

impl From<&[u8]> for XinputHostStatus {
    /// Build XinputHostStatus from raw host report
    fn from(value: &[u8]) -> (status: XinputHostStatus) {
        if value.len() == 8 && value[0] == 0x00 {
            XinputHostStatus::Rumble(XinputRumbleState { left: value[3], right: value[4] })
        } else if value.len() == 3 && value[0] == 0x01 {
            match XinputLedPattern::from_primitive(value[2]) {
                Some(led_pattern) => XinputHostStatus::Led(led_pattern),
                None => XinputHostStatus::Unknown,
            }
        } else {
            XinputHostStatus::Unknown
        }
    }
}

impl vstd::std_specs::convert::FromSpecImpl<&[u8]> for XinputHostStatus {
    open spec fn obeys_from_spec() -> bool {
        true
    }

    open spec fn from_spec(value: &[u8]) -> XinputHostStatus {
        XinputHostStatus::parse(value@)
    }
}

/// A code and the pattern it stands for determine each other.
pub proof fn lemma_led_code_round_trip(pattern: XinputLedPattern, code: u8)
    ensures
        XinputLedPattern::of_code(pattern.code()) == Some(pattern),
        pattern.code() <= 0x0D,
        XinputLedPattern::of_code(code) is Some <==> code <= 0x0D,
        XinputLedPattern::of_code(code) matches Some(p) ==> p.code() == code,
{
}

/// How host reports are told apart: a rumble report is eight bytes that
/// start with `0x00` and carries its levels in the fourth and fifth byte; an
/// LED report is three bytes that start with `0x01` and carries its code in
/// the third, and is unknown when the code is above `0x0D`; every other
/// length or first byte is unknown.
pub proof fn lemma_host_status_cases(value: Seq<u8>)
    ensures
        value.len() == 8 && value[0] == 0x00 ==> XinputHostStatus::parse(value)
            == XinputHostStatus::Rumble(XinputRumbleState { left: value[3], right: value[4] }),
        value.len() == 3 && value[0] == 0x01 && value[2] <= 0x0D ==> (XinputHostStatus::parse(value)
            matches XinputHostStatus::Led(p) && p.code() == value[2]),
        value.len() == 3 && value[0] == 0x01 && value[2] > 0x0D ==> XinputHostStatus::parse(value)
            == XinputHostStatus::Unknown,
        !(value.len() == 8 && value[0] == 0x00) && !(value.len() == 3 && value[0] == 0x01)
            ==> XinputHostStatus::parse(value) == XinputHostStatus::Unknown,
{
}

} // verus!
