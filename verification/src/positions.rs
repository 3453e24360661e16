//! Position taxonomy. Position bodies reach the consumer as the JSON
//! documents the broker sent (their many decimal fields are pass-through
//! data the core never reads); the direction enumeration is shared wire
//! vocabulary.
use vstd::prelude::*;
use crate::json::str_eq;

verus! {

/// Which way a position points.
#[derive(Debug, Clone, Copy, PartialEq, Eq, Structural)]
pub enum QuantityDirection {
    Long,
    Short,
    Zero,
}

impl QuantityDirection {
    /// The name this variant carries on the wire.
    pub open spec fn wire(self) -> Seq<char> {
        match self {
            QuantityDirection::Long => "Long"@,
            QuantityDirection::Short => "Short"@,
            QuantityDirection::Zero => "Zero"@,
        }
    }

    /// The variant a wire name denotes.
    pub open spec fn from_wire(s: Seq<char>) -> Option<QuantityDirection> {
        if s == "Long"@ {
            Some(QuantityDirection::Long)
        } else if s == "Short"@ {
            Some(QuantityDirection::Short)
        } else if s == "Zero"@ {
            Some(QuantityDirection::Zero)
        } else {
            None
        }
    }

    pub fn wire_name(&self) -> (r: &'static str)
        ensures
            r@ == self.wire(),
    {
        match self {
            QuantityDirection::Long => "Long",
            QuantityDirection::Short => "Short",
            QuantityDirection::Zero => "Zero",
        }
    }

    pub fn parse_wire(s: &str) -> (r: Option<QuantityDirection>)
        ensures
            r == Self::from_wire(s@),
    {
        if str_eq(s, "Long") {
            Some(QuantityDirection::Long)
        } else if str_eq(s, "Short") {
            Some(QuantityDirection::Short)
        } else if str_eq(s, "Zero") {
            Some(QuantityDirection::Zero)
        } else {
            None
        }
    }
}

} // verus!
