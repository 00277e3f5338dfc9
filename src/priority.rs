use vstd::prelude::*;

verus! {

/// Urgency of a notification, on the service's five-point scale.
#[derive(Debug, Clone, Copy, PartialEq, Eq, Structural)]
pub enum NtfyPriority {
    Minimum,
    Low,
    Default,
    High,
    Maximum,
}

/// The integer that stands for a level on the wire.
pub open spec fn priority_code(p: NtfyPriority) -> u8 {
    match p {
        NtfyPriority::Minimum => 1,
        NtfyPriority::Low => 2,
        NtfyPriority::Default => 3,
        NtfyPriority::High => 4,
        NtfyPriority::Maximum => 5,
    }
}

/// The level that an integer read from the wire stands for: the four
/// integers 1, 2, 4 and 5 name their levels, every other one falls back
/// to `Default`.
pub open spec fn priority_of_int(n: int) -> NtfyPriority {
    if n == 1 {
        NtfyPriority::Minimum
    } else if n == 2 {
        NtfyPriority::Low
    } else if n == 4 {
        NtfyPriority::High
    } else if n == 5 {
        NtfyPriority::Maximum
    } else {
        NtfyPriority::Default
    }
}

impl Default for NtfyPriority {
    fn default() -> (r: Self)
        ensures
            r == NtfyPriority::Default,
    {
        NtfyPriority::Default
    }
}

impl From<NtfyPriority> for u8 {
    fn from(priority: NtfyPriority) -> (r: u8)
        ensures
            r == priority_code(priority),
    {
        match priority {
            NtfyPriority::Minimum => 1,
            NtfyPriority::Low => 2,
            NtfyPriority::Default => 3,
            NtfyPriority::High => 4,
            NtfyPriority::Maximum => 5,
        }
    }
}

impl vstd::std_specs::convert::FromSpecImpl<NtfyPriority> for u8 {
    open spec fn obeys_from_spec() -> bool {
        true
    }

    open spec fn from_spec(v: NtfyPriority) -> u8 {
        priority_code(v)
    }
}

impl From<u8> for NtfyPriority {
    fn from(value: u8) -> (r: NtfyPriority)
        ensures
            r == priority_of_int(value as int),
    {
        match value {
            1 => NtfyPriority::Minimum,
            2 => NtfyPriority::Low,
            4 => NtfyPriority::High,
            5 => NtfyPriority::Maximum,
            _ => NtfyPriority::Default,
        }
    }
}

impl vstd::std_specs::convert::FromSpecImpl<u8> for NtfyPriority {
    open spec fn obeys_from_spec() -> bool {
        true
    }

    open spec fn from_spec(v: u8) -> NtfyPriority {
        priority_of_int(v as int)
    }
}

impl NtfyPriority {
    /// The wire integer of this level.
    pub fn code(self) -> (r: u8)
        ensures
            r == priority_code(self),
    {
        u8::from(self)
    }

    /// The level for any unsigned integer read from the wire; values that
    /// do not fit a byte fall back to `Default` like every other unknown one.
    pub fn from_wire_int(n: u64) -> (r: NtfyPriority)
        ensures
            r == priority_of_int(n as int),
    {
        if n <= 255 {
            NtfyPriority::from(n as u8)
        } else {
            NtfyPriority::Default
        }
    }
}

/// Encoding a level and decoding the integer gives the level back.
pub proof fn lemma_priority_round_trip(p: NtfyPriority)
    ensures
        priority_of_int(priority_code(p) as int) == p,
{
}

/// Every integer outside {1, 2, 4, 5} decodes to `Default`.
pub proof fn lemma_priority_fallback(n: int)
    requires
        n != 1 && n != 2 && n != 4 && n != 5,
    ensures
        priority_of_int(n) == NtfyPriority::Default,
{
}

/// Decoding never yields a level whose code differs from the integer
/// unless it fell back to `Default`.
pub proof fn lemma_priority_decode_exact(n: int, p: NtfyPriority)
    requires
        priority_of_int(n) == p,
        p != NtfyPriority::Default,
    ensures
        priority_code(p) as int == n,
{
}

} // verus!
