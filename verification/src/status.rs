//! The closed set of issue statuses, with the display facts each variant
//! derives: marker glyph, embed colour, display name and priority weight.

use vstd::prelude::*;

verus! {

/// Status of a tracked issue. `Resolved` and `Closed` are the terminal
/// variants: once a record carries one of them, no mutating control is
/// offered for it any more.
#[derive(Clone, Copy, PartialEq, Eq, Structural, Debug)]
pub enum BugStatus {
    Resolved,
    Low,
    Medium,
    High,
    Critical,
    Closed,
    ForgeVanilla,
}

/// Ordering applied to a record listing: insertion time or priority weight,
/// each either ascending or descending. The payload is true for ascending.
#[derive(Clone, Copy, PartialEq, Eq, Structural, Debug)]
pub enum BugOrder {
    Unordered,
    Chronological(bool),
    Priority(bool),
}

impl BugStatus {
    /// A terminal status accepts no further transition request from the
    /// display engine.
    pub open spec fn spec_is_terminal(self) -> bool {
        self == BugStatus::Resolved || self == BugStatus::Closed
    }

    #[verifier::when_used_as_spec(spec_is_terminal)]
    pub fn is_terminal(self) -> (r: bool)
        ensures
            r == self.spec_is_terminal(),
    {
        match self {
            BugStatus::Resolved | BugStatus::Closed => true,
            _ => false,
        }
    }

    /// Weight used by priority ordering; strictly increasing with urgency,
    /// terminal and miscellaneous variants below every open priority.
    pub open spec fn spec_weight(self) -> int {
        match self {
            BugStatus::Resolved => 0,
            BugStatus::Closed => 1,
            BugStatus::ForgeVanilla => 2,
            BugStatus::Low => 3,
            BugStatus::Medium => 4,
            BugStatus::High => 5,
            BugStatus::Critical => 6,
        }
    }

    pub fn weight(self) -> (r: u32)
        ensures
            r == self.spec_weight(),
    {
        match self {
            BugStatus::Resolved => 0,
            BugStatus::Closed => 1,
            BugStatus::ForgeVanilla => 2,
            BugStatus::Low => 3,
            BugStatus::Medium => 4,
            BugStatus::High => 5,
            BugStatus::Critical => 6,
        }
    }

    pub open spec fn spec_marker(self) -> Seq<char> {
        match self {
            BugStatus::Resolved => "✅"@,
            BugStatus::Low => "🟦"@,
            BugStatus::Medium => "🟨"@,
            BugStatus::High => "🟧"@,
            BugStatus::Critical => "🟥"@,
            BugStatus::Closed => "❌"@,
            BugStatus::ForgeVanilla => "🛠️"@,
        }
    }

    /// Marker glyph shown before a record's title.
    pub fn marker(self) -> (r: &'static str)
        ensures
            r@ == self.spec_marker(),
    {
        match self {
            BugStatus::Resolved => "✅",
            BugStatus::Low => "🟦",
            BugStatus::Medium => "🟨",
            BugStatus::High => "🟧",
            BugStatus::Critical => "🟥",
            BugStatus::Closed => "❌",
            BugStatus::ForgeVanilla => "🛠️",
        }
    }

    pub open spec fn spec_name(self) -> Seq<char> {
        match self {
            BugStatus::Resolved => "resolved"@,
            BugStatus::Low => "low"@,
            BugStatus::Medium => "medium"@,
            BugStatus::High => "high"@,
            BugStatus::Critical => "critical"@,
            BugStatus::Closed => "closed"@,
            BugStatus::ForgeVanilla => "forgevanilla"@,
        }
    }

    /// Lower-case display name, as it appears in titles and footers.
    pub fn name(self) -> (r: &'static str)
        ensures
            r@ == self.spec_name(),
    {
        match self {
            BugStatus::Resolved => "resolved",
            BugStatus::Low => "low",
            BugStatus::Medium => "medium",
            BugStatus::High => "high",
            BugStatus::Critical => "critical",
            BugStatus::Closed => "closed",
            BugStatus::ForgeVanilla => "forgevanilla",
        }
    }

    pub open spec fn spec_colour(self) -> u32 {
        match self {
            BugStatus::Resolved => 0x2ECC71,
            BugStatus::Low => 0x3498DB,
            BugStatus::Medium => 0xF1C40F,
            BugStatus::High => 0xE67E22,
            BugStatus::Critical => 0xE74C3C,
            BugStatus::Closed => 0x992D22,
            BugStatus::ForgeVanilla => 0x95A5A6,
        }
    }

    /// Embed colour associated with the status, as an RGB word.
    #[verifier::when_used_as_spec(spec_colour)]
    pub fn colour(self) -> (r: u32)
        ensures
            r == self.spec_colour(),
    {
        match self {
            BugStatus::Resolved => 0x2ECC71,
            BugStatus::Low => 0x3498DB,
            BugStatus::Medium => 0xF1C40F,
            BugStatus::High => 0xE67E22,
            BugStatus::Critical => 0xE74C3C,
            BugStatus::Closed => 0x992D22,
            BugStatus::ForgeVanilla => 0x95A5A6,
        }
    }
}

impl Default for BugStatus {
    /// A newly tracked issue that names no status starts at medium priority.
    fn default() -> (r: Self)
        ensures
            r == BugStatus::Medium,
    {
        BugStatus::Medium
    }
}

} // verus!
