use vstd::prelude::*;

use crate::text::str_eq;

verus! {

/// Whether a node belongs to the standard feature set or is vendor specific.
#[derive(Debug, Clone, Copy, PartialEq, Eq, Structural)]
pub enum NameSpace {
    Standard,
    Custom,
}

/// Which definition wins when several schema fragments define the same name.
#[derive(Debug, Clone, Copy, PartialEq, Eq, Structural)]
pub enum MergePriority {
    High,
    Mid,
    Low,
}

/// The audience that a node is meant for.
#[derive(Debug, Clone, Copy, PartialEq, Eq, Structural)]
pub enum Visibility {
    Beginner,
    Expert,
    Guru,
    Invisible,
}

/// Read and write rights.
#[derive(Debug, Clone, Copy, PartialEq, Eq, Structural)]
pub enum AccessMode {
    RO,
    WO,
    RW,
}

/// How a user interface should present an integer value.
#[derive(Debug, Clone, Copy, PartialEq, Eq, Structural)]
pub enum IntegerRepresentation {
    Linear,
    Logarithmic,
    Boolean,
    PureNumber,
    HexNumber,
    IpV4Address,
    MacAddress,
}

/// How a user interface should present a floating-point value.
#[derive(Debug, Clone, Copy, PartialEq, Eq, Structural)]
pub enum FloatRepresentation {
    Linear,
    Logarithmic,
    PureNumber,
}

/// The notation in which a floating-point value is shown.
#[derive(Debug, Clone, Copy, PartialEq, Eq, Structural)]
pub enum DisplayNotation {
    Automatic,
    Fixed,
    Scientific,
}

/// Whether the legal values of a numeric node lie on a fixed step from its minimum.
#[derive(Debug, Clone, Copy, PartialEq, Eq, Structural)]
pub enum IncrementMode {
    FixedIncrement,
    VariableIncrement,
}

pub open spec fn name_space_of(t: Seq<char>) -> Option<NameSpace> {
    if t == "Standard"@ {
        Some(NameSpace::Standard)
    } else if t == "Custom"@ {
        Some(NameSpace::Custom)
    } else {
        None
    }
}

pub open spec fn merge_priority_of(t: Seq<char>) -> Option<MergePriority> {
    if t == "1"@ {
        Some(MergePriority::High)
    } else if t == "0"@ {
        Some(MergePriority::Mid)
    } else if t == "-1"@ {
        Some(MergePriority::Low)
    } else {
        None
    }
}

pub open spec fn visibility_of(t: Seq<char>) -> Option<Visibility> {
    if t == "Beginner"@ {
        Some(Visibility::Beginner)
    } else if t == "Expert"@ {
        Some(Visibility::Expert)
    } else if t == "Guru"@ {
        Some(Visibility::Guru)
    } else if t == "Invisible"@ {
        Some(Visibility::Invisible)
    } else {
        None
    }
}

pub open spec fn access_mode_of(t: Seq<char>) -> Option<AccessMode> {
    if t == "RO"@ {
        Some(AccessMode::RO)
    } else if t == "WO"@ {
        Some(AccessMode::WO)
    } else if t == "RW"@ {
        Some(AccessMode::RW)
    } else {
        None
    }
}

pub open spec fn bool_of(t: Seq<char>) -> Option<bool> {
    if t == "Yes"@ {
        Some(true)
    } else if t == "No"@ {
        Some(false)
    } else {
        None
    }
}

impl NameSpace {
    /// Reads `Standard` or `Custom`.
    pub fn from_text(t: &str) -> (r: Option<NameSpace>)
        ensures
            r == name_space_of(t@),
    {
        proof {
            reveal_strlit("Standard");
            reveal_strlit("Custom");
        }
        if str_eq(t, "Standard") {
            Some(NameSpace::Standard)
        } else if str_eq(t, "Custom") {
            Some(NameSpace::Custom)
        } else {
            None
        }
    }
}

impl MergePriority {
    /// Reads `1`, `0` or `-1`.
    pub fn from_text(t: &str) -> (r: Option<MergePriority>)
        ensures
            r == merge_priority_of(t@),
    {
        proof {
            reveal_strlit("1");
            reveal_strlit("0");
            reveal_strlit("-1");
        }
        if str_eq(t, "1") {
            Some(MergePriority::High)
        } else if str_eq(t, "0") {
            Some(MergePriority::Mid)
        } else if str_eq(t, "-1") {
            Some(MergePriority::Low)
        } else {
            None
        }
    }
}

impl Visibility {
    /// Reads `Beginner`, `Expert`, `Guru` or `Invisible`.
    pub fn from_text(t: &str) -> (r: Option<Visibility>)
        ensures
            r == visibility_of(t@),
    {
        proof {
            reveal_strlit("Beginner");
            reveal_strlit("Expert");
            reveal_strlit("Guru");
            reveal_strlit("Invisible");
        }
        if str_eq(t, "Beginner") {
            Some(Visibility::Beginner)
        } else if str_eq(t, "Expert") {
            Some(Visibility::Expert)
        } else if str_eq(t, "Guru") {
            Some(Visibility::Guru)
        } else if str_eq(t, "Invisible") {
            Some(Visibility::Invisible)
        } else {
            None
        }
    }
}

impl AccessMode {
    /// Reads `RO`, `WO` or `RW`.
    pub fn from_text(t: &str) -> (r: Option<AccessMode>)
        ensures
            r == access_mode_of(t@),
    {
        proof {
            reveal_strlit("RO");
            reveal_strlit("WO");
            reveal_strlit("RW");
        }
        if str_eq(t, "RO") {
            Some(AccessMode::RO)
        } else if str_eq(t, "WO") {
            Some(AccessMode::WO)
        } else if str_eq(t, "RW") {
            Some(AccessMode::RW)
        } else {
            None
        }
    }
}

/// Reads `Yes` or `No`.
pub fn bool_from_text(t: &str) -> (r: Option<bool>)
    ensures
        r == bool_of(t@),
{
    proof {
        reveal_strlit("Yes");
        reveal_strlit("No");
    }
    if str_eq(t, "Yes") {
        Some(true)
    } else if str_eq(t, "No") {
        Some(false)
    } else {
        None
    }
}

} // verus!
