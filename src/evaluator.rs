use vstd::prelude::*;

use crate::elem_type::{AccessMode, IncrementMode};

verus! {

pub open spec fn allows_read(mode: AccessMode) -> bool {
    mode != AccessMode::WO
}

pub open spec fn allows_write(mode: AccessMode) -> bool {
    mode != AccessMode::RO
}

/// A node is readable when it is implemented and available, and neither its own
/// mode nor the imposed ceiling forbids reading.
pub open spec fn readable_of(own: AccessMode, imposed: AccessMode, implemented: bool, available: bool) -> bool {
    implemented && available && allows_read(own) && allows_read(imposed)
}

/// A node is writable when it is implemented, available and not locked, and
/// neither its own mode nor the imposed ceiling forbids writing.
pub open spec fn writable_of(
    own: AccessMode,
    imposed: AccessMode,
    implemented: bool,
    available: bool,
    locked: bool,
) -> bool {
    implemented && available && !locked && allows_write(own) && allows_write(imposed)
}

pub fn readable(own: AccessMode, imposed: AccessMode, implemented: bool, available: bool) -> (r: bool)
    ensures
        r == readable_of(own, imposed, implemented, available),
{
    implemented && available && !matches!(own, AccessMode::WO) && !matches!(imposed, AccessMode::WO)
}

pub fn writable(own: AccessMode, imposed: AccessMode, implemented: bool, available: bool, locked: bool) -> (r: bool)
    ensures
        r == writable_of(own, imposed, implemented, available, locked),
{
    implemented && available && !locked && !matches!(own, AccessMode::RO) && !matches!(
        imposed,
        AccessMode::RO,
    )
}

/// A read-only ceiling forbids writing, whatever the dependencies evaluate to.
pub proof fn lemma_access_ceiling(own: AccessMode, implemented: bool, available: bool, locked: bool)
    ensures
        !writable_of(own, AccessMode::RO, implemented, available, locked),
{
}

/// A lock forbids writing, even under a read-write ceiling on an available node.
pub proof fn lemma_lock_dominance(own: AccessMode, imposed: AccessMode, implemented: bool, available: bool)
    ensures
        !writable_of(own, imposed, implemented, available, true),
{
}

/// A value may be set when it lies within the bounds and, under a fixed
/// increment, on a step of `inc` from `min`.
pub open spec fn value_allowed(v: int, min: int, max: int, mode: IncrementMode, inc: int) -> bool {
    &&& min <= v <= max
    &&& mode == IncrementMode::FixedIncrement ==> inc > 0 && (v - min) % inc == 0
}

pub fn check_value(v: i64, min: i64, max: i64, mode: IncrementMode, inc: i64) -> (r: bool)
    ensures
        r == value_allowed(v as int, min as int, max as int, mode, inc as int),
{
    if v < min || v > max {
        return false;
    }
    match mode {
        IncrementMode::FixedIncrement => {
            if inc <= 0 {
                return false;
            }
            let d: i128 = v as i128 - min as i128;
            d % (inc as i128) == 0
        },
        IncrementMode::VariableIncrement => true,
    }
}

} // verus!
