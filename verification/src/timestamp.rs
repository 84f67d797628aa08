//! Points in time and the choice of which file times an update writes.

use vstd::prelude::*;

verus! {

/// Number of nanoseconds in one second.
pub const NANOS_PER_SECOND: u32 = 1_000_000_000;

/// A point in time: whole seconds since the Unix epoch (negative before it)
/// and nanoseconds counted forward from that second.
#[derive(Clone, Copy, Debug, PartialEq, Eq, Structural)]
pub struct Timestamp {
    pub seconds: i64,
    pub nanos: u32,
}

impl Timestamp {
    /// The sub-second part stays below one second.
    pub open spec fn wf(self) -> bool {
        self.nanos < NANOS_PER_SECOND
    }

    /// The instant as a single count of nanoseconds since the Unix epoch.
    pub open spec fn total_nanos(self) -> int {
        self.seconds * 1_000_000_000 + self.nanos
    }

    /// The well-formed timestamp for `seconds` plus `nanos`, where the
    /// seconds still fit after the carry.
    pub open spec fn spec_new(seconds: i64, nanos: u32) -> Option<Timestamp> {
        let carried = seconds + nanos / NANOS_PER_SECOND;
        if carried <= i64::MAX {
            Some(Timestamp { seconds: carried as i64, nanos: nanos % NANOS_PER_SECOND })
        } else {
            None
        }
    }

    /// Builds a timestamp from a second count and a nanosecond count that may
    /// run past one second (as it does inside a leap second), carrying the
    /// excess into the seconds.
    pub fn new(seconds: i64, nanos: u32) -> (r: Option<Timestamp>)
        ensures
            r == Self::spec_new(seconds, nanos),
            r matches Some(t) ==> t.wf() && t.total_nanos() == seconds * 1_000_000_000 + nanos,
            r is None <==> seconds + nanos / NANOS_PER_SECOND > i64::MAX,
    {
        let carry: u32 = nanos / NANOS_PER_SECOND;
        let rest: u32 = nanos % NANOS_PER_SECOND;
        match seconds.checked_add(carry as i64) {
            Some(carried) => Some(Timestamp { seconds: carried, nanos: rest }),
            None => None,
        }
    }
}

/// Which of a file's two times an update writes.
#[derive(Clone, Copy, Debug, PartialEq, Eq, Structural)]
pub enum TimeUpdate {
    /// Access time and modification time.
    Both,
    /// The access time; the modification time is left alone.
    AccessOnly,
    /// The modification time; the access time is left alone.
    ModificationOnly,
}

impl TimeUpdate {
    /// The update that the two restricting flags select: one flag alone
    /// restricts the update to its time, and both together restrict nothing.
    pub open spec fn spec_from_flags(access: bool, modification: bool) -> TimeUpdate {
        if access == modification {
            TimeUpdate::Both
        } else if access {
            TimeUpdate::AccessOnly
        } else {
            TimeUpdate::ModificationOnly
        }
    }

    pub open spec fn writes_access(self) -> bool {
        self != TimeUpdate::ModificationOnly
    }

    pub open spec fn writes_modification(self) -> bool {
        self != TimeUpdate::AccessOnly
    }

    /// Selects the update from the access-only and modification-only flags.
    pub fn from_flags(access: bool, modification: bool) -> (r: TimeUpdate)
        ensures
            r == Self::spec_from_flags(access, modification),
            r.writes_access() <==> (access || !modification),
            r.writes_modification() <==> (modification || !access),
    {
        if access == modification {
            TimeUpdate::Both
        } else if access {
            TimeUpdate::AccessOnly
        } else {
            TimeUpdate::ModificationOnly
        }
    }
}

} // verus!
