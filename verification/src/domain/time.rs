use vstd::prelude::*;

verus! {

/// A point in time: whole seconds since the Unix epoch and the nanoseconds
/// within that second.
#[derive(Clone, Copy, Debug, PartialEq, Eq, Structural)]
pub struct Timestamp {
    pub secs: i64,
    pub nanos: u32,
}

/// Nanoseconds in a second.
pub const NANOS_PER_SEC: i128 = 1_000_000_000i128;

impl Timestamp {
    /// Nanoseconds since the Unix epoch.
    pub open spec fn total_nanos(self) -> int {
        self.secs * 1_000_000_000 + self.nanos
    }
}

/// Whole seconds from `earlier` to `later`, rounded toward zero (negative when
/// `later` comes first).
pub open spec fn whole_seconds_between(later: Timestamp, earlier: Timestamp) -> int {
    let d = later.total_nanos() - earlier.total_nanos();
    if d >= 0 {
        d / 1_000_000_000
    } else {
        -((-d) / 1_000_000_000)
    }
}

/// Whole seconds elapsed from `earlier` to `later`, truncated toward zero.
pub fn seconds_between(later: Timestamp, earlier: Timestamp) -> (r: i128)
    ensures
        r == whole_seconds_between(later, earlier),
{
    let ds: i128 = later.secs as i128 - earlier.secs as i128;
    let dn: i128 = later.nanos as i128 - earlier.nanos as i128;
    assert(-0x1_0000_0000_0000_0000i128 <= ds <= 0x1_0000_0000_0000_0000i128);
    assert(-0x1_0000_0000_0000_0000_0000_0000i128 <= ds * NANOS_PER_SEC
        <= 0x1_0000_0000_0000_0000_0000_0000i128) by (nonlinear_arith)
        requires
            -0x1_0000_0000_0000_0000i128 <= ds <= 0x1_0000_0000_0000_0000i128,
            NANOS_PER_SEC == 1_000_000_000,
    ;
    let d: i128 = ds * NANOS_PER_SEC + dn;
    assert(d == later.total_nanos() - earlier.total_nanos()) by (nonlinear_arith)
        requires
            ds == later.secs - earlier.secs,
            dn == later.nanos - earlier.nanos,
            d == ds * 1_000_000_000 + dn,
    ;
    if d >= 0 {
        d / NANOS_PER_SEC
    } else {
        let m: i128 = 0 - d;
        0 - m / NANOS_PER_SEC
    }
}

} // verus!
