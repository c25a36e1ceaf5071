use vstd::prelude::*;

verus! {

/// A metric of the simulator that a command can pin or release.
#[derive(Clone, Copy, Debug, PartialEq, Eq, Structural)]
pub enum MetricName {
    Cpu,
    Memory,
    Temp,
    NetworkIn,
    NetworkOut,
}

} // verus!
