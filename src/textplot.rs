//! Which text charts to draw of a report.

use vstd::prelude::*;

verus! {

/// Draws line charts of a report: resident memory and/or CPU usage against
/// the observation index.
#[derive(Clone, Copy, Debug, PartialEq, Eq, Structural)]
pub struct TextplotFormatter {
    memory: bool,
    cpu: bool,
}

impl TextplotFormatter {
    pub closed spec fn spec_memory(&self) -> bool {
        self.memory
    }

    pub closed spec fn spec_cpu(&self) -> bool {
        self.cpu
    }

    pub fn new(memory: bool, cpu: bool) -> (r: Self)
        ensures
            r.spec_memory() == memory,
            r.spec_cpu() == cpu,
    {
        Self { memory, cpu }
    }

    /// Whether the memory chart is drawn.
    pub fn memory(&self) -> (r: bool)
        ensures
            r == self.spec_memory(),
    {
        self.memory
    }

    /// Whether the CPU chart is drawn.
    pub fn cpu(&self) -> (r: bool)
        ensures
            r == self.spec_cpu(),
    {
        self.cpu
    }
}

} // verus!
