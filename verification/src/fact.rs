//! What can be wrong with a raw fact that a provider hands in.

use vstd::prelude::*;

verus! {

/// A fact that its provider could not produce, or produced in a form that
/// cannot be shown.
#[derive(Clone, Copy, Debug, PartialEq, Eq, Structural)]
pub enum FactError {
    /// The provider had no release string.
    NoRelease,
    /// The provider had no CPU model.
    NoCpuModel,
    /// The provider reported a negative number of cores.
    NoCpuCount,
    /// The provider could not read the memory counters.
    NoMemory,
    /// The page size is negative, or a counter times the page size does not
    /// fit in 64 bits.
    MemoryRange,
    /// More pages are free than there are in total.
    FreeExceedsTotal,
}

impl FactError {
    /// The diagnostic of each failure.
    pub open spec fn diagnostic(self) -> Seq<char> {
        match self {
            FactError::NoRelease => "error: __get_bsd_release() -> null"@,
            FactError::NoCpuModel => "error: __get_cpu_model()"@,
            FactError::NoCpuCount => "error: __get_num_cpus()"@,
            FactError::NoMemory => "error: __get_mem_info()"@,
            FactError::MemoryRange => "error: memory counters out of range"@,
            FactError::FreeExceedsTotal => "error: more memory free than in total"@,
        }
    }

    /// The diagnostic to end the run with.
    pub fn message(&self) -> (text: &'static str)
        ensures
            text@ == self.diagnostic(),
    {
        match self {
            FactError::NoRelease => "error: __get_bsd_release() -> null",
            FactError::NoCpuModel => "error: __get_cpu_model()",
            FactError::NoCpuCount => "error: __get_num_cpus()",
            FactError::NoMemory => "error: __get_mem_info()",
            FactError::MemoryRange => "error: memory counters out of range",
            FactError::FreeExceedsTotal => "error: more memory free than in total",
        }
    }
}

} // verus!
