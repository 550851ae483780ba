//! Memory: the counters a provider reads, and the amounts shown.

use crate::fact::FactError;
use crate::text::{decimal, push_decimal};
use vstd::prelude::*;
use vstd::string::*;

verus! {

/// The raw counters, in pages.
pub struct MemoryInfo {
    pub total: u64,
    pub free: u64,
}

impl MemoryInfo {
    /// Counters at zero.
    pub fn new() -> (info: MemoryInfo)
        ensures
            info.total == 0,
            info.free == 0,
    {
        MemoryInfo { total: 0, free: 0 }
    }
}

/// The amounts of memory: in bytes, and as a provider worded them for
/// reading.
pub struct Memory {
    pub total_exact: u64,
    pub free_exact: u64,
    pub used_exact: u64,
    pub total_pretty: String,
    pub free_pretty: String,
    pub used_pretty: String,
}

/// Whether the counters of `info`, in pages of `page_size` bytes, can be
/// held in bytes.
pub open spec fn counters_fit(info: MemoryInfo, page_size: i32) -> bool {
    &&& page_size >= 0
    &&& info.total * page_size <= u64::MAX
    &&& info.free * page_size <= u64::MAX
}

/// What reading the counters comes to: the first failure that applies, or
/// none.
pub open spec fn counters_verdict(status: i32, info: MemoryInfo, page_size: i32) -> Result<
    (),
    FactError,
> {
    if status == -1 {
        Err(FactError::NoMemory)
    } else if !counters_fit(info, page_size) {
        Err(FactError::MemoryRange)
    } else if info.free * page_size > info.total * page_size {
        Err(FactError::FreeExceedsTotal)
    } else {
        Ok(())
    }
}

/// The three amounts in one line.
pub open spec fn summary_text(total: Seq<char>, used: Seq<char>, free: Seq<char>) -> Seq<char> {
    "Total: "@ + total + ", Used: "@ + used + ", Free: "@ + free
}

impl Memory {
    /// A record with every amount at zero and every text empty.
    pub fn new() -> (memory: Memory)
        ensures
            memory.total_exact == 0,
            memory.free_exact == 0,
            memory.used_exact == 0,
            memory.total_pretty@.len() == 0,
            memory.free_pretty@.len() == 0,
            memory.used_pretty@.len() == 0,
    {
        Memory {
            total_exact: 0,
            free_exact: 0,
            used_exact: 0,
            total_pretty: String::new(),
            free_pretty: String::new(),
            used_pretty: String::new(),
        }
    }

    /// Records the amounts in bytes from the counters `info`, which a provider
    /// read with the result `status`, and from the page size. On failure the
    /// record stays as it was; the worded amounts stay in any case.
    pub fn get_mem_info(&mut self, status: i32, info: &MemoryInfo, page_size: i32) -> (done: Result<
        (),
        FactError,
    >)
        ensures
            done == counters_verdict(status, *info, page_size),
            done is Ok ==> {
                &&& final(self).total_exact == info.total * page_size
                &&& final(self).free_exact == info.free * page_size
                &&& final(self).used_exact == final(self).total_exact - final(self).free_exact
            },
            done is Err ==> {
                &&& final(self).total_exact == old(self).total_exact
                &&& final(self).free_exact == old(self).free_exact
                &&& final(self).used_exact == old(self).used_exact
            },
            final(self).total_pretty == old(self).total_pretty,
            final(self).free_pretty == old(self).free_pretty,
            final(self).used_pretty == old(self).used_pretty,
    {
        if status == -1 {
            return Err(FactError::NoMemory);
        }
        if page_size < 0 {
            return Err(FactError::MemoryRange);
        }
        let size: u64 = page_size as u64;
        let total = match info.total.checked_mul(size) {
            Some(bytes) => bytes,
            None => {
                return Err(FactError::MemoryRange);
            },
        };
        let free = match info.free.checked_mul(size) {
            Some(bytes) => bytes,
            None => {
                return Err(FactError::MemoryRange);
            },
        };
        if free > total {
            return Err(FactError::FreeExceedsTotal);
        }
        self.total_exact = total;
        self.free_exact = free;
        self.used_exact = total - free;
        Ok(())
    }

    /// The line that shows the three amounts: worded if `extended` is set, in
    /// bytes otherwise.
    pub open spec fn summary_view(self, extended: bool) -> Seq<char> {
        if extended {
            summary_text(self.total_pretty@, self.used_pretty@, self.free_pretty@)
        } else {
            summary_text(
                decimal(self.total_exact as nat),
                decimal(self.used_exact as nat),
                decimal(self.free_exact as nat),
            )
        }
    }

    /// The line that shows the three amounts: worded if `extended` is set, in
    /// bytes otherwise.
    pub fn summary(&self, extended: bool) -> (line: String)
        ensures
            line@ == self.summary_view(extended),
    {
        let mut line = String::new();
        line.append("Total: ");
        if extended {
            line.append(self.total_pretty.as_str());
            line.append(", Used: ");
            line.append(self.used_pretty.as_str());
            line.append(", Free: ");
            line.append(self.free_pretty.as_str());
        } else {
            push_decimal(&mut line, self.total_exact);
            line.append(", Used: ");
            push_decimal(&mut line, self.used_exact);
            line.append(", Free: ");
            push_decimal(&mut line, self.free_exact);
        }
        line
    }
}

} // verus!
