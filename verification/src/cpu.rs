//! The processor: its model name and the number of its cores.

use crate::fact::FactError;
use vstd::prelude::*;

verus! {

/// The processor's model name and core count.
pub struct CPU<'a> {
    pub brand: &'a str,
    pub ncpus: i32,
}

impl<'a> CPU<'a> {
    /// A record with no model and no cores.
    pub fn new() -> (cpu: CPU<'a>)
        ensures
            cpu.brand@.len() == 0,
            cpu.ncpus == 0,
    {
        let brand: &'a str = "";
        proof {
            reveal_strlit("");
        }
        CPU { brand, ncpus: 0 }
    }

    /// Records the model name. A provider without one is an error, and the
    /// record stays as it was.
    pub fn get_cpu_model(&mut self, model: Option<&'a str>) -> (done: Result<(), FactError>)
        ensures
            model matches Some(text) ==> done is Ok && final(self).brand == text,
            model is None ==> done == Err::<(), FactError>(FactError::NoCpuModel)
                && final(self).brand == old(self).brand,
            final(self).ncpus == old(self).ncpus,
    {
        match model {
            Some(text) => {
                self.brand = text;
                Ok(())
            },
            None => Err(FactError::NoCpuModel),
        }
    }

    /// Records the number of cores. A negative number is an error, and the
    /// record stays as it was.
    pub fn get_num_cpus(&mut self, count: i32) -> (done: Result<(), FactError>)
        ensures
            count >= 0 ==> done is Ok && final(self).ncpus == count,
            count < 0 ==> done == Err::<(), FactError>(FactError::NoCpuCount)
                && final(self).ncpus == old(self).ncpus,
            final(self).brand == old(self).brand,
    {
        if count < 0 {
            return Err(FactError::NoCpuCount);
        }
        self.ncpus = count;
        Ok(())
    }
}

} // verus!
