use vstd::prelude::*;

use crate::error::{ErrorKind, WinfetchResult};
use crate::record::{integer_spec, Record};
use crate::text::{decimal, push_decimal, push_str, string_from_chars};
use crate::utils::{percentage_bar, GeneratePercentageBar};

verus! {

/// Load of the processor, in percent, and the number of running processes.
#[derive(Clone, Debug)]
pub struct ProcessorUsage {
    LoadPercentage: i32,
    Processes: u64,
}

/// Counts the entries of a process snapshot: one for each successful
/// advance, the first included, until an advance fails.
#[derive(Clone, Debug)]
pub struct ProcessTally {
    count: u64,
    done: bool,
}

/// The processor line: the load bar and the number of processes.
pub open spec fn processor_text(load: int, processes: nat) -> Seq<char> {
    percentage_bar(load) + " "@ + decimal(processes) + " processes"@
}

impl ProcessTally {
    pub closed spec fn count(&self) -> nat {
        self.count as nat
    }

    pub closed spec fn done(&self) -> bool {
        self.done
    }

    pub fn new() -> (t: ProcessTally)
        ensures
            t.count() == 0,
            !t.done(),
    {
        ProcessTally { count: 0, done: false }
    }

    /// Takes in whether the latest advance of the snapshot gave an entry, and
    /// says whether to advance again: not after the first failure.
    pub fn observe(&mut self, advanced: bool) -> (more: bool)
        requires
            old(self).count() < u64::MAX,
        ensures
            more == (!old(self).done() && advanced),
            final(self).done() == !more,
            final(self).count() == old(self).count() + if more { 1nat } else { 0nat },
    {
        if self.done || !advanced {
            self.done = true;
            false
        } else {
            self.count = self.count + 1;
            true
        }
    }

    pub fn Count(&self) -> (n: u64)
        ensures
            n as nat == self.count(),
    {
        self.count
    }
}

impl ProcessorUsage {
    pub closed spec fn load(&self) -> i32 {
        self.LoadPercentage
    }

    pub closed spec fn processes(&self) -> nat {
        self.Processes as nat
    }

    pub fn new(load_percentage: i32, processes: u64) -> (u: ProcessorUsage)
        ensures
            u.load() == load_percentage,
            u.processes() == processes as nat,
    {
        ProcessorUsage { LoadPercentage: load_percentage, Processes: processes }
    }

    /// Reads the load of the first processor record; no process is counted yet.
    pub fn GetProcessorLoadPercentage(record: &Record) -> (r: WinfetchResult<ProcessorUsage>)
        ensures
            match r {
                Ok(u) => integer_spec(record.fields@, "LoadPercentage"@) == Ok::<i32, ErrorKind>(
                    u.load(),
                ) && u.processes() == 0,
                Err(e) => integer_spec(record.fields@, "LoadPercentage"@) == Err::<i32, ErrorKind>(
                    e.0,
                ),
            },
    {
        let load = record.GetInteger("LoadPercentage")?;
        Ok(ProcessorUsage { LoadPercentage: load, Processes: 0 })
    }

    /// Takes the number of processes from a finished tally of the snapshot.
    pub fn GetProcessesCount(&mut self, tally: &ProcessTally)
        ensures
            final(self).processes() == tally.count(),
            final(self).load() == old(self).load(),
    {
        self.Processes = tally.count;
    }

    pub fn LoadPercentage(&self) -> (n: i32)
        ensures
            n == self.load(),
    {
        self.LoadPercentage
    }

    pub fn Processes(&self) -> (n: u64)
        ensures
            n as nat == self.processes(),
    {
        self.Processes
    }

    /// The processor line; an input error where the load is not a percentage.
    pub fn to_text(&self) -> (r: WinfetchResult<String>)
        ensures
            0 <= self.load() <= 100 ==> r is Ok && r->Ok_0@ == processor_text(
                self.load() as int,
                self.processes(),
            ),
            !(0 <= self.load() <= 100) ==> r is Err && r->Err_0.0 == ErrorKind::InvalidInput,
    {
        let bar = GeneratePercentageBar(self.LoadPercentage)?;
        let mut out: Vec<char> = Vec::new();
        push_str(&mut out, bar.as_str());
        push_str(&mut out, " ");
        push_decimal(&mut out, self.Processes);
        push_str(&mut out, " processes");
        assert(out@ =~= processor_text(self.load() as int, self.processes()));
        Ok(string_from_chars(&out))
    }
}

} // verus!
