use vstd::prelude::*;

use crate::error::{ErrorKind, WinfetchError, WinfetchResult};
use crate::record::{lemma_text_mismatch, mismatched, text_spec, Field, Record};
use crate::value::ValueKind;
use crate::text::{
    chars_of, fixed_two, parse_decimal, parse_decimal_spec, push_fixed_two, push_str, string_from_chars,
};
use crate::utils::{percentage_bar, GeneratePercentageBar};

verus! {

/// Physical memory of the host, in kilobytes.
#[derive(Clone, Debug)]
pub struct Memory {
    FreePhysicalMemory: u64,
    TotalVisibleMemorySize: u64,
}

/// A number written in decimal, or a parse error.
pub open spec fn decimal_or_error(s: Seq<char>) -> Result<nat, ErrorKind> {
    match parse_decimal_spec(s) {
        Some(n) => Ok(n),
        None => Err(ErrorKind::Parse),
    }
}

/// What the operating-system record gives for memory: free and total
/// kilobytes. Both fields are read as text first, then both are parsed; the
/// first error met decides.
pub open spec fn memory_spec(fields: Seq<Field>) -> Result<(nat, nat), ErrorKind> {
    match text_spec(fields, "FreePhysicalMemory"@) {
        Err(k) => Err(k),
        Ok(free) => match text_spec(fields, "TotalVisibleMemorySize"@) {
            Err(k) => Err(k),
            Ok(total) => match decimal_or_error(free) {
                Err(k) => Err(k),
                Ok(f) => match decimal_or_error(total) {
                    Err(k) => Err(k),
                    Ok(t) => Ok((f, t)),
                },
            },
        },
    }
}

/// A memory field that is present but not text is reported as a type
/// mismatch, never converted, whenever the field read before it was text.
pub proof fn lemma_memory_mismatch(fields: Seq<Field>)
    requires
        mismatched(fields, "FreePhysicalMemory"@, ValueKind::Text) || (text_spec(
            fields,
            "FreePhysicalMemory"@,
        ) is Ok && mismatched(fields, "TotalVisibleMemorySize"@, ValueKind::Text)),
    ensures
        memory_spec(fields) == Err::<(nat, nat), ErrorKind>(ErrorKind::TypeMismatch),
{
    if mismatched(fields, "FreePhysicalMemory"@, ValueKind::Text) {
        lemma_text_mismatch(fields, "FreePhysicalMemory"@);
    } else {
        lemma_text_mismatch(fields, "TotalVisibleMemorySize"@);
    }
}

/// Reads a decimal number from text, or gives a parse error.
pub(crate) fn parse_number(s: &String) -> (r: WinfetchResult<u64>)
    ensures
        match r {
            Ok(n) => decimal_or_error(s@) == Ok::<nat, ErrorKind>(n as nat),
            Err(e) => decimal_or_error(s@) == Err::<nat, ErrorKind>(e.0),
        },
{
    let cs = chars_of(s.as_str());
    match parse_decimal(&cs) {
        Some(n) => Ok(n),
        None => Err(WinfetchError::new(ErrorKind::Parse, "the value is not a decimal number")),
    }
}

/// Kilobytes in gigabytes, in hundredths, rounded half up.
pub open spec fn gb_hundredths(kb: nat) -> nat {
    (kb * 100 + 524288) / 1048576
}

/// The memory line: the usage bar, then used and total gigabytes.
pub open spec fn memory_text(free: nat, total: nat) -> Seq<char>
    recommends
        0 < total,
        free <= total,
{
    let used = (total - free) as nat;
    percentage_bar((used * 100 / total) as int) + " "@ + fixed_two(gb_hundredths(used)) + " GB / "@
        + fixed_two(gb_hundredths(total)) + " GB"@
}

fn push_gigabytes(out: &mut Vec<char>, kb: u64)
    ensures
        final(out)@ == old(out)@ + fixed_two(gb_hundredths(kb as nat)),
{
    let h = ((kb as u128) * 100 + 524288) / 1048576;
    assert(h <= u64::MAX) by (nonlinear_arith)
        requires
            h == ((kb as u128) * 100 + 524288) / 1048576,
            kb <= u64::MAX,
    ;
    push_fixed_two(out, h as u64);
}

impl Memory {
    pub fn new(free_kb: u64, total_kb: u64) -> (m: Memory)
        ensures
            m.free() == free_kb,
            m.total() == total_kb,
    {
        Memory { FreePhysicalMemory: free_kb, TotalVisibleMemorySize: total_kb }
    }

    pub closed spec fn free(&self) -> u64 {
        self.FreePhysicalMemory
    }

    pub closed spec fn total(&self) -> u64 {
        self.TotalVisibleMemorySize
    }

    pub fn FreeKilobytes(&self) -> (n: u64)
        ensures
            n == self.free(),
    {
        self.FreePhysicalMemory
    }

    pub fn TotalKilobytes(&self) -> (n: u64)
        ensures
            n == self.total(),
    {
        self.TotalVisibleMemorySize
    }

    /// Reads free and total memory from the first operating-system record;
    /// both fields are decimal text.
    pub fn GetMemoryStatistics(record: &Record) -> (r: WinfetchResult<Memory>)
        ensures
            match r {
                Ok(m) => memory_spec(record.fields@) == Ok::<(nat, nat), ErrorKind>(
                    (m.free() as nat, m.total() as nat),
                ),
                Err(e) => memory_spec(record.fields@) == Err::<(nat, nat), ErrorKind>(e.0),
            },
    {
        let free_text = record.GetText("FreePhysicalMemory")?;
        let total_text = record.GetText("TotalVisibleMemorySize")?;
        let free = parse_number(&free_text)?;
        let total = parse_number(&total_text)?;
        Ok(Memory { FreePhysicalMemory: free, TotalVisibleMemorySize: total })
    }

    /// Used kilobytes: total less free.
    pub fn UsedKilobytes(&self) -> (r: Option<u64>)
        ensures
            r == (if self.free() <= self.total() {
                Some((self.total() - self.free()) as u64)
            } else {
                None
            }),
    {
        if self.FreePhysicalMemory <= self.TotalVisibleMemorySize {
            Some(self.TotalVisibleMemorySize - self.FreePhysicalMemory)
        } else {
            None
        }
    }

    /// The share of memory in use, in whole percent, truncated.
    pub fn UsagePercentage(&self) -> (r: Option<u64>)
        ensures
            r is Some <==> 0 < self.total() && self.free() <= self.total(),
            r matches Some(p) ==> p as int == (self.total() - self.free()) * 100 / (
            self.total() as int) && p <= 100,
    {
        if self.TotalVisibleMemorySize == 0 || self.FreePhysicalMemory > self.TotalVisibleMemorySize {
            return None;
        }
        let used = (self.TotalVisibleMemorySize - self.FreePhysicalMemory) as u128;
        let total = self.TotalVisibleMemorySize as u128;
        let p = used * 100 / total;
        assert(p <= 100) by (nonlinear_arith)
            requires
                p == used * 100 / (total as int),
                used <= total,
                0 < total,
        ;
        Some(p as u64)
    }

    /// The memory line of the report; an input error where the total is zero
    /// or less than what is free.
    pub fn to_text(&self) -> (r: WinfetchResult<String>)
        ensures
            0 < self.total() && self.free() <= self.total() ==> r is Ok && r->Ok_0@ == memory_text(
                self.free() as nat,
                self.total() as nat,
            ),
            !(0 < self.total() && self.free() <= self.total()) ==> r is Err && r->Err_0.0
                == ErrorKind::InvalidInput,
    {
        let p = match self.UsagePercentage() {
            Some(p) => p,
            None => {
                return Err(WinfetchError::new(ErrorKind::InvalidInput, "the free memory is zero or exceeds the total"));
            },
        };
        let used = self.TotalVisibleMemorySize - self.FreePhysicalMemory;
        let bar = match GeneratePercentageBar(p as i32) {
            Ok(b) => b,
            Err(e) => {
                return Err(e);
            },
        };
        let mut out: Vec<char> = Vec::new();
        push_str(&mut out, bar.as_str());
        push_str(&mut out, " ");
        push_gigabytes(&mut out, used);
        push_str(&mut out, " GB / ");
        push_gigabytes(&mut out, self.TotalVisibleMemorySize);
        push_str(&mut out, " GB");
        assert(out@ =~= memory_text(self.free() as nat, self.total() as nat));
        Ok(string_from_chars(&out))
    }
}

} // verus!
