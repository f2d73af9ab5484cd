use vstd::prelude::*;

use crate::decimal::{decimal, to_decimal};

verus! {

/// Space of one disk, in bytes.
#[derive(Clone, Copy, Debug, PartialEq, Eq, Structural)]
pub struct DiskSpace {
    pub total_bytes: u64,
    pub free_bytes: u64,
}

/// One reading of the machine's counters, taken once per frame and then dropped.
#[derive(Clone, Copy, Debug, PartialEq, Eq, Structural)]
pub struct SystemSnapshot {
    pub total_memory_kb: u64,
    pub used_memory_kb: u64,
    /// The first disk that the system lists, if it lists any.
    pub first_disk: Option<DiskSpace>,
    /// Virtual memory size of this process, if the system could tell it.
    pub process_virtual_memory_bytes: Option<u64>,
}

/// `part` as a whole percentage of `whole`, rounded down; nothing is a part of zero.
pub open spec fn percent(part: nat, whole: nat) -> nat {
    if whole == 0 {
        0
    } else {
        part * 100 / whole
    }
}

/// Space in use on a disk; a disk that reports more free space than it holds counts as empty.
pub open spec fn disk_used(total: nat, free: nat) -> nat {
    if free <= total {
        (total - free) as nat
    } else {
        0
    }
}

pub open spec fn gib(bytes: nat) -> nat {
    bytes / 1024 / 1024 / 1024
}

pub open spec fn memory_text(total_kb: nat, used_kb: nat) -> Seq<char> {
    decimal(used_kb / 1024) + " MB / "@ + decimal(total_kb / 1024) + " MB ("@ + decimal(
        percent(used_kb, total_kb),
    ) + "%)"@
}

pub open spec fn disk_text(disk: Option<DiskSpace>) -> Seq<char> {
    match disk {
        Some(d) => {
            let used = disk_used(d.total_bytes as nat, d.free_bytes as nat);
            decimal(gib(used)) + " GB used / "@ + decimal(gib(d.total_bytes as nat))
                + " GB total ("@ + decimal(percent(used, d.total_bytes as nat)) + "%)"@
        },
        None => "Disk information unavailable."@,
    }
}

pub open spec fn process_memory_text(vsize: Option<u64>) -> Seq<char> {
    match vsize {
        Some(b) => "Program memory: "@ + decimal(b as nat / 1024 / 1024) + " MB"@,
        None => "Program memory usage unavailable."@,
    }
}

/// `part` as a whole percentage of `whole`, rounded down.
pub fn percent_of(part: u64, whole: u64) -> (r: u128)
    ensures
        r == percent(part as nat, whole as nat),
{
    if whole == 0 {
        0
    } else {
        proof {
            assert((part as nat) * 100 <= 0xffff_ffff_ffff_ffffnat * 100) by (nonlinear_arith)
                requires
                    part as nat <= 0xffff_ffff_ffff_ffffnat,
            ;
        }
        (part as u128 * 100) / (whole as u128)
    }
}

impl SystemSnapshot {
    /// Memory in use against memory in total, in MB, and the share in use.
    pub fn memory_summary(&self) -> (r: String)
        ensures
            r@ == memory_text(self.total_memory_kb as nat, self.used_memory_kb as nat),
    {
        let pct = percent_of(self.used_memory_kb, self.total_memory_kb);
        let mut s = to_decimal((self.used_memory_kb / 1024) as u128);
        s.append(" MB / ");
        s.append(to_decimal((self.total_memory_kb / 1024) as u128).as_str());
        s.append(" MB (");
        s.append(to_decimal(pct).as_str());
        s.append("%)");
        s
    }

    /// Space in use on the first disk against its size, in GB, and the share in use.
    pub fn disk_summary(&self) -> (r: String)
        ensures
            r@ == disk_text(self.first_disk),
    {
        match self.first_disk {
            Some(d) => {
                let used: u64 = if d.free_bytes <= d.total_bytes {
                    d.total_bytes - d.free_bytes
                } else {
                    0
                };
                let pct = percent_of(used, d.total_bytes);
                let mut s = to_decimal((used / 1024 / 1024 / 1024) as u128);
                s.append(" GB used / ");
                s.append(to_decimal((d.total_bytes / 1024 / 1024 / 1024) as u128).as_str());
                s.append(" GB total (");
                s.append(to_decimal(pct).as_str());
                s.append("%)");
                s
            },
            None => String::from_str("Disk information unavailable."),
        }
    }

    /// This process's virtual memory size in MB.
    pub fn process_memory_summary(&self) -> (r: String)
        ensures
            r@ == process_memory_text(self.process_virtual_memory_bytes),
    {
        match self.process_virtual_memory_bytes {
            Some(b) => {
                let mut s = String::from_str("Program memory: ");
                s.append(to_decimal((b / 1024 / 1024) as u128).as_str());
                s.append(" MB");
                s
            },
            None => String::from_str("Program memory usage unavailable."),
        }
    }
}

/// While no more memory is in use than there is, the share in use lies between 0 and 100.
pub proof fn memory_percent_in_range(used_kb: nat, total_kb: nat)
    requires
        used_kb <= total_kb,
    ensures
        0 <= percent(used_kb, total_kb) <= 100,
{
    if total_kb > 0 {
        assert(used_kb * 100 <= total_kb * 100) by (nonlinear_arith)
            requires
                used_kb <= total_kb,
        ;
        vstd::arithmetic::div_mod::lemma_div_is_ordered(
            (used_kb * 100) as int,
            (total_kb * 100) as int,
            total_kb as int,
        );
        vstd::arithmetic::div_mod::lemma_div_multiples_vanish(100, total_kb as int);
    }
}

/// The share of a disk in use is the used space over the total, times 100, rounded down.
pub proof fn disk_percent_rounds_down(total: nat, free: nat)
    requires
        free <= total,
        total > 0,
    ensures
        percent(disk_used(total, free), total) * total <= (total - free) * 100,
        (total - free) * 100 < (percent(disk_used(total, free), total) + 1) * total,
{
    let x = ((total - free) * 100) as int;
    vstd::arithmetic::div_mod::lemma_fundamental_div_mod(x, total as int);
    let q = x / (total as int);
    assert(q * total + x % (total as int) == x) by (nonlinear_arith)
        requires
            x == total as int * q + x % (total as int),
    ;
    assert((q + 1) * total == q * total + total) by (nonlinear_arith);
}

} // verus!
