//! Reading the provider of host metrics: what one handle on the operating
//! system's counters holds, made into readings. Refreshing the handle is
//! the owner's work; every function here reads through a shared borrow, so
//! all counters of a reading are those of one state of the handle, and
//! reading changes nothing.

use crate::reading::{
    designated, is_percentage, lemma_disk_rule, read_designated, reading_of_designated,
    CpuReading, DiskReading, DiskSpace, Inconsistent, MemoryReading, DESIGNATED_DISK,
};
use sysinfo::{CpuExt, DiskExt, SystemExt};
use vstd::prelude::*;

verus! {

/// `sysinfo::System`, the handle on the operating system's counters. Its
/// inside is not looked at here: what it holds is spoken of by the names
/// below.
#[verifier::external_type_specification]
#[verifier::external_body]
pub struct ExSystem(sysinfo::System);

/// Usage of each logical core that the handle holds, as bit patterns, in
/// the order of `SystemExt::cpus`.
pub uninterp spec fn held_cpu_usages(sys: sysinfo::System) -> Seq<u32>;

/// Total and available bytes of each disk that the handle holds, in the
/// order of `SystemExt::disks`.
pub uninterp spec fn held_disks(sys: sysinfo::System) -> Seq<(u64, u64)>;

/// What `SystemExt::total_memory` reads from the handle.
pub uninterp spec fn held_total_memory(sys: sysinfo::System) -> u64;

/// What `SystemExt::available_memory` reads from the handle.
pub uninterp spec fn held_available_memory(sys: sysinfo::System) -> u64;

/// What `SystemExt::used_memory` reads from the handle.
pub uninterp spec fn held_used_memory(sys: sysinfo::System) -> u64;

/// What `SystemExt::free_memory` reads from the handle.
pub uninterp spec fn held_free_memory(sys: sysinfo::System) -> u64;

/// What `SystemExt::total_swap` reads from the handle.
pub uninterp spec fn held_total_swap(sys: sysinfo::System) -> u64;

/// What `SystemExt::used_swap` reads from the handle.
pub uninterp spec fn held_used_swap(sys: sysinfo::System) -> u64;

/// What `SystemExt::free_swap` reads from the handle.
pub uninterp spec fn held_free_swap(sys: sysinfo::System) -> u64;

/// `SystemExt::cpus`, its length: the number of cores that the handle
/// holds. The call reads the handle and changes nothing.
#[verifier::external_body]
fn cpu_count(sys: &sysinfo::System) -> (n: usize)
    ensures
        n == held_cpu_usages(*sys).len(),
{
    sys.cpus().len()
}

/// `CpuExt::cpu_usage` of the core at `index` of `SystemExt::cpus`, as its
/// bit pattern. An index past the end would panic, so it is left out.
#[verifier::external_body]
fn cpu_usage_at(sys: &sysinfo::System, index: usize) -> (bits: u32)
    requires
        index < held_cpu_usages(*sys).len(),
    ensures
        bits == held_cpu_usages(*sys)[index as int],
{
    sys.cpus()[index].cpu_usage().to_bits()
}

/// `SystemExt::disks`, its length: the number of disks that the handle
/// holds.
#[verifier::external_body]
fn disk_count(sys: &sysinfo::System) -> (n: usize)
    ensures
        n == held_disks(*sys).len(),
{
    sys.disks().len()
}

/// `DiskExt::total_space` and `DiskExt::available_space` of the disk at
/// `index` of `SystemExt::disks`. An index past the end would panic, so it
/// is left out.
#[verifier::external_body]
fn disk_space_at(sys: &sysinfo::System, index: usize) -> (space: DiskSpace)
    requires
        index < held_disks(*sys).len(),
    ensures
        space.total == held_disks(*sys)[index as int].0,
        space.available == held_disks(*sys)[index as int].1,
{
    let disk = &sys.disks()[index];
    DiskSpace { total: disk.total_space(), available: disk.available_space() }
}

/// `SystemExt::total_memory`: reads a counter of the handle.
#[verifier::external_body]
fn total_memory(sys: &sysinfo::System) -> (bytes: u64)
    ensures
        bytes == held_total_memory(*sys),
{
    sys.total_memory()
}

/// `SystemExt::available_memory`: reads a counter of the handle.
#[verifier::external_body]
fn available_memory(sys: &sysinfo::System) -> (bytes: u64)
    ensures
        bytes == held_available_memory(*sys),
{
    sys.available_memory()
}

/// `SystemExt::used_memory`. It subtracts the available memory from the
/// total, which overflows where more is available than there is in total:
/// such a handle is left out.
#[verifier::external_body]
fn used_memory(sys: &sysinfo::System) -> (bytes: u64)
    requires
        held_available_memory(*sys) <= held_total_memory(*sys),
    ensures
        bytes == held_used_memory(*sys),
{
    sys.used_memory()
}

/// `SystemExt::free_memory`: reads a counter of the handle.
#[verifier::external_body]
fn free_memory(sys: &sysinfo::System) -> (bytes: u64)
    ensures
        bytes == held_free_memory(*sys),
{
    sys.free_memory()
}

/// `SystemExt::total_swap`: reads a counter of the handle.
#[verifier::external_body]
fn total_swap(sys: &sysinfo::System) -> (bytes: u64)
    ensures
        bytes == held_total_swap(*sys),
{
    sys.total_swap()
}

/// `SystemExt::free_swap`: reads a counter of the handle.
#[verifier::external_body]
fn free_swap(sys: &sysinfo::System) -> (bytes: u64)
    ensures
        bytes == held_free_swap(*sys),
{
    sys.free_swap()
}

/// `SystemExt::used_swap`. It subtracts the free swap from the total, which
/// overflows where more is free than there is in total: such a handle is
/// left out.
#[verifier::external_body]
fn used_swap(sys: &sysinfo::System) -> (bytes: u64)
    requires
        held_free_swap(*sys) <= held_total_swap(*sys),
    ensures
        bytes == held_used_swap(*sys),
{
    sys.used_swap()
}

/// Usage of the cores that the handle holds.
pub open spec fn cpu_snapshot(sys: sysinfo::System) -> Seq<u32> {
    held_cpu_usages(sys)
}

/// The disks that the handle holds, in the order of enumeration.
pub open spec fn disk_snapshot(sys: sysinfo::System) -> Seq<DiskSpace> {
    Seq::new(
        held_disks(sys).len(),
        |i: int| DiskSpace { total: held_disks(sys)[i].0, available: held_disks(sys)[i].1 },
    )
}

/// The memory reading that the handle's counters give. It is refused where
/// more memory is available than there is in total.
pub open spec fn ram_snapshot(sys: sysinfo::System) -> Result<MemoryReading, Inconsistent> {
    if held_available_memory(sys) <= held_total_memory(sys) {
        Ok(
            MemoryReading {
                total: held_total_memory(sys),
                used: held_used_memory(sys),
                free: held_free_memory(sys),
            },
        )
    } else {
        Err(Inconsistent::Memory)
    }
}

/// The swap reading that the handle's counters give. It is refused where
/// more swap is free than there is in total.
pub open spec fn swap_snapshot(sys: sysinfo::System) -> Result<MemoryReading, Inconsistent> {
    if held_free_swap(sys) <= held_total_swap(sys) {
        Ok(
            MemoryReading {
                total: held_total_swap(sys),
                used: held_used_swap(sys),
                free: held_free_swap(sys),
            },
        )
    } else {
        Err(Inconsistent::Swap)
    }
}

/// The disk reading that the handle's disks give: that of the designated
/// disk, if that many disks are enumerated.
pub open spec fn disk_snapshot_reading(sys: sysinfo::System) -> Result<
    Option<DiskReading>,
    Inconsistent,
> {
    reading_of_designated(designated(disk_snapshot(sys)))
}

/// Reads the cores' usage: one entry for each logical core that the handle
/// holds, in its order.
pub fn cpu_data(sys: &sysinfo::System) -> (reading: CpuReading)
    ensures
        reading@ == cpu_snapshot(*sys),
        reading@.len() == cpu_snapshot(*sys).len(),
        reading.all_percentages() <==> forall|i: int|
            0 <= i < cpu_snapshot(*sys).len() ==> is_percentage(#[trigger] cpu_snapshot(*sys)[i]),
{
    let n: usize = cpu_count(sys);
    let mut usages: Vec<u32> = Vec::new();
    let mut i: usize = 0;
    while i < n
        invariant
            n == held_cpu_usages(*sys).len(),
            i <= n,
            usages@ == held_cpu_usages(*sys).subrange(0, i as int),
        decreases n - i,
    {
        let bits: u32 = cpu_usage_at(sys, i);
        usages.push(bits);
        i = i + 1;
    }
    assert(usages@ == held_cpu_usages(*sys));
    CpuReading::from_usages(usages)
}

/// Reads main memory: the total, the used and the free bytes that the
/// handle holds. The reading is refused, and the used bytes are not asked
/// for, where more memory is available than there is in total.
pub fn ram_data(sys: &sysinfo::System) -> (outcome: Result<MemoryReading, Inconsistent>)
    ensures
        outcome == ram_snapshot(*sys),
{
    let total: u64 = total_memory(sys);
    let available: u64 = available_memory(sys);
    if available <= total {
        let used: u64 = used_memory(sys);
        let free: u64 = free_memory(sys);
        Ok(MemoryReading::new(total, used, free))
    } else {
        Err(Inconsistent::Memory)
    }
}

/// Reads swap space: the total, the used and the free bytes that the handle
/// holds. The reading is refused, and the used bytes are not asked for,
/// where more swap is free than there is in total.
pub fn swap_data(sys: &sysinfo::System) -> (outcome: Result<MemoryReading, Inconsistent>)
    ensures
        outcome == swap_snapshot(*sys),
{
    let total: u64 = total_swap(sys);
    let free: u64 = free_swap(sys);
    if free <= total {
        let used: u64 = used_swap(sys);
        Ok(MemoryReading::new(total, used, free))
    } else {
        Err(Inconsistent::Swap)
    }
}

/// Reads the designated disk. There is no reading if and only if the
/// handle enumerates fewer than two disks; otherwise it is that of the
/// second disk, with exactly the total less the available bytes as used. It
/// is refused where that disk has more available than total space.
pub fn disk_data(sys: &sysinfo::System) -> (outcome: Result<Option<DiskReading>, Inconsistent>)
    ensures
        outcome == disk_snapshot_reading(*sys),
        ({
            let disks = disk_snapshot(*sys);
            &&& outcome == Ok::<Option<DiskReading>, Inconsistent>(None) <==> disks.len() < 2
            &&& outcome == Err::<Option<DiskReading>, Inconsistent>(Inconsistent::Disk)
                <==> disks.len() >= 2 && disks[1].available > disks[1].total
            &&& outcome matches Ok(Some(reading)) ==> {
                &&& disks.len() >= 2
                &&& reading.spec_total() == disks[1].total
                &&& reading.spec_available() == disks[1].available
                &&& reading.spec_used() == disks[1].total - disks[1].available
            }
        }),
{
    proof {
        lemma_disk_rule(disk_snapshot(*sys));
    }
    let n: usize = disk_count(sys);
    let picked: Option<DiskSpace> = if n > DESIGNATED_DISK {
        Some(disk_space_at(sys, DESIGNATED_DISK))
    } else {
        None
    };
    read_designated(picked)
}

/// Every reading is taken from one state of the handle. The three counters
/// of a memory reading, and of a swap reading, are those that one and the
/// same handle holds; so are the two counters of the designated disk and
/// the usage of every core. No reading mixes counters of different
/// refreshes.
pub proof fn lemma_readings_are_self_consistent(sys: sysinfo::System)
    ensures
        ram_snapshot(sys) matches Ok(ram) ==> {
            &&& ram.total == held_total_memory(sys)
            &&& ram.used == held_used_memory(sys)
            &&& ram.free == held_free_memory(sys)
        },
        swap_snapshot(sys) matches Ok(swap) ==> {
            &&& swap.total == held_total_swap(sys)
            &&& swap.used == held_used_swap(sys)
            &&& swap.free == held_free_swap(sys)
        },
        disk_snapshot_reading(sys) matches Ok(Some(disk)) ==> {
            &&& held_disks(sys).len() >= 2
            &&& disk.spec_total() == held_disks(sys)[1].0
            &&& disk.spec_available() == held_disks(sys)[1].1
            &&& disk.spec_used() + disk.spec_available() == disk.spec_total()
        },
        cpu_snapshot(sys) == held_cpu_usages(sys),
{
    lemma_disk_rule(disk_snapshot(sys));
}

} // verus!
