//! The payload that an observer receives on every tick, built from the four
//! readings without changing any value.

use crate::reading::{
    counters_map, disk_reading_of, indexed_map, lemma_disk_mapping, lemma_memory_mapping,
    named_counters, CpuReading, DiskReading, DiskSpace, MemoryReading,
};
use vstd::prelude::*;

verus! {

/// The four parts of a payload.
#[derive(Clone, Copy, Debug, PartialEq, Eq)]
pub enum Section {
    Cpu,
    Ram,
    Swap,
    Disk,
}

impl Section {
    /// The key under which the section stands in the payload.
    pub open spec fn key_text(&self) -> Seq<char> {
        match self {
            Section::Cpu => "cpu"@,
            Section::Ram => "ram"@,
            Section::Swap => "swap"@,
            Section::Disk => "disk"@,
        }
    }

    pub fn key(&self) -> (name: &'static str)
        ensures
            name@ == self.key_text(),
    {
        match self {
            Section::Cpu => "cpu",
            Section::Ram => "ram",
            Section::Swap => "swap",
            Section::Disk => "disk",
        }
    }
}

/// One payload: the usage of the cores, the memory and swap counters, and
/// the reading of the designated disk where there is one.
#[derive(Clone, Debug, PartialEq, Eq)]
pub struct Payload {
    pub cpu: CpuReading,
    pub ram: MemoryReading,
    pub swap: MemoryReading,
    pub disk: Option<DiskReading>,
}

/// What stands under one key of the payload's document.
pub enum Entry {
    /// Usage by core index.
    Indexed(Map<int, u32>),
    /// Byte counts by counter name.
    Counters(Map<Seq<char>, nat>),
    /// The marker for a reading that does not exist.
    Null,
}

/// One section of a payload as plain values, ready to be written out:
/// usages by position, or counters by name, or the null marker.
#[derive(Clone, Debug, PartialEq, Eq)]
pub enum SectionValue {
    /// Usage of each core as its bit pattern; the position is the core's
    /// index.
    Indexed(Vec<u32>),
    /// Byte counts with their names.
    Counters(Vec<(&'static str, u64)>),
    /// The marker for a reading that does not exist.
    Null,
}

/// The entry of the document that a section's plain values stand for.
pub open spec fn entry_of(value: SectionValue) -> Entry {
    match value {
        SectionValue::Indexed(usages) => Entry::Indexed(indexed_map(usages@)),
        SectionValue::Counters(list) => Entry::Counters(counters_map(named_counters(list@))),
        SectionValue::Null => Entry::Null,
    }
}

/// The entry that stands for the disk reading: its counters, or the null
/// marker where there is none.
pub open spec fn disk_entry(disk: Option<DiskReading>) -> Entry {
    match disk {
        Some(reading) => Entry::Counters(reading.mapping()),
        None => Entry::Null,
    }
}

impl Payload {
    /// The payload as the document that is sent: a mapping with the four
    /// keys `cpu`, `ram`, `swap` and `disk`.
    pub open spec fn document(&self) -> Map<Seq<char>, Entry> {
        map![
            Section::Cpu.key_text() => Entry::Indexed(self.cpu.mapping()),
            Section::Ram.key_text() => Entry::Counters(self.ram.mapping()),
            Section::Swap.key_text() => Entry::Counters(self.swap.mapping()),
            Section::Disk.key_text() => disk_entry(self.disk),
        ]
    }
}

impl Payload {
    /// The four sections of the payload with their keys, in the order
    /// `cpu`, `ram`, `swap`, `disk`, each as plain values. Together they are
    /// the payload's document: under every key stands what the document
    /// holds under it.
    pub fn sections(&self) -> (list: Vec<(&'static str, SectionValue)>)
        ensures
            list@.len() == 4,
            list@[0].0@ == "cpu"@,
            list@[1].0@ == "ram"@,
            list@[2].0@ == "swap"@,
            list@[3].0@ == "disk"@,
            list@[0].1 matches SectionValue::Indexed(usages) && usages@ == self.cpu@,
            list@[1].1 matches SectionValue::Counters(counters) && named_counters(counters@)
                == self.ram.named(),
            list@[2].1 matches SectionValue::Counters(counters) && named_counters(counters@)
                == self.swap.named(),
            match self.disk {
                Some(reading) => list@[3].1 matches SectionValue::Counters(counters)
                    && named_counters(counters@) == reading.named(),
                None => list@[3].1 is Null,
            },
            forall|i: int|
                0 <= i < 4 ==> entry_of(#[trigger] list@[i].1) == self.document()[list@[i].0@],
    {
        let cpu = SectionValue::Indexed(copy_usages(&self.cpu.usages));
        let ram = SectionValue::Counters(self.ram.entries());
        let swap = SectionValue::Counters(self.swap.entries());
        let disk = match &self.disk {
            Some(reading) => SectionValue::Counters(reading.entries()),
            None => SectionValue::Null,
        };
        proof {
            lemma_document(*self);
            lemma_memory_mapping(self.ram);
            lemma_memory_mapping(self.swap);
            if let Some(reading) = self.disk {
                lemma_disk_mapping(reading);
            }
        }
        let mut list: Vec<(&'static str, SectionValue)> = Vec::new();
        list.push((Section::Cpu.key(), cpu));
        list.push((Section::Ram.key(), ram));
        list.push((Section::Swap.key(), swap));
        list.push((Section::Disk.key(), disk));
        list
    }
}

/// A list with the same usages in the same order.
fn copy_usages(usages: &Vec<u32>) -> (copy: Vec<u32>)
    ensures
        copy@ == usages@,
{
    let n: usize = usages.len();
    let mut copy: Vec<u32> = Vec::new();
    let mut i: usize = 0;
    while i < n
        invariant
            n == usages@.len(),
            i <= n,
            copy@ == usages@.subrange(0, i as int),
        decreases n - i,
    {
        copy.push(usages[i]);
        i = i + 1;
    }
    assert(copy@ == usages@);
    copy
}

/// The payload made of four readings: each reading as it is.
pub open spec fn payload_of(
    cpu: CpuReading,
    ram: MemoryReading,
    swap: MemoryReading,
    disk: Option<DiskReading>,
) -> Payload {
    Payload { cpu, ram, swap, disk }
}

/// Builds the payload of four readings.
pub fn encode(
    cpu: CpuReading,
    ram: MemoryReading,
    swap: MemoryReading,
    disk: Option<DiskReading>,
) -> (payload: Payload)
    ensures
        payload == payload_of(cpu, ram, swap, disk),
{
    Payload { cpu, ram, swap, disk }
}

/// The four keys of a payload are different texts.
pub proof fn lemma_section_keys_differ()
    ensures
        forall|a: Section, b: Section| a != b ==> #[trigger] a.key_text() != #[trigger] b.key_text(),
{
    reveal_strlit("cpu");
    reveal_strlit("ram");
    reveal_strlit("swap");
    reveal_strlit("disk");
    assert("cpu"@.len() == 3 && "ram"@.len() == 3 && "swap"@.len() == 4 && "disk"@.len() == 4);
    assert("cpu"@[0] != "ram"@[0]);
    assert("swap"@[0] != "disk"@[0]);
}

/// A payload's document has exactly the four keys `cpu`, `ram`, `swap` and
/// `disk`. Under each stands the reading it was built from, unchanged; under
/// `disk` stands the null marker exactly where there is no disk reading.
pub proof fn lemma_document(payload: Payload)
    ensures
        payload.document().dom() =~= set!["cpu"@, "ram"@, "swap"@, "disk"@],
        payload.document().dom().finite(),
        payload.document().dom().len() == 4,
        payload.document()["cpu"@] == Entry::Indexed(payload.cpu.mapping()),
        payload.document()["ram"@] == Entry::Counters(payload.ram.mapping()),
        payload.document()["swap"@] == Entry::Counters(payload.swap.mapping()),
        payload.document()["disk"@] == disk_entry(payload.disk),
        payload.document()["disk"@] is Null <==> payload.disk is None,
{
    lemma_section_keys_differ();
    let cpu = Section::Cpu.key_text();
    let ram = Section::Ram.key_text();
    let swap = Section::Swap.key_text();
    let disk = Section::Disk.key_text();
    assert(cpu != ram && cpu != swap && cpu != disk && ram != swap && ram != disk && swap != disk);
    let empty = Set::<Seq<char>>::empty();
    assert(payload.document().dom() =~= empty.insert(cpu).insert(ram).insert(swap).insert(disk));
    assert(empty.insert(cpu).len() == 1);
    assert(empty.insert(cpu).insert(ram).len() == 2);
    assert(empty.insert(cpu).insert(ram).insert(swap).len() == 3);
}

/// The disk entry of a payload that is built from an enumeration of disks.
/// It is the null marker if and only if fewer than two disks are enumerated.
/// Otherwise it holds the total and the available bytes of the second disk
/// and, as used bytes, exactly the total less the available ones. Left out
/// are the enumerations of which no reading is made: those whose second
/// disk has more available than total space.
pub proof fn lemma_disk_entry(
    cpu: CpuReading,
    ram: MemoryReading,
    swap: MemoryReading,
    disks: Seq<DiskSpace>,
)
    requires
        disk_reading_of(disks) is Ok,
    ensures
        ({
            let payload = payload_of(cpu, ram, swap, disk_reading_of(disks)->Ok_0);
            &&& payload.document()["disk"@] is Null <==> disks.len() < 2
            &&& disks.len() >= 2 ==> payload.document()["disk"@] == Entry::Counters(
                map![
                    "total"@ => disks[1].total as nat,
                    "available"@ => disks[1].available as nat,
                    "used"@ => (disks[1].total - disks[1].available) as nat,
                ],
            )
        }),
{
    let payload = payload_of(cpu, ram, swap, disk_reading_of(disks)->Ok_0);
    lemma_document(payload);
    crate::reading::lemma_disk_rule(disks);
    if disks.len() >= 2 {
        let reading = payload.disk->Some_0;
        assert(reading.mapping() =~= map![
            "total"@ => disks[1].total as nat,
            "available"@ => disks[1].available as nat,
            "used"@ => (disks[1].total - disks[1].available) as nat,
        ]);
    }
}

} // verus!
