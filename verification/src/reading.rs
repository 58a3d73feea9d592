//! Readings of host metrics: per-core CPU usage, memory and swap counters,
//! and the usage of one designated disk.

use vstd::prelude::*;

verus! {

/// Bit pattern of the single-precision number 100, the largest usage a core
/// can report.
pub const FULL_LOAD_BITS: u32 = 0x42C8_0000;

/// Bit pattern of the single-precision negative zero.
pub const NEGATIVE_ZERO_BITS: u32 = 0x8000_0000;

/// Whether `bits` is the bit pattern of a single-precision number in the
/// closed range from 0 to 100.
///
/// The patterns of the non-negative numbers are ordered as the numbers
/// themselves, so those from positive zero up to 100 are the patterns up to
/// `FULL_LOAD_BITS`. Negative zero equals zero and is the one pattern with
/// the sign bit set that lies in the range.
pub open spec fn is_percentage(bits: u32) -> bool {
    bits <= FULL_LOAD_BITS || bits == NEGATIVE_ZERO_BITS
}

/// Decides `is_percentage`.
pub fn check_percentage(bits: u32) -> (ok: bool)
    ensures
        ok == is_percentage(bits),
{
    bits <= FULL_LOAD_BITS || bits == NEGATIVE_ZERO_BITS
}

/// The mapping from index to entry that a list of usages gives.
pub open spec fn indexed_map(usages: Seq<u32>) -> Map<int, u32> {
    Map::new(|i: int| 0 <= i < usages.len(), |i: int| usages[i])
}

/// The mapping from name to byte count that a list of named counters gives,
/// the list taken from its start to its end.
pub open spec fn counters_map(named: Seq<(Seq<char>, u64)>) -> Map<Seq<char>, nat>
    decreases named.len(),
{
    if named.len() == 0 {
        Map::empty()
    } else {
        counters_map(named.drop_last()).insert(named.last().0, named.last().1 as nat)
    }
}

/// Usage of every logical core, in the provider's order. The entry at index
/// `i` is the bit pattern of the usage percentage of core `i`.
#[derive(Clone, Debug, PartialEq, Eq)]
pub struct CpuReading {
    pub usages: Vec<u32>,
}

impl View for CpuReading {
    type V = Seq<u32>;

    open spec fn view(&self) -> Seq<u32> {
        self.usages@
    }
}

impl CpuReading {
    /// The reading as a mapping from core index to usage: its keys are the
    /// indices below the number of cores, and nothing else.
    pub open spec fn mapping(&self) -> Map<int, u32> {
        indexed_map(self@)
    }

    /// Whether every core's usage lies between 0 and 100.
    pub open spec fn all_percentages(&self) -> bool {
        forall|i: int| 0 <= i < self@.len() ==> is_percentage(#[trigger] self@[i])
    }

    /// A reading that reports `usages[i]` for core `i`.
    pub fn from_usages(usages: Vec<u32>) -> (reading: CpuReading)
        ensures
            reading@ == usages@,
    {
        CpuReading { usages }
    }

    /// Number of logical cores in the reading.
    pub fn cores(&self) -> (n: usize)
        ensures
            n == self@.len(),
    {
        self.usages.len()
    }

    /// Usage of core `index`, or `None` where the reading has no such core.
    pub fn usage(&self, index: usize) -> (bits: Option<u32>)
        ensures
            index < self@.len() ==> bits == Some(self@[index as int]),
            index >= self@.len() ==> bits is None,
    {
        if index < self.usages.len() {
            Some(self.usages[index])
        } else {
            None
        }
    }

    /// Decides `all_percentages`.
    pub fn in_range(&self) -> (ok: bool)
        ensures
            ok == self.all_percentages(),
    {
        let n: usize = self.usages.len();
        let mut i: usize = 0;
        while i < n
            invariant
                n == self@.len(),
                i <= n,
                forall|j: int| 0 <= j < i ==> is_percentage(#[trigger] self@[j]),
            decreases n - i,
        {
            if !check_percentage(self.usages[i]) {
                return false;
            }
            i = i + 1;
        }
        true
    }
}

/// Total, used and free bytes of main memory or of swap space. The provider
/// reports the three counters independently of each other: they need not
/// add up.
#[derive(Clone, Copy, Debug, PartialEq, Eq)]
pub struct MemoryReading {
    pub total: u64,
    pub used: u64,
    pub free: u64,
}

impl MemoryReading {
    /// The reading as a list of named counters, in the order in which they
    /// are reported.
    pub open spec fn named(&self) -> Seq<(Seq<char>, u64)> {
        seq![("total"@, self.total), ("used"@, self.used), ("free"@, self.free)]
    }

    /// The reading as a mapping from counter name to byte count.
    pub open spec fn mapping(&self) -> Map<Seq<char>, nat> {
        map![
            "total"@ => self.total as nat,
            "used"@ => self.used as nat,
            "free"@ => self.free as nat,
        ]
    }

    /// The reading of the three counters, each as it is given.
    pub fn new(total: u64, used: u64, free: u64) -> (reading: MemoryReading)
        ensures
            reading == (MemoryReading { total, used, free }),
    {
        MemoryReading { total, used, free }
    }

    /// The three counters with their names.
    pub fn entries(&self) -> (list: Vec<(&'static str, u64)>)
        ensures
            named_counters(list@) == self.named(),
    {
        let mut list: Vec<(&'static str, u64)> = Vec::new();
        list.push(("total", self.total));
        list.push(("used", self.used));
        list.push(("free", self.free));
        assert(named_counters(list@) =~= self.named());
        list
    }
}

/// What a list of named counters says, with each name taken as the text it
/// holds.
pub open spec fn named_counters(list: Seq<(&'static str, u64)>) -> Seq<(Seq<char>, u64)> {
    Seq::new(list.len(), |i: int| (list[i].0@, list[i].1))
}

/// Total and available bytes of one disk, as the provider reports them.
#[derive(Clone, Copy, Debug, PartialEq, Eq)]
pub struct DiskSpace {
    pub total: u64,
    pub available: u64,
}

/// Counters of the provider that contradict each other, so that no reading
/// can be made of them.
#[derive(Clone, Copy, Debug, PartialEq, Eq)]
pub enum Inconsistent {
    /// The designated disk has more bytes available than it has in total.
    Disk,
    /// More main memory is available than there is in total.
    Memory,
    /// More swap space is free than there is in total.
    Swap,
}

impl Inconsistent {
    pub open spec fn text(&self) -> Seq<char> {
        match self {
            Inconsistent::Disk => "disk reports more available than total space"@,
            Inconsistent::Memory => "more memory available than installed"@,
            Inconsistent::Swap => "more swap free than configured"@,
        }
    }

    /// A sentence that says which counters disagree.
    pub fn describe(&self) -> (message: &'static str)
        ensures
            message@ == self.text(),
    {
        match self {
            Inconsistent::Disk => "disk reports more available than total space",
            Inconsistent::Memory => "more memory available than installed",
            Inconsistent::Swap => "more swap free than configured",
        }
    }
}

/// Position, in the provider's enumeration, of the one disk that is
/// reported: the second.
pub const DESIGNATED_DISK: usize = 1;

/// Total, available and used bytes of the designated disk. The used bytes
/// are those of the total that are not available.
#[derive(Clone, Copy, Debug, PartialEq, Eq)]
pub struct DiskReading {
    total: u64,
    available: u64,
    used: u64,
}

impl DiskReading {
    #[verifier::type_invariant]
    spec fn balanced(self) -> bool {
        self.used + self.available == self.total
    }

    pub closed spec fn spec_total(&self) -> u64 {
        self.total
    }

    pub closed spec fn spec_available(&self) -> u64 {
        self.available
    }

    pub closed spec fn spec_used(&self) -> u64 {
        self.used
    }

    /// The reading made of a disk whose available space does not exceed its
    /// total space.
    pub closed spec fn of_space(space: DiskSpace) -> DiskReading {
        DiskReading {
            total: space.total,
            available: space.available,
            used: (space.total - space.available) as u64,
        }
    }

    /// The reading as a list of named counters, in the order in which they
    /// are reported.
    pub open spec fn named(&self) -> Seq<(Seq<char>, u64)> {
        seq![
            ("total"@, self.spec_total()),
            ("available"@, self.spec_available()),
            ("used"@, self.spec_used()),
        ]
    }

    /// The reading as a mapping from counter name to byte count.
    pub open spec fn mapping(&self) -> Map<Seq<char>, nat> {
        map![
            "total"@ => self.spec_total() as nat,
            "available"@ => self.spec_available() as nat,
            "used"@ => self.spec_used() as nat,
        ]
    }

    /// The reading of a disk, or `None` where the disk reports more
    /// available than total space.
    pub fn from_space(space: DiskSpace) -> (reading: Option<DiskReading>)
        ensures
            space.available <= space.total ==> reading == Some(DiskReading::of_space(space)),
            space.available > space.total ==> reading is None,
            reading matches Some(made) ==> {
                &&& made.spec_total() == space.total
                &&& made.spec_available() == space.available
                &&& made.spec_used() == space.total - space.available
            },
    {
        if space.available <= space.total {
            Some(
                DiskReading {
                    total: space.total,
                    available: space.available,
                    used: space.total - space.available,
                },
            )
        } else {
            None
        }
    }

    #[verifier::when_used_as_spec(spec_total)]
    pub fn total(&self) -> (bytes: u64)
        ensures
            bytes == self.spec_total(),
    {
        self.total
    }

    #[verifier::when_used_as_spec(spec_available)]
    pub fn available(&self) -> (bytes: u64)
        ensures
            bytes == self.spec_available(),
    {
        self.available
    }

    /// The used bytes: the total less the available ones.
    #[verifier::when_used_as_spec(spec_used)]
    pub fn used(&self) -> (bytes: u64)
        ensures
            bytes == self.spec_used(),
            bytes == self.spec_total() - self.spec_available(),
    {
        proof {
            use_type_invariant(self);
        }
        self.used
    }

    /// The three counters with their names.
    pub fn entries(&self) -> (list: Vec<(&'static str, u64)>)
        ensures
            named_counters(list@) == self.named(),
    {
        let mut list: Vec<(&'static str, u64)> = Vec::new();
        list.push(("total", self.total));
        list.push(("available", self.available));
        list.push(("used", self.used));
        assert(named_counters(list@) =~= self.named());
        list
    }
}

/// The disk that is reported among those enumerated: the one at
/// `DESIGNATED_DISK`, if the enumeration is that long.
pub open spec fn designated(disks: Seq<DiskSpace>) -> Option<DiskSpace> {
    if disks.len() > DESIGNATED_DISK {
        Some(disks[DESIGNATED_DISK as int])
    } else {
        None
    }
}

/// The disk reading made of the designated disk: none where there is no
/// such disk, else its reading, which is refused where the disk has more
/// available than total space.
pub open spec fn reading_of_designated(picked: Option<DiskSpace>) -> Result<
    Option<DiskReading>,
    Inconsistent,
> {
    match picked {
        None => Ok(None),
        Some(space) => if space.available <= space.total {
            Ok(Some(DiskReading::of_space(space)))
        } else {
            Err(Inconsistent::Disk)
        },
    }
}

/// The disk reading that an enumeration of disks gives: none where fewer
/// than two disks are enumerated, else the reading of the second.
pub open spec fn disk_reading_of(disks: Seq<DiskSpace>) -> Result<Option<DiskReading>, Inconsistent> {
    reading_of_designated(designated(disks))
}

/// Picks the designated disk of an enumeration.
pub fn select_designated(disks: &Vec<DiskSpace>) -> (picked: Option<DiskSpace>)
    ensures
        picked == designated(disks@),
{
    if disks.len() > DESIGNATED_DISK {
        Some(disks[DESIGNATED_DISK])
    } else {
        None
    }
}

/// Makes the disk reading of the designated disk, if there is one.
pub fn read_designated(picked: Option<DiskSpace>) -> (outcome: Result<
    Option<DiskReading>,
    Inconsistent,
>)
    ensures
        outcome == reading_of_designated(picked),
{
    match picked {
        None => Ok(None),
        Some(space) => match DiskReading::from_space(space) {
            Some(reading) => Ok(Some(reading)),
            None => Err(Inconsistent::Disk),
        },
    }
}

/// Makes the disk reading of an enumeration of disks. There is none if and
/// only if fewer than two disks are enumerated; otherwise it is that of the
/// second disk, with exactly the total less the available bytes as used.
pub fn disk_reading(disks: &Vec<DiskSpace>) -> (outcome: Result<Option<DiskReading>, Inconsistent>)
    ensures
        outcome == disk_reading_of(disks@),
        outcome == Ok::<Option<DiskReading>, Inconsistent>(None) <==> disks@.len() < 2,
        outcome == Err::<Option<DiskReading>, Inconsistent>(Inconsistent::Disk) <==> disks@.len()
            >= 2 && disks@[1].available > disks@[1].total,
        outcome matches Ok(Some(reading)) ==> {
            &&& disks@.len() >= 2
            &&& reading.spec_total() == disks@[1].total
            &&& reading.spec_available() == disks@[1].available
            &&& reading.spec_used() == disks@[1].total - disks@[1].available
        },
{
    proof {
        lemma_disk_rule(disks@);
    }
    read_designated(select_designated(disks))
}

/// The three names of the memory and swap counters are different texts.
pub proof fn lemma_memory_names_differ()
    ensures
        "total"@ != "used"@,
        "total"@ != "free"@,
        "used"@ != "free"@,
{
    reveal_strlit("total");
    reveal_strlit("used");
    reveal_strlit("free");
    assert("total"@.len() == 5 && "used"@.len() == 4);
    assert("used"@[0] != "free"@[0]);
}

/// The three names of the disk counters are different texts.
pub proof fn lemma_disk_names_differ()
    ensures
        "total"@ != "available"@,
        "total"@ != "used"@,
        "available"@ != "used"@,
{
    reveal_strlit("total");
    reveal_strlit("available");
    reveal_strlit("used");
    assert("total"@.len() == 5 && "available"@.len() == 9 && "used"@.len() == 4);
}

/// A memory or swap reading, as a mapping, has exactly the three keys
/// `total`, `used` and `free`; under each stands the counter of that name,
/// which is not negative.
pub proof fn lemma_memory_mapping(reading: MemoryReading)
    ensures
        reading.mapping().dom() =~= set!["total"@, "used"@, "free"@],
        reading.mapping().dom().finite(),
        reading.mapping().dom().len() == 3,
        reading.mapping()["total"@] == reading.total,
        reading.mapping()["used"@] == reading.used,
        reading.mapping()["free"@] == reading.free,
        counters_map(reading.named()) == reading.mapping(),
        forall|name: Seq<char>| #[trigger]
            reading.mapping().dom().contains(name) ==> reading.mapping()[name] >= 0,
        forall|i: int|
            0 <= i < reading.named().len() ==> reading.mapping().dom().contains(
                #[trigger] reading.named()[i].0,
            ) && reading.mapping()[reading.named()[i].0] == reading.named()[i].1,
{
    lemma_memory_names_differ();
    lemma_three_keys("total"@, "used"@, "free"@);
    lemma_counters_map_of_three(
        ("total"@, reading.total),
        ("used"@, reading.used),
        ("free"@, reading.free),
    );
    assert(counters_map(reading.named()) =~= reading.mapping());
}

/// A disk reading, as a mapping, has exactly the three keys `total`,
/// `available` and `used`; under each stands the counter of that name.
pub proof fn lemma_disk_mapping(reading: DiskReading)
    ensures
        reading.mapping().dom() =~= set!["total"@, "available"@, "used"@],
        reading.mapping().dom().finite(),
        reading.mapping().dom().len() == 3,
        reading.mapping()["total"@] == reading.spec_total(),
        reading.mapping()["available"@] == reading.spec_available(),
        reading.mapping()["used"@] == reading.spec_used(),
        counters_map(reading.named()) == reading.mapping(),
        forall|i: int|
            0 <= i < reading.named().len() ==> reading.mapping().dom().contains(
                #[trigger] reading.named()[i].0,
            ) && reading.mapping()[reading.named()[i].0] == reading.named()[i].1,
{
    lemma_disk_names_differ();
    lemma_three_keys("total"@, "available"@, "used"@);
    lemma_counters_map_of_three(
        ("total"@, reading.spec_total()),
        ("available"@, reading.spec_available()),
        ("used"@, reading.spec_used()),
    );
    assert(counters_map(reading.named()) =~= reading.mapping());
}

/// The mapping of a list of three named counters: each name with its count,
/// put in from the first to the last.
pub proof fn lemma_counters_map_of_three(
    a: (Seq<char>, u64),
    b: (Seq<char>, u64),
    c: (Seq<char>, u64),
)
    ensures
        counters_map(seq![a, b, c]) == Map::<Seq<char>, nat>::empty().insert(a.0, a.1 as nat).insert(
            b.0,
            b.1 as nat,
        ).insert(c.0, c.1 as nat),
{
    let three = seq![a, b, c];
    let two = seq![a, b];
    let one = seq![a];
    assert(three.drop_last() =~= two);
    assert(two.drop_last() =~= one);
    assert(one.drop_last() =~= Seq::<(Seq<char>, u64)>::empty());
    assert(counters_map(Seq::<(Seq<char>, u64)>::empty()) == Map::<Seq<char>, nat>::empty());
    assert(counters_map(one) == Map::<Seq<char>, nat>::empty().insert(a.0, a.1 as nat));
    assert(counters_map(two) == counters_map(one).insert(b.0, b.1 as nat));
    assert(counters_map(three) == counters_map(two).insert(c.0, c.1 as nat));
}

/// A set of three different texts has three elements.
proof fn lemma_three_keys(a: Seq<char>, b: Seq<char>, c: Seq<char>)
    requires
        a != b,
        a != c,
        b != c,
    ensures
        set![a, b, c].finite(),
        set![a, b, c].len() == 3,
{
    let empty = Set::<Seq<char>>::empty();
    assert(set![a, b, c] =~= empty.insert(a).insert(b).insert(c));
    assert(empty.insert(a).len() == 1);
    assert(empty.insert(a).insert(b).len() == 2);
}

/// The disk rule. No reading is made exactly where fewer than two disks are
/// enumerated. Where there are two or more, the reading is that of the
/// second: its total and available bytes, and as used bytes exactly the
/// total less the available ones. It is refused exactly where that disk has
/// more available than total space.
pub proof fn lemma_disk_rule(disks: Seq<DiskSpace>)
    ensures
        disk_reading_of(disks) == Ok::<Option<DiskReading>, Inconsistent>(None) <==> disks.len()
            < 2,
        disk_reading_of(disks) is Err <==> disks.len() >= 2 && disks[1].available
            > disks[1].total,
        disk_reading_of(disks) matches Ok(Some(reading)) ==> {
            &&& disks.len() >= 2
            &&& reading.spec_total() == disks[1].total
            &&& reading.spec_available() == disks[1].available
            &&& reading.spec_used() == disks[1].total - disks[1].available
        },
        disk_reading_of(disks) matches Err(fault) ==> fault == Inconsistent::Disk,
{
}

/// A core reading, as a mapping, has one key for each core, the indices
/// from 0, and under each the usage of that core. Where every usage lies
/// between 0 and 100, so does every value of the mapping.
pub proof fn lemma_cpu_mapping(reading: CpuReading)
    ensures
        reading.mapping().dom() =~= vstd::set_lib::set_int_range(0, reading@.len() as int),
        reading.mapping().dom().finite(),
        reading.mapping().dom().len() == reading@.len(),
        forall|i: int| 0 <= i < reading@.len() ==> reading.mapping()[i] == reading@[i],
        reading.all_percentages() ==> forall|i: int| #[trigger]
            reading.mapping().dom().contains(i) ==> is_percentage(reading.mapping()[i]),
{
    vstd::set_lib::lemma_int_range(0, reading@.len() as int);
    assert(reading.mapping().dom() =~= vstd::set_lib::set_int_range(0, reading@.len() as int));
}

} // verus!
