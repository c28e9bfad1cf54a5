//! Target descriptors, target selectors and the chip registry.
//!
//! The registry that maps chip names and chip identities to static chip
//! descriptors is a collaborator outside this crate; here it is a plain
//! lookup table handed in by the embedder, and the two lookups consumed by
//! target resolution are specified exactly over its entries.

use vstd::prelude::*;

use crate::arch::{Architecture, CoreType};
use crate::error::RegistryError;

verus! {

/// A contiguous address range of the target's memory.
#[derive(Clone, Copy, Debug, PartialEq, Eq, Structural)]
pub struct MemoryRange {
    /// The first address of the range.
    pub start: u64,
    /// The number of bytes in the range.
    pub length: u64,
}

/// One region of the target's memory map.
#[derive(Clone, Copy, Debug, PartialEq, Eq, Structural)]
pub enum MemoryRegion {
    /// Volatile memory.
    Ram(MemoryRange),
    /// Non-volatile, flash-programmable memory.
    Flash(MemoryRange),
    /// Memory with no further classification.
    Generic(MemoryRange),
}

/// A descriptor of one flash-loader algorithm of the target.
#[derive(Debug)]
pub struct RawFlashAlgorithm {
    /// The name of the algorithm.
    pub name: String,
    /// The address the loader is placed at.
    pub load_address: u64,
}

/// The mathematical value of a flash-algorithm descriptor.
pub struct RawFlashAlgorithmView {
    pub name: Seq<char>,
    pub load_address: u64,
}

impl View for RawFlashAlgorithm {
    type V = RawFlashAlgorithmView;

    open spec fn view(&self) -> RawFlashAlgorithmView {
        RawFlashAlgorithmView { name: self.name@, load_address: self.load_address }
    }
}

/// An immutable static chip descriptor, produced by the registry: what chip
/// is attached, which cores it declares and how its memory is laid out.
#[derive(Debug)]
pub struct Target {
    /// The name of the chip.
    pub name: String,
    /// The type of the chip's cores.
    pub core_type: CoreType,
    /// How many cores the chip declares; at least one.
    pub core_count: usize,
    /// The ordered memory regions of the chip.
    pub memory_map: Vec<MemoryRegion>,
    /// The flash-loader algorithms known for the chip.
    pub flash_algorithms: Vec<RawFlashAlgorithm>,
}

/// The mathematical value of a target descriptor.
pub struct TargetView {
    pub name: Seq<char>,
    pub core_type: CoreType,
    pub core_count: usize,
    pub memory_map: Seq<MemoryRegion>,
    pub flash_algorithms: Seq<RawFlashAlgorithmView>,
}

impl View for Target {
    type V = TargetView;

    open spec fn view(&self) -> TargetView {
        TargetView {
            name: self.name@,
            core_type: self.core_type,
            core_count: self.core_count,
            memory_map: self.memory_map@,
            flash_algorithms: self.flash_algorithms@.map_values(|a: RawFlashAlgorithm| a@),
        }
    }
}

impl Target {
    /// A well-formed descriptor declares at least one core.
    pub open spec fn wf(&self) -> bool {
        self.core_count >= 1
    }

    /// The debug architecture the descriptor encodes, derived from the
    /// declared core type.
    pub open spec fn spec_architecture(&self) -> Architecture {
        self.core_type.spec_architecture()
    }

    /// The debug architecture the descriptor encodes.
    pub fn architecture(&self) -> (r: Architecture)
        ensures
            r == self.spec_architecture(),
    {
        self.core_type.architecture()
    }
}

/// The ephemeral identity an ARM identification-table scan reads from
/// silicon: a manufacturer code and a part number.
#[derive(Clone, Copy, Debug, PartialEq, Eq, Structural)]
pub struct ArmChipInfo {
    /// The JEP106 manufacturer identity of the chip.
    pub manufacturer: u16,
    /// The manufacturer's part number of the chip.
    pub part: u16,
}

/// A chip identity obtained by autodetection, consumed by a registry
/// lookup.
#[derive(Clone, Copy, Debug, PartialEq, Eq, Structural)]
pub enum ChipInfo {
    /// An identity read from an ARM identification table.
    Arm(ArmChipInfo),
}

impl From<ArmChipInfo> for ChipInfo {
    fn from(value: ArmChipInfo) -> (r: ChipInfo) {
        ChipInfo::Arm(value)
    }
}

impl vstd::std_specs::convert::FromSpecImpl<ArmChipInfo> for ChipInfo {
    open spec fn obeys_from_spec() -> bool {
        true
    }

    open spec fn from_spec(value: ArmChipInfo) -> ChipInfo {
        ChipInfo::Arm(value)
    }
}

/// How the caller of the session constructor selects the chip to debug.
#[derive(Debug)]
pub enum TargetSelector {
    /// Use this descriptor verbatim.
    Specified(Target),
    /// Look the chip up in the registry by this name.
    Unspecified(String),
    /// Identify the chip by probing the attached silicon.
    Auto,
}

impl TargetSelector {
    /// A well-formed selector carries only well-formed descriptors.
    pub open spec fn wf(&self) -> bool {
        match self {
            TargetSelector::Specified(t) => t.wf(),
            _ => true,
        }
    }
}

/// One registry entry: a chip descriptor, possibly reachable by the chip
/// identity autodetection reads from silicon.
#[derive(Debug)]
pub struct RegistryEntry {
    /// The descriptor the entry resolves to.
    pub target: Target,
    /// The chip identity that resolves to this entry, for chips whose
    /// silicon identifies itself.
    pub identity: Option<ChipInfo>,
}

/// The chip registry: an ordered lookup table of chip descriptors. A lookup
/// returns the first entry matching its key.
#[derive(Debug)]
pub struct Registry {
    pub entries: Vec<RegistryEntry>,
}

impl Registry {
    /// A well-formed registry holds only well-formed descriptors.
    pub open spec fn wf(&self) -> bool {
        forall|i: int|
            0 <= i < self.entries@.len() ==> (#[trigger] self.entries@[i]).target.wf()
    }
}

/// The first entry whose target carries the given name, walking the entries
/// front to back.
pub open spec fn spec_find_by_name(entries: Seq<RegistryEntry>, name: Seq<char>) -> Option<
    Target,
>
    decreases entries.len(),
{
    if entries.len() == 0 {
        None
    } else if entries[0].target.name@ == name {
        Some(entries[0].target)
    } else {
        spec_find_by_name(entries.drop_first(), name)
    }
}

/// The first entry registered under the given chip identity, walking the
/// entries front to back.
pub open spec fn spec_find_by_chip_info(entries: Seq<RegistryEntry>, chip: ChipInfo) -> Option<
    Target,
>
    decreases entries.len(),
{
    if entries.len() == 0 {
        None
    } else if entries[0].identity == Some(chip) {
        Some(entries[0].target)
    } else {
        spec_find_by_chip_info(entries.drop_first(), chip)
    }
}

/// Skipping a prefix free of name matches leaves the lookup's answer
/// unchanged.
proof fn lemma_find_by_name_skip(entries: Seq<RegistryEntry>, name: Seq<char>, i: int)
    requires
        0 <= i <= entries.len(),
        forall|j: int| 0 <= j < i ==> (#[trigger] entries[j]).target.name@ != name,
    ensures
        spec_find_by_name(entries, name) == spec_find_by_name(entries.skip(i), name),
    decreases i,
{
    if i > 0 {
        assert(entries[0].target.name@ != name);
        assert(entries.drop_first().skip(i - 1) =~= entries.skip(i));
        lemma_find_by_name_skip(entries.drop_first(), name, i - 1);
    } else {
        assert(entries.skip(0) =~= entries);
    }
}

/// Skipping a prefix free of identity matches leaves the lookup's answer
/// unchanged.
proof fn lemma_find_by_chip_info_skip(entries: Seq<RegistryEntry>, chip: ChipInfo, i: int)
    requires
        0 <= i <= entries.len(),
        forall|j: int| 0 <= j < i ==> (#[trigger] entries[j]).identity != Some(chip),
    ensures
        spec_find_by_chip_info(entries, chip) == spec_find_by_chip_info(entries.skip(i), chip),
    decreases i,
{
    if i > 0 {
        assert(entries[0].identity != Some(chip));
        assert(entries.drop_first().skip(i - 1) =~= entries.skip(i));
        lemma_find_by_chip_info_skip(entries.drop_first(), chip, i - 1);
    } else {
        assert(entries.skip(0) =~= entries);
    }
}

/// A name lookup that finds a target finds the target of one of the
/// entries; so a well-formed registry only ever hands out well-formed
/// descriptors.
pub proof fn lemma_find_by_name_is_entry(entries: Seq<RegistryEntry>, name: Seq<char>)
    ensures
        spec_find_by_name(entries, name) matches Some(t) ==> exists|i: int|
            0 <= i < entries.len() && (#[trigger] entries[i]).target == t,
    decreases entries.len(),
{
    if entries.len() > 0 && entries[0].target.name@ != name {
        lemma_find_by_name_is_entry(entries.drop_first(), name);
        if spec_find_by_name(entries, name) is Some {
            let i = choose|i: int|
                0 <= i < entries.drop_first().len() && (#[trigger] entries.drop_first()[i]).target
                    == spec_find_by_name(entries, name)->Some_0;
            assert(entries[i + 1] == entries.drop_first()[i]);
        }
    }
}

/// An identity lookup that finds a target finds the target of one of the
/// entries.
pub proof fn lemma_find_by_chip_info_is_entry(entries: Seq<RegistryEntry>, chip: ChipInfo)
    ensures
        spec_find_by_chip_info(entries, chip) matches Some(t) ==> exists|i: int|
            0 <= i < entries.len() && (#[trigger] entries[i]).target == t,
    decreases entries.len(),
{
    if entries.len() > 0 && entries[0].identity != Some(chip) {
        lemma_find_by_chip_info_is_entry(entries.drop_first(), chip);
        if spec_find_by_chip_info(entries, chip) is Some {
            let i = choose|i: int|
                0 <= i < entries.drop_first().len() && (#[trigger] entries.drop_first()[i]).target
                    == spec_find_by_chip_info(entries, chip)->Some_0;
            assert(entries[i + 1] == entries.drop_first()[i]);
        }
    }
}

/// Copies a memory map.
fn clone_memory_map(v: &Vec<MemoryRegion>) -> (r: Vec<MemoryRegion>)
    ensures
        r@ == v@,
{
    let mut r: Vec<MemoryRegion> = Vec::new();
    let mut i: usize = 0;
    while i < v.len()
        invariant
            i <= v.len(),
            r@.len() == i,
            forall|j: int| 0 <= j < i ==> r@[j] == v@[j],
        decreases v.len() - i,
    {
        r.push(v[i]);
        i = i + 1;
    }
    proof {
        assert(r@ =~= v@);
    }
    r
}

/// Copies a list of flash-algorithm descriptors.
fn clone_flash_algorithms(v: &Vec<RawFlashAlgorithm>) -> (r: Vec<RawFlashAlgorithm>)
    ensures
        r@ == v@,
{
    let mut r: Vec<RawFlashAlgorithm> = Vec::new();
    let mut i: usize = 0;
    while i < v.len()
        invariant
            i <= v.len(),
            r@.len() == i,
            forall|j: int| 0 <= j < i ==> r@[j] == v@[j],
        decreases v.len() - i,
    {
        let a = &v[i];
        r.push(RawFlashAlgorithm { name: a.name.clone(), load_address: a.load_address });
        i = i + 1;
    }
    proof {
        assert(r@ =~= v@);
    }
    r
}

/// Copies a target descriptor. The copy has the same mathematical value as
/// the original.
pub fn clone_target(t: &Target) -> (r: Target)
    ensures
        r@ == t@,
{
    let r = Target {
        name: t.name.clone(),
        core_type: t.core_type,
        core_count: t.core_count,
        memory_map: clone_memory_map(&t.memory_map),
        flash_algorithms: clone_flash_algorithms(&t.flash_algorithms),
    };
    proof {
        assert(r@.flash_algorithms =~= t@.flash_algorithms);
    }
    r
}

/// Looks a chip up in the registry by name; a miss is reported as
/// [`RegistryError::NameNotFound`].
#[verifier::loop_isolation(false)]
pub fn get_target_by_name(registry: &Registry, name: &str) -> (r: Result<Target, RegistryError>)
    ensures
        ({
            let found = spec_find_by_name(registry.entries@, name@);
            match r {
                Ok(t) => found matches Some(ft) && t@ == ft@,
                Err(e) => found is None && e == RegistryError::NameNotFound,
            }
        }),
{
    let owned: String = name.to_owned();
    let n = registry.entries.len();
    let mut i: usize = 0;
    while i < n
        invariant
            i <= n,
            n == registry.entries@.len(),
            owned@ == name@,
            forall|j: int| 0 <= j < i ==> (#[trigger] registry.entries@[j]).target.name@ != name@,
        decreases n - i,
    {
        if registry.entries[i].target.name == owned {
            let t = clone_target(&registry.entries[i].target);
            proof {
                lemma_find_by_name_skip(registry.entries@, name@, i as int);
                assert(registry.entries@.skip(i as int)[0] == registry.entries@[i as int]);
            }
            return Ok(t);
        }
        i = i + 1;
    }
    proof {
        lemma_find_by_name_skip(registry.entries@, name@, n as int);
        assert(registry.entries@.skip(n as int).len() == 0);
    }
    Err(RegistryError::NameNotFound)
}

/// Looks a chip up in the registry by the identity autodetection read from
/// silicon; a miss is reported as [`RegistryError::NameNotFound`].
#[verifier::loop_isolation(false)]
pub fn get_target_by_chip_info(registry: &Registry, chip: ChipInfo) -> (r: Result<
    Target,
    RegistryError,
>)
    ensures
        ({
            let found = spec_find_by_chip_info(registry.entries@, chip);
            match r {
                Ok(t) => found matches Some(ft) && t@ == ft@,
                Err(e) => found is None && e == RegistryError::NameNotFound,
            }
        }),
{
    let n = registry.entries.len();
    let mut i: usize = 0;
    while i < n
        invariant
            i <= n,
            n == registry.entries@.len(),
            forall|j: int| 0 <= j < i ==> (#[trigger] registry.entries@[j]).identity != Some(
                chip,
            ),
        decreases n - i,
    {
        let matches_here = match &registry.entries[i].identity {
            Some(id) => *id == chip,
            None => false,
        };
        if matches_here {
            let t = clone_target(&registry.entries[i].target);
            proof {
                lemma_find_by_chip_info_skip(registry.entries@, chip, i as int);
                assert(registry.entries@.skip(i as int)[0] == registry.entries@[i as int]);
            }
            return Ok(t);
        }
        i = i + 1;
    }
    proof {
        lemma_find_by_chip_info_skip(registry.entries@, chip, n as int);
        assert(registry.entries@.skip(n as int).len() == 0);
    }
    Err(RegistryError::NameNotFound)
}

} // verus!
