//! Typed layer over the hwloc hardware-locality C library.
//!
//! The native library owns every topology, topology object and bitmap; this
//! crate only mirrors its integer constants as enums and gives the object-type
//! taxonomy its containment ordering. The raw foreign-function declarations
//! live outside the verified library.

use vstd::prelude::*;
use core::cmp::Ordering;

verus! {

/// Opaque handle to a topology owned and managed by the native library.
/// This crate never constructs a value of this type: only pointers to it
/// cross the foreign-function boundary.
pub enum HwlocTopology {
    /// Stands for native-library state that this crate never inspects.
    Opaque,
}

/// The type of a topology object.
///
/// Object types are ordered by containment: a type ranks below another when
/// objects of the first contain objects of the second. A machine therefore
/// ranks below a processing unit, and a processing unit above a level-1
/// cache.
#[derive(Debug, Clone, Copy)]
pub enum ObjectType {
    /// The root object of a topology: a set of processors and memory with
    /// cache coherency. Never used anywhere but at the root.
    Machine,
    /// Physical package, what goes into a socket.
    Package,
    /// A computation unit, possibly shared by several logical processors.
    Core,
    /// Processing unit: a (logical) processor. Always reported, so usable as
    /// a fallback when other kinds are not.
    PU,
    /// Level 1 data (or unified) cache.
    L1Cache,
    /// Level 2 data (or unified) cache.
    L2Cache,
    /// Level 3 data (or unified) cache.
    L3Cache,
    /// Level 4 data (or unified) cache.
    L4Cache,
    /// Level 5 data (or unified) cache.
    L5Cache,
    /// Level 1 instruction cache.
    L1ICache,
    /// Level 2 instruction cache.
    L2ICache,
    /// Level 3 instruction cache.
    L3ICache,
    /// Group objects: processor aggregations that do not fit the other kinds
    /// but matter for affinity.
    Group,
    /// A set of processors around memory which the processors can directly
    /// access.
    NUMANode,
    /// A bridge connecting the host or an I/O bus to another I/O bus.
    Bridge,
    /// PCI device.
    PCIDevice,
    /// Operating system device.
    OSDevice,
    /// Miscellaneous objects without particular meaning.
    Misc,
    /// Memory-side cache in front of a specific NUMA node.
    Memcache,
    /// Die within a physical package.
    Die,
    /// An internal sentinel value.
    TypeMax,
}

/// Rank of an object type in the containment order: a type of smaller rank
/// contains objects of types of larger rank. The machine is the outermost
/// object; among caches a higher level contains the lower levels; processing
/// units are the innermost compute objects; the sentinel ranks above all.
pub open spec fn type_order(t: ObjectType) -> int {
    match t {
        ObjectType::Machine => 0,
        ObjectType::Group => 1,
        ObjectType::Memcache => 2,
        ObjectType::NUMANode => 3,
        ObjectType::Package => 4,
        ObjectType::Die => 5,
        ObjectType::L5Cache => 6,
        ObjectType::L4Cache => 7,
        ObjectType::L3Cache => 8,
        ObjectType::L3ICache => 9,
        ObjectType::L2Cache => 10,
        ObjectType::L2ICache => 11,
        ObjectType::L1Cache => 12,
        ObjectType::L1ICache => 13,
        ObjectType::Core => 14,
        ObjectType::PU => 15,
        ObjectType::Bridge => 16,
        ObjectType::PCIDevice => 17,
        ObjectType::OSDevice => 18,
        ObjectType::Misc => 19,
        ObjectType::TypeMax => 20,
    }
}

/// Containment rank of an object type, as an executable value.
fn order_index(t: &ObjectType) -> (r: i32)
    ensures
        r == type_order(*t),
        0 <= r <= 20,
{
    match t {
        ObjectType::Machine => 0,
        ObjectType::Group => 1,
        ObjectType::Memcache => 2,
        ObjectType::NUMANode => 3,
        ObjectType::Package => 4,
        ObjectType::Die => 5,
        ObjectType::L5Cache => 6,
        ObjectType::L4Cache => 7,
        ObjectType::L3Cache => 8,
        ObjectType::L3ICache => 9,
        ObjectType::L2Cache => 10,
        ObjectType::L2ICache => 11,
        ObjectType::L1Cache => 12,
        ObjectType::L1ICache => 13,
        ObjectType::Core => 14,
        ObjectType::PU => 15,
        ObjectType::Bridge => 16,
        ObjectType::PCIDevice => 17,
        ObjectType::OSDevice => 18,
        ObjectType::Misc => 19,
        ObjectType::TypeMax => 20,
    }
}

/// Compares two object types by containment depth: the result is negative
/// when objects of type `a` contain objects of type `b`, zero when the types
/// are the same, and positive when objects of type `a` are contained in
/// objects of type `b`.
pub fn compare_types(a: &ObjectType, b: &ObjectType) -> (r: i32)
    ensures
        r == type_order(*a) - type_order(*b),
{
    let oa = order_index(a);
    let ob = order_index(b);
    oa - ob
}

impl PartialEq for ObjectType {
    /// Two object types are equal exactly when the containment comparison
    /// puts neither above the other.
    fn eq(&self, other: &Self) -> (r: bool) {
        match self.partial_cmp(other) {
            Some(Ordering::Equal) => true,
            _ => false,
        }
    }
}

impl vstd::std_specs::cmp::PartialEqSpecImpl for ObjectType {
    open spec fn obeys_eq_spec() -> bool {
        true
    }

    open spec fn eq_spec(&self, other: &Self) -> bool {
        type_order(*self) == type_order(*other)
    }
}

impl PartialOrd for ObjectType {
    /// Orders object types by containment depth, as [`compare_types`] does.
    fn partial_cmp(&self, other: &Self) -> (r: Option<Ordering>) {
        let compared = compare_types(self, other);
        if compared < 0 {
            Some(Ordering::Less)
        } else if compared == 0 {
            Some(Ordering::Equal)
        } else {
            Some(Ordering::Greater)
        }
    }
}

impl vstd::std_specs::cmp::PartialOrdSpecImpl for ObjectType {
    open spec fn obeys_partial_cmp_spec() -> bool {
        true
    }

    open spec fn partial_cmp_spec(&self, other: &Self) -> Option<Ordering> {
        if type_order(*self) < type_order(*other) {
            Some(Ordering::Less)
        } else if type_order(*self) == type_order(*other) {
            Some(Ordering::Equal)
        } else {
            Some(Ordering::Greater)
        }
    }
}

/// Every object type has its own containment rank, so the comparison-based
/// equality of object types coincides with being the same type.
pub proof fn lemma_type_order_injective(a: ObjectType, b: ObjectType)
    ensures
        type_order(a) == type_order(b) <==> a == b,
{
}

/// Outcome of asking the native library at which depth the objects of a
/// given type sit. The library answers either with a non-negative depth or
/// with one of these negative sentinel codes.
#[derive(Debug, PartialEq, Eq, Structural)]
pub enum TypeDepthError {
    /// No object of the given type exists in the topology.
    TypeDepthUnknown,
    /// Objects of the given type exist at different depths in the topology.
    TypeDepthMultiple,
    /// Virtual depth for NUMA nodes.
    TypeDepthNumaNode,
    /// Virtual depth for the bridge object level.
    TypeDepthBridge,
    /// Virtual depth for the PCI device object level.
    TypeDepthPCIDevice,
    /// Virtual depth for the software device object level.
    TypeDepthOSDevice,
    /// Virtual depth for Misc objects.
    TypeDepthMisc,
    /// Virtual depth for memory-side cache objects.
    TypeDepthMemcache,
    /// A code the native library is not documented to return.
    Unkown,
}

/// The sentinel code that the native library uses for each depth error.
pub open spec fn depth_error_code(e: TypeDepthError) -> int {
    match e {
        TypeDepthError::TypeDepthUnknown => -1,
        TypeDepthError::TypeDepthMultiple => -2,
        TypeDepthError::TypeDepthNumaNode => -3,
        TypeDepthError::TypeDepthBridge => -4,
        TypeDepthError::TypeDepthPCIDevice => -5,
        TypeDepthError::TypeDepthOSDevice => -6,
        TypeDepthError::TypeDepthMisc => -7,
        TypeDepthError::TypeDepthMemcache => -8,
        TypeDepthError::Unkown => -99,
    }
}

impl TypeDepthError {
    /// The sentinel value the native library answers with for this error.
    pub fn code(&self) -> (r: i64)
        ensures
            r == depth_error_code(*self),
    {
        match self {
            TypeDepthError::TypeDepthUnknown => -1,
            TypeDepthError::TypeDepthMultiple => -2,
            TypeDepthError::TypeDepthNumaNode => -3,
            TypeDepthError::TypeDepthBridge => -4,
            TypeDepthError::TypeDepthPCIDevice => -5,
            TypeDepthError::TypeDepthOSDevice => -6,
            TypeDepthError::TypeDepthMisc => -7,
            TypeDepthError::TypeDepthMemcache => -8,
            TypeDepthError::Unkown => -99,
        }
    }
}

/// What a cache caches.
#[derive(Debug, PartialEq, Eq, Structural)]
pub enum CacheType {
    /// Data and instructions together.
    Unified,
    /// Data only.
    Data,
    /// Instructions only.
    Instruction,
}

/// What a bridge connects to the rest of the machine.
#[derive(Debug, PartialEq, Eq, Structural)]
pub enum BridgeType {
    /// Bridge between the host and an I/O bus.
    Host,
    /// Bridge between two PCI buses.
    Pci,
}

/// The kind of an operating-system device.
#[derive(Debug, PartialEq, Eq, Structural)]
pub enum OsDevType {
    /// Block storage device.
    Block,
    /// Graphics processing unit.
    Gpu,
    /// Network interface.
    Network,
    /// OpenFabrics (InfiniBand and the like) interface.
    OpenFabrics,
    /// DMA engine.
    Dma,
    /// Co-processor.
    Coproc,
}

/// Flags that alter how the native library discovers a topology. Each flag
/// stands for one documented bit of the flags word that the native library
/// takes.
#[derive(Debug, Clone, Copy, PartialEq, Eq, Structural)]
pub enum TopologyFlag {
    /// Also detect objects that the system disallows for this process.
    IncludeDisallowed,
    /// Assume the topology describes the system the process runs on.
    IsThisSystem,
    /// Get the set of allowed resources from the system running this process.
    ThisSystemAllowedResources,
}

/// The documented bit that each topology flag occupies in the flags word:
/// 1 for detecting disallowed objects, 2 for assuming this system, 4 for
/// reading the allowed resources from this system.
pub open spec fn flag_value(f: TopologyFlag) -> u64 {
    match f {
        TopologyFlag::IncludeDisallowed => 1,
        TopologyFlag::IsThisSystem => 2,
        TopologyFlag::ThisSystemAllowedResources => 4,
    }
}

impl TopologyFlag {
    /// The flag's bit as a signed integer. Every flag has one.
    pub fn to_i64(&self) -> (r: Option<i64>)
        ensures
            r == Some(flag_value(*self) as i64),
    {
        match self {
            TopologyFlag::IncludeDisallowed => Some(1),
            TopologyFlag::IsThisSystem => Some(2),
            TopologyFlag::ThisSystemAllowedResources => Some(4),
        }
    }

    /// The flag's bit as an unsigned integer. Every flag has one.
    pub fn to_u64(&self) -> (r: Option<u64>)
        ensures
            r == Some(flag_value(*self)),
    {
        match self {
            TopologyFlag::IncludeDisallowed => Some(1),
            TopologyFlag::IsThisSystem => Some(2),
            TopologyFlag::ThisSystemAllowedResources => Some(4),
        }
    }

    /// The flag whose bit is `n`, if `n` is one of the documented bits.
    pub fn from_i64(n: i64) -> (r: Option<TopologyFlag>)
        ensures
            r is Some <==> n == 1 || n == 2 || n == 4,
            r matches Some(f) ==> flag_value(f) == n,
    {
        match n {
            1 => Some(TopologyFlag::IncludeDisallowed),
            2 => Some(TopologyFlag::IsThisSystem),
            4 => Some(TopologyFlag::ThisSystemAllowedResources),
            _ => None,
        }
    }

    /// The flag whose bit is `n`, if `n` is one of the documented bits.
    pub fn from_u64(n: u64) -> (r: Option<TopologyFlag>)
        ensures
            r is Some <==> n == 1 || n == 2 || n == 4,
            r matches Some(f) ==> flag_value(f) == n,
    {
        if n <= i64::MAX as u64 {
            TopologyFlag::from_i64(n as i64)
        } else {
            None
        }
    }
}

/// Every flag occupies a bit of its own, so a flag is recovered exactly from
/// its integer form.
pub proof fn lemma_flag_value_injective(a: TopologyFlag, b: TopologyFlag)
    ensures
        flag_value(a) == flag_value(b) <==> a == b,
{
}

} // verus!
