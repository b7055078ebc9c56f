//! The memory type selector and the allocation plan.
//!
//! The native device advertises an ordered list of memory types, each a
//! bitmask of capability flags. A not-yet-backed image reports which of
//! those types can back it through a compatibility bitmask. The selector
//! picks the lowest compatible index whose flags contain everything the
//! caller requires; the plan turns that choice into the one allocation the
//! flow makes.

use vstd::prelude::*;

verus! {

/// Capability bit of memory that lives on the device itself.
pub const DEVICE_LOCAL: u32 = 1;

/// Capability bit of memory the host can map.
pub const HOST_VISIBLE: u32 = 2;

/// One memory type as the native device advertises it: a bitmask of
/// capability flags such as [`DEVICE_LOCAL`] or [`HOST_VISIBLE`].
#[derive(Clone, Copy, Debug, PartialEq, Eq, Structural)]
pub struct MemoryType {
    pub property_flags: u32,
}

/// The device's advertised memory types, in the order the driver reports
/// them. Immutable snapshot, queried once per allocation.
pub struct MemoryProperties {
    pub memory_types: Vec<MemoryType>,
}

impl MemoryProperties {
    /// A resource's compatibility mask addresses types by bit index in a
    /// `u32`, so the device can advertise at most 32 of them.
    pub open spec fn wf(&self) -> bool {
        self.memory_types@.len() <= 32
    }
}

/// What the driver reports a not-yet-backed image needs: a size and an
/// alignment in bytes, and a mask of the memory type indices that can
/// back it.
#[derive(Clone, Copy, Debug, PartialEq, Eq, Structural)]
pub struct MemoryRequirements {
    pub size: u64,
    pub alignment: u64,
    pub memory_type_bits: u32,
}

/// Memory type `i` can back the resource: bit `i` of the compatibility
/// mask is set, and the type's flags contain every required flag.
pub open spec fn accepts(memory_type_bits: u32, types: Seq<MemoryType>, required: u32, i: int) -> bool {
    &&& 0 <= i < types.len()
    &&& i < 32
    &&& memory_type_bits & (1u32 << (i as u32)) != 0
    &&& types[i].property_flags & required == required
}

/// Scan the advertised memory types in ascending index order and return the
/// first that both the compatibility mask and the required flags admit.
/// Returns `None` when the device offers no such type; first match wins, so
/// the result is deterministic.
pub fn find_memory_type(
    requirements: &MemoryRequirements,
    mem_properties: &MemoryProperties,
    required_properties: u32,
) -> (r: Option<u32>)
    requires
        mem_properties.wf(),
    ensures
        match r {
            Some(i) => accepts(
                requirements.memory_type_bits,
                mem_properties.memory_types@,
                required_properties,
                i as int,
            ) && forall|j: int|
                0 <= j < i ==> !accepts(
                    requirements.memory_type_bits,
                    mem_properties.memory_types@,
                    required_properties,
                    j,
                ),
            None => forall|j: int|
                !accepts(
                    requirements.memory_type_bits,
                    mem_properties.memory_types@,
                    required_properties,
                    j,
                ),
        },
{
    let n = mem_properties.memory_types.len();
    let mut i: usize = 0;
    while i < n
        invariant
            n == mem_properties.memory_types@.len(),
            n <= 32,
            i <= n,
            forall|j: int|
                0 <= j < i ==> !accepts(
                    requirements.memory_type_bits,
                    mem_properties.memory_types@,
                    required_properties,
                    j,
                ),
        decreases n - i,
    {
        let bit: u32 = 1u32 << (i as u32);
        if requirements.memory_type_bits & bit != 0
            && mem_properties.memory_types[i].property_flags & required_properties
                == required_properties
        {
            return Some(i as u32);
        }
        i += 1;
    }
    None
}

/// The one allocation the flow makes: exactly the reported size, from the
/// selected memory type, to be bound at offset zero.
#[derive(Clone, Copy, Debug, PartialEq, Eq, Structural)]
pub struct MemoryAllocateInfo {
    pub allocation_size: u64,
    pub memory_type_index: u32,
    pub bind_offset: u64,
}

/// Failure of the allocation plan. Exhaustion of the device's memory types
/// is unrecoverable: proceeding with an incompatible type is undefined
/// behaviour at the driver level, so the flow must abort instead.
#[derive(Clone, Copy, Debug, PartialEq, Eq, Structural)]
pub enum MemoryError {
    NoCompatibleMemoryType,
}

/// Plan the single memory allocation that will back the image: the lowest
/// compatible memory type with the required properties, sized to exactly
/// what the driver reported, bound at offset zero. Fails if and only if no
/// advertised memory type satisfies both masks.
pub fn plan_allocation(
    requirements: &MemoryRequirements,
    mem_properties: &MemoryProperties,
    required_properties: u32,
) -> (r: Result<MemoryAllocateInfo, MemoryError>)
    requires
        mem_properties.wf(),
    ensures
        match r {
            Ok(plan) => {
                &&& plan.allocation_size == requirements.size
                &&& plan.bind_offset == 0
                &&& accepts(
                    requirements.memory_type_bits,
                    mem_properties.memory_types@,
                    required_properties,
                    plan.memory_type_index as int,
                )
                &&& forall|j: int|
                    0 <= j < plan.memory_type_index ==> !accepts(
                        requirements.memory_type_bits,
                        mem_properties.memory_types@,
                        required_properties,
                        j,
                    )
            },
            Err(e) => e == MemoryError::NoCompatibleMemoryType && forall|j: int|
                !accepts(
                    requirements.memory_type_bits,
                    mem_properties.memory_types@,
                    required_properties,
                    j,
                ),
        },
{
    match find_memory_type(requirements, mem_properties, required_properties) {
        Some(index) => Ok(
            MemoryAllocateInfo {
                allocation_size: requirements.size,
                memory_type_index: index,
                bind_offset: 0,
            },
        ),
        None => Err(MemoryError::NoCompatibleMemoryType),
    }
}

} // verus!
