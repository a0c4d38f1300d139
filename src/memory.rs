//! Memory-type selection for buffers and images.
use vstd::prelude::*;

verus! {

pub const MEMORY_PROPERTY_DEVICE_LOCAL: u32 = 1;

pub const MEMORY_PROPERTY_HOST_VISIBLE: u32 = 2;

pub const MEMORY_PROPERTY_HOST_COHERENT: u32 = 4;

/// The largest number of memory types a device can report.
pub const MAX_MEMORY_TYPES: usize = 32;

#[derive(Clone, Copy, Debug, PartialEq, Eq, Structural)]
pub enum MemoryError {
    /// No memory type is both allowed by the resource and has the properties asked for.
    NoSuitableMemoryType,
}

/// Every bit set in `required` is set in `flags`.
pub open spec fn flags_contain(flags: u32, required: u32) -> bool {
    flags & required == required
}

/// Memory type `i` is allowed by the resource's type bitmask and has every
/// required property.
pub open spec fn memory_type_suitable(
    type_filter: u32,
    required: u32,
    memory_types: Seq<u32>,
    i: int,
) -> bool {
    &&& 0 <= i < memory_types.len()
    &&& i < MAX_MEMORY_TYPES
    &&& type_filter & (1u32 << (i as u32)) != 0
    &&& flags_contain(memory_types[i], required)
}

/// `i` is the first suitable memory type.
pub open spec fn is_first_suitable(
    type_filter: u32,
    required: u32,
    memory_types: Seq<u32>,
    i: int,
) -> bool {
    &&& memory_type_suitable(type_filter, required, memory_types, i)
    &&& forall|j: int|
        0 <= j < i ==> !#[trigger] memory_type_suitable(type_filter, required, memory_types, j)
}

/// Every bit of `required` is set in `flags`.
pub fn contains_flags(flags: u32, required: u32) -> (r: bool)
    ensures
        r == flags_contain(flags, required),
{
    flags & required == required
}

/// Picks the first memory type whose bit is set in `type_filter` and whose
/// property flags include all of `required`. `memory_types` holds the
/// property flags of each memory type the device reports, in order.
pub fn find_memory_type(type_filter: u32, required: u32, memory_types: &Vec<u32>) -> (r: Result<
    u32,
    MemoryError,
>)
    ensures
        match r {
            Ok(i) => is_first_suitable(type_filter, required, memory_types@, i as int),
            Err(e) => e == MemoryError::NoSuitableMemoryType && forall|i: int|
                !#[trigger] memory_type_suitable(type_filter, required, memory_types@, i),
        },
{
    let mut i: usize = 0;
    while i < memory_types.len() && i < MAX_MEMORY_TYPES
        invariant
            i <= MAX_MEMORY_TYPES,
            forall|j: int|
                0 <= j < i ==> !#[trigger] memory_type_suitable(
                    type_filter,
                    required,
                    memory_types@,
                    j,
                ),
        decreases MAX_MEMORY_TYPES - i,
    {
        if type_filter & (1u32 << (i as u32)) != 0 && contains_flags(memory_types[i], required) {
            return Ok(i as u32);
        }
        i = i + 1;
    }
    Err(MemoryError::NoSuitableMemoryType)
}

/// Memory-type selection is deterministic: for a fixed type bitmask, set of
/// required properties and list of device memory types, at most one index
/// meets the contract of `find_memory_type`.
pub proof fn lemma_memory_type_choice_is_unique(
    type_filter: u32,
    required: u32,
    memory_types: Seq<u32>,
    i: int,
    j: int,
)
    requires
        is_first_suitable(type_filter, required, memory_types, i),
        is_first_suitable(type_filter, required, memory_types, j),
    ensures
        i == j,
{
    if i < j {
        assert(!memory_type_suitable(type_filter, required, memory_types, i));
    } else if j < i {
        assert(!memory_type_suitable(type_filter, required, memory_types, j));
    }
}

} // verus!
