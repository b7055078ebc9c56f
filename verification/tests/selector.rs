use manual_texture::memory::{
    find_memory_type, plan_allocation, MemoryError, MemoryProperties, MemoryRequirements,
    MemoryType, DEVICE_LOCAL, HOST_VISIBLE,
};

fn props(flags: &[u32]) -> MemoryProperties {
    let mut memory_types = Vec::new();
    for &property_flags in flags {
        memory_types.push(MemoryType { property_flags });
    }
    MemoryProperties { memory_types }
}

fn requirements(size: u64, memory_type_bits: u32) -> MemoryRequirements {
    MemoryRequirements {
        size,
        alignment: 4,
        memory_type_bits,
    }
}

#[test]
fn selects_lowest_matching_index() {
    let p = props(&[DEVICE_LOCAL, DEVICE_LOCAL]);
    let r = requirements(64, 0b11);
    assert_eq!(find_memory_type(&r, &p, DEVICE_LOCAL), Some(0));
}

#[test]
fn device_local_type_behind_host_visible_one() {
    let p = props(&[0, HOST_VISIBLE, DEVICE_LOCAL]);
    let r = requirements(1024, 0b0110);
    assert_eq!(find_memory_type(&r, &p, DEVICE_LOCAL), Some(2));
}

#[test]
fn exhaustion_when_only_host_visible_offered() {
    let p = props(&[HOST_VISIBLE]);
    let r = requirements(1024, 0b0001);
    assert_eq!(find_memory_type(&r, &p, DEVICE_LOCAL), None);
    assert!(matches!(
        plan_allocation(&r, &p, DEVICE_LOCAL),
        Err(MemoryError::NoCompatibleMemoryType)
    ));
}

#[test]
fn compatibility_bit_must_be_set() {
    let p = props(&[DEVICE_LOCAL, DEVICE_LOCAL]);
    let r = requirements(64, 0b10);
    assert_eq!(find_memory_type(&r, &p, DEVICE_LOCAL), Some(1));
}

#[test]
fn property_flags_may_be_a_strict_superset() {
    let p = props(&[DEVICE_LOCAL | HOST_VISIBLE]);
    let r = requirements(64, 0b1);
    assert_eq!(find_memory_type(&r, &p, DEVICE_LOCAL), Some(0));
}

#[test]
fn empty_type_list_exhausts() {
    let p = props(&[]);
    let r = requirements(64, 0b1);
    assert_eq!(find_memory_type(&r, &p, DEVICE_LOCAL), None);
}

#[test]
fn plan_copies_reported_size_and_binds_at_zero() {
    let p = props(&[HOST_VISIBLE, DEVICE_LOCAL]);
    let r = requirements(262144, 0b11);
    let plan = plan_allocation(&r, &p, DEVICE_LOCAL).unwrap();
    assert_eq!(plan.allocation_size, 262144);
    assert_eq!(plan.memory_type_index, 1);
    assert_eq!(plan.bind_offset, 0);
}
