use wasm2c_bridge::{BridgeError, Extent, MAX_MEMORY_PAGES};

#[test]
fn memory_allocation_bounds() {
    let m = Extent::allocate_memory(1, 4).unwrap();
    assert_eq!(m.size(), 1);
    assert_eq!(m.max(), 4);
    assert!(Extent::allocate_memory(0, 0).is_ok());
    assert!(Extent::allocate_memory(MAX_MEMORY_PAGES, MAX_MEMORY_PAGES).is_ok());
    assert_eq!(Extent::allocate_memory(5, 4).err(), Some(BridgeError::AllocationFailure));
    assert_eq!(
        Extent::allocate_memory(0, MAX_MEMORY_PAGES + 1).err(),
        Some(BridgeError::AllocationFailure)
    );
}

#[test]
fn memory_growth() {
    let mut m = Extent::allocate_memory(1, 4).unwrap();
    assert_eq!(m.grow(2), Some(3));
    assert_eq!(m.size(), 3);
    assert_eq!(m.grow(2), None);
    assert_eq!(m.size(), 3);
    assert_eq!(m.grow(0), Some(3));
    assert_eq!(m.grow(1), Some(4));
    assert_eq!(m.grow(u32::MAX), None);
    assert_eq!(m.size(), 4);
}

#[test]
fn table_allocation_and_growth() {
    let mut t = Extent::allocate_table(10, u32::MAX).unwrap();
    assert_eq!(t.grow(u32::MAX - 10), Some(u32::MAX));
    assert_eq!(t.grow(1), None);
    assert_eq!(Extent::allocate_table(3, 2).err(), Some(BridgeError::AllocationFailure));
}
