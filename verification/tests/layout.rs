use std::mem::size_of;

#[test]
fn test_usize_u64_and_ptr_size_match() {
    assert!(size_of::<usize>() >= size_of::<&u8>());
    assert!(size_of::<i64>() >= size_of::<usize>());
}

#[test]
fn test_assumtions() {
    assert_eq!(size_of::<usize>(), size_of::<&mut u8>());
}
