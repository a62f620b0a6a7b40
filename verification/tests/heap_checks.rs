use onoff_light::heap::{HeapCell, HeapError, HEAP_BYTES};

#[test]
fn heap_region_is_ten_kib() {
    assert_eq!(HEAP_BYTES, 10 * 1024);
}

#[test]
fn heap_init_records_size() {
    let mut heap = HeapCell::new();
    assert!(!heap.initialized);
    heap.init();
    assert!(heap.initialized);
    assert_eq!(heap.size, 10240);
}

#[test]
fn second_heap_init_is_detected() {
    let mut heap = HeapCell::new();
    let first = heap.try_init();
    assert!(first.is_ok());
    let second = heap.try_init();
    assert_eq!(second, Err(HeapError::AlreadyInitialized));
    assert!(heap.initialized);
    assert_eq!(heap.size, 10240);
}
