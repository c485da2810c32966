use daedalus::net::packet_pool::{AtomicBitmap, PacketPool, PACKET_POOL_SIZE};

#[test]
fn test_atomic_bitmap_acquire_release() {
    let mut bitmap = AtomicBitmap::new();

    let bit0 = bitmap.acquire_bit().unwrap();
    assert_eq!(bit0, 0);
    assert!(bitmap.is_allocated(0));

    let bit1 = bitmap.acquire_bit().unwrap();
    assert_eq!(bit1, 1);
    assert!(bitmap.is_allocated(1));

    bitmap.release_bit(bit0);
    assert!(!bitmap.is_allocated(0));

    let bit0_again = bitmap.acquire_bit().unwrap();
    assert_eq!(bit0_again, 0);
}

#[test]
fn test_atomic_bitmap_exhaustion() {
    let mut bitmap = AtomicBitmap::new();

    let mut bits = Vec::new();
    for _ in 0..256 {
        bits.push(bitmap.acquire_bit().unwrap());
    }
    assert_eq!(bits, (0..256).collect::<Vec<usize>>());

    assert!(bitmap.acquire_bit().is_none());

    bitmap.release_bit(bits[100]);

    let bit = bitmap.acquire_bit().unwrap();
    assert_eq!(bit, 100);
}

#[test]
fn bitmap_hands_out_lowest_free_bit_across_words() {
    let mut bitmap = AtomicBitmap::new();
    for _ in 0..70 {
        bitmap.acquire_bit().unwrap();
    }
    bitmap.release_bit(65);
    bitmap.release_bit(33);
    assert_eq!(bitmap.acquire_bit(), Some(33));
    assert_eq!(bitmap.acquire_bit(), Some(65));
    assert_eq!(bitmap.acquire_bit(), Some(70));
}

#[test]
fn test_packet_buffer_refcount() {
    let mut pool = PacketPool::new();
    let data: &[u8] = &[1, 2, 3, 4, 5];
    let id = pool.allocate(data, 42).unwrap();
    assert_eq!(id, 0);
    assert_eq!(pool.get(id), data);
    assert_eq!(pool.timestamp(id), 42);

    // A second holder keeps the buffer in use after the first lets go.
    pool.clone_ref(id);
    pool.free(id);
    assert_eq!(pool.get(id), data);
    assert_eq!(pool.allocate(&[9], 0), Some(1));

    // The last holder returns it to the pool.
    pool.free(id);
    assert_eq!(pool.allocate(&[7], 0), Some(0));

    let stats = pool.stats();
    assert_eq!(stats.alloc_count, 3);
    assert_eq!(stats.free_count, 1);
    assert_eq!(stats.alloc_failures, 0);
}

#[test]
fn packet_pool_exhaustion_and_oversize() {
    let mut pool = PacketPool::new();
    for i in 0..PACKET_POOL_SIZE {
        assert_eq!(pool.allocate(&[i as u8], 0), Some(i));
    }
    assert_eq!(pool.allocate(&[0], 0), None);
    assert_eq!(pool.stats().alloc_failures, 1);

    pool.free(200);
    assert_eq!(pool.allocate(&[1, 2], 5), Some(200));
    assert_eq!(pool.get(200), &[1, 2]);

    let mut fresh = PacketPool::new();
    let too_big = vec![0u8; 2049];
    assert_eq!(fresh.allocate(&too_big, 0), None);
    assert_eq!(fresh.stats().alloc_failures, 0);
    assert_eq!(fresh.allocate(&vec![0u8; 2048], 0), Some(0));
}
