use node_connection::Buffer;

#[test]
fn new_buffer_is_empty() {
    let b = Buffer::new(1024);
    assert!(b.data_buffer.is_empty());
    assert_eq!(b.data_offset, 0);
    assert_eq!(b.reclaim_threshold, 1024);
}

#[test]
fn growing_keeps_the_bytes_and_adds_zeros() {
    let mut b = Buffer::new(1024);
    b.resize_buffer(3);
    assert_eq!(b.data_buffer, vec![0, 0, 0]);
    b.data_buffer.copy_from_slice(&[7, 8, 9]);
    b.resize_buffer(5);
    assert_eq!(b.data_buffer, vec![7, 8, 9, 0, 0]);
}

#[test]
fn shrinking_keeps_the_front() {
    let mut b = Buffer::new(1024);
    b.resize_buffer(4);
    b.data_buffer.copy_from_slice(&[1, 2, 3, 4]);
    b.data_offset = 2;
    b.resize_buffer(1);
    assert_eq!(b.data_buffer, vec![1]);
    assert_eq!(b.data_offset, 2);
    assert_eq!(b.reclaim_threshold, 1024);
}

#[test]
fn resize_to_the_same_size_changes_nothing() {
    let mut b = Buffer::new(0);
    b.resize_buffer(2);
    b.data_buffer.copy_from_slice(&[5, 6]);
    b.resize_buffer(2);
    assert_eq!(b.data_buffer, vec![5, 6]);
}

#[test]
fn allocation_above_the_threshold_is_handed_back() {
    let mut b = Buffer::new(64);
    b.resize_buffer(4096);
    assert!(b.data_buffer.capacity() >= 4096);
    b.resize_buffer(8);
    assert_eq!(b.data_buffer.len(), 8);
    assert!(b.data_buffer.capacity() < 4096);
}

#[test]
fn allocation_under_the_threshold_is_kept() {
    let mut b = Buffer::new(1 << 20);
    b.resize_buffer(4096);
    b.resize_buffer(8);
    assert_eq!(b.data_buffer.len(), 8);
    assert!(b.data_buffer.capacity() >= 4096);
}

#[test]
fn reset_offset_goes_back_to_the_start() {
    let mut b = Buffer::new(16);
    b.resize_buffer(4);
    b.data_buffer.copy_from_slice(&[1, 2, 3, 4]);
    b.data_offset = 4;
    b.reset_offset();
    assert_eq!(b.data_offset, 0);
    assert_eq!(b.data_buffer, vec![1, 2, 3, 4]);
}
