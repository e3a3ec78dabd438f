use dust::buffer::{BufferError, UniformBuffer};

#[test]
fn update_then_get_returns_written_values() {
    let mut b = UniformBuffer::new(&vec![3u32, 1, 16]).unwrap();
    assert_eq!(b.update(0, &[1, 2, 3]), Ok(()));
    assert_eq!(b.get(0), Ok(vec![1, 2, 3]));
    let m: Vec<u32> = (100..116).collect();
    assert_eq!(b.update(2, &m), Ok(()));
    assert_eq!(b.get(2), Ok(m));
    assert_eq!(b.get(1), Ok(vec![0]));
}

#[test]
fn new_buffer_is_zero_and_packed() {
    let b = UniformBuffer::new(&vec![3u32, 1, 3, 1, 16]).unwrap();
    assert_eq!(b.field_count(), 5);
    assert_eq!(b.data().len(), 24);
    assert!(b.data().iter().all(|v| *v == 0));
}

#[test]
fn fields_are_laid_out_back_to_back() {
    let mut b = UniformBuffer::new(&vec![3u32, 1, 3]).unwrap();
    assert_eq!(b.update(1, &[9]), Ok(()));
    assert_eq!(b.update(2, &[4, 5, 6]), Ok(()));
    assert_eq!(b.data(), &[0, 0, 0, 9, 4, 5, 6][..]);
}

#[test]
fn update_past_last_field_is_out_of_range() {
    let mut b = UniformBuffer::new(&vec![3u32, 1]).unwrap();
    assert_eq!(b.update(2, &[1]), Err(BufferError::OutOfRange));
    assert_eq!(b.get(2), Err(BufferError::OutOfRange));
    assert!(b.data().iter().all(|v| *v == 0));
}

#[test]
fn update_with_wrong_width_is_size_mismatch() {
    let mut b = UniformBuffer::new(&vec![3u32, 1]).unwrap();
    assert_eq!(b.update(0, &[1, 2]), Err(BufferError::SizeMismatch));
    assert_eq!(b.update(1, &[]), Err(BufferError::SizeMismatch));
    assert_eq!(b.get(0), Ok(vec![0, 0, 0]));
}

#[test]
fn empty_layout_has_no_fields() {
    let b = UniformBuffer::new(&vec![]).unwrap();
    assert_eq!(b.field_count(), 0);
    assert!(b.data().is_empty());
    assert_eq!(b.get(0), Err(BufferError::OutOfRange));
}
