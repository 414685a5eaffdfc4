use pgx_array::nulls::{NullBitmap, NullKind};

#[test]
fn bitmap_reads_the_least_significant_bit_first() {
    let bytes = [0b0000_0101u8, 0b0000_0010];
    let bitmap = NullBitmap::new(&bytes, 10).unwrap();
    let read: Vec<Option<bool>> = (0..12).map(|i| bitmap.get(i)).collect();
    assert_eq!(
        read,
        vec![
            Some(true),
            Some(false),
            Some(true),
            Some(false),
            Some(false),
            Some(false),
            Some(false),
            Some(false),
            Some(false),
            Some(true),
            None,
            None,
        ]
    );
}

#[test]
fn bitmap_needs_enough_bytes() {
    let bytes = [0xffu8];
    assert!(NullBitmap::new(&bytes, 8).is_some());
    assert!(NullBitmap::new(&bytes, 9).is_none());
    assert!(NullBitmap::new(&[], 0).is_some());
    assert!(NullBitmap::new(&[], 1).is_none());
}

#[test]
fn bitmap_all_looks_at_its_own_bits_only() {
    let bytes = [0b0000_0111u8];
    assert!(NullBitmap::new(&bytes, 3).unwrap().all());
    assert!(!NullBitmap::new(&bytes, 4).unwrap().all());
    assert!(NullBitmap::new(&bytes, 0).unwrap().all());
    let long = [0xffu8, 0xff, 0x01];
    assert!(NullBitmap::new(&long, 17).unwrap().all());
    assert!(!NullBitmap::new(&long, 18).unwrap().all());
}

#[test]
fn bits_turn_into_null_flags() {
    let bytes = [0b0000_0110u8];
    let nulls = NullKind::Bits(NullBitmap::new(&bytes, 3).unwrap());
    assert_eq!(nulls.get(0), Some(true));
    assert_eq!(nulls.get(1), Some(false));
    assert_eq!(nulls.get(2), Some(false));
    assert_eq!(nulls.get(3), None);
    assert!(nulls.any());
    let none = NullKind::Bits(NullBitmap::new(&[0b0000_0111], 3).unwrap());
    assert!(!none.any());
}

#[test]
fn strict_nulls_answer_up_to_the_end_position() {
    let nulls = NullKind::Strict(2);
    assert_eq!(nulls.get(0), Some(false));
    assert_eq!(nulls.get(1), Some(false));
    assert_eq!(nulls.get(2), Some(false));
    assert_eq!(nulls.get(3), None);
    assert!(!nulls.any());
}

#[test]
fn slots_count_the_present_positions() {
    let bytes = [0b0001_0110u8];
    let nulls = NullKind::Bits(NullBitmap::new(&bytes, 5).unwrap());
    let slots: Vec<usize> = (0..8).map(|i| nulls.slot_of(i)).collect();
    assert_eq!(slots, vec![0, 0, 1, 2, 2, 3, 3, 3]);
    let strict = NullKind::Strict(3);
    let slots: Vec<usize> = (0..6).map(|i| strict.slot_of(i)).collect();
    assert_eq!(slots, vec![0, 1, 2, 3, 4, 4]);
}
