use havoc_mutator::mutation::{value_of, width_of, ARITH_MAX, INTERESTING_ENTRIES, MAX_LEN};
use havoc_mutator::Mutation;

#[test]
fn bit_flip_inverts_one_bit() {
    let mut buf = vec![0u8, 0xFF, 0x10];
    assert!(Mutation::BitFlip { index: 0, bit: 0 }.apply(&mut buf));
    assert_eq!(buf, vec![0x01, 0xFF, 0x10]);
    assert!(Mutation::BitFlip { index: 1, bit: 7 }.apply(&mut buf));
    assert_eq!(buf, vec![0x01, 0x7F, 0x10]);
    assert!(Mutation::BitFlip { index: 2, bit: 4 }.apply(&mut buf));
    assert_eq!(buf, vec![0x01, 0x7F, 0x00]);
}

#[test]
fn bit_flip_twice_restores_the_byte() {
    let mut buf = vec![0xA5u8];
    let flip = Mutation::BitFlip { index: 0, bit: 3 };
    assert!(flip.apply(&mut buf));
    assert_eq!(buf, vec![0xAD]);
    assert!(flip.apply(&mut buf));
    assert_eq!(buf, vec![0xA5]);
}

#[test]
fn bit_flip_out_of_range_is_refused() {
    let mut buf = vec![1u8, 2, 3];
    assert!(!Mutation::BitFlip { index: 3, bit: 0 }.apply(&mut buf));
    assert!(!Mutation::BitFlip { index: 0, bit: 8 }.apply(&mut buf));
    assert!(!Mutation::BitFlip { index: usize::MAX, bit: 0 }.apply(&mut buf));
    assert_eq!(buf, vec![1, 2, 3]);
}

#[test]
fn byte_flip_xors_with_the_mask() {
    let mut buf = vec![0x0Fu8, 0xF0];
    assert!(Mutation::ByteFlip { index: 0, mask: 0xFF }.apply(&mut buf));
    assert_eq!(buf, vec![0xF0, 0xF0]);
    assert!(Mutation::ByteFlip { index: 1, mask: 0x81 }.apply(&mut buf));
    assert_eq!(buf, vec![0xF0, 0x71]);
}

#[test]
fn byte_flip_with_zero_mask_is_refused() {
    let mut buf = vec![7u8];
    assert!(!Mutation::ByteFlip { index: 0, mask: 0 }.apply(&mut buf));
    assert!(!Mutation::ByteFlip { index: 1, mask: 1 }.apply(&mut buf));
    assert_eq!(buf, vec![7]);
}

#[test]
fn arithmetic_adds_and_subtracts_with_wraparound() {
    let mut buf = vec![250u8, 3, 100];
    assert!(Mutation::Arithmetic { index: 0, delta: 10, subtract: false }.apply(&mut buf));
    assert_eq!(buf, vec![4, 3, 100]);
    assert!(Mutation::Arithmetic { index: 1, delta: 5, subtract: true }.apply(&mut buf));
    assert_eq!(buf, vec![4, 254, 100]);
    assert!(Mutation::Arithmetic { index: 2, delta: 35, subtract: false }.apply(&mut buf));
    assert_eq!(buf, vec![4, 254, 135]);
    assert!(Mutation::Arithmetic { index: 2, delta: 1, subtract: true }.apply(&mut buf));
    assert_eq!(buf, vec![4, 254, 134]);
}

#[test]
fn arithmetic_delta_out_of_range_is_refused() {
    assert_eq!(ARITH_MAX, 35);
    let mut buf = vec![9u8];
    assert!(!Mutation::Arithmetic { index: 0, delta: 0, subtract: false }.apply(&mut buf));
    assert!(!Mutation::Arithmetic { index: 0, delta: 36, subtract: true }.apply(&mut buf));
    assert!(!Mutation::Arithmetic { index: 1, delta: 1, subtract: true }.apply(&mut buf));
    assert_eq!(buf, vec![9]);
}

#[test]
fn interesting_table_widths() {
    assert_eq!(INTERESTING_ENTRIES, 15);
    for entry in 0..5u8 {
        assert_eq!(width_of(entry), 1);
    }
    for entry in 5..10u8 {
        assert_eq!(width_of(entry), 2);
    }
    for entry in 10..15u8 {
        assert_eq!(width_of(entry), 4);
    }
}

#[test]
fn interesting_table_values() {
    let expected: [u32; 15] = [
        0x00, 0x01, 0xFF, 0x7F, 0x80,
        0x0000, 0x0001, 0xFFFF, 0x7FFF, 0x8000,
        0x0000_0000, 0x0000_0001, 0xFFFF_FFFF, 0x7FFF_FFFF, 0x8000_0000,
    ];
    for entry in 0..15u8 {
        assert_eq!(value_of(entry), expected[entry as usize]);
    }
}

#[test]
fn interesting_one_byte_values() {
    let expected = [0x00u8, 0x01, 0xFF, 0x7F, 0x80];
    for entry in 0..5u8 {
        for big_endian in [false, true] {
            let mut buf = vec![0x55u8, 0x55, 0x55];
            assert!(Mutation::Interesting { index: 1, entry, big_endian }.apply(&mut buf));
            assert_eq!(buf, vec![0x55, expected[entry as usize], 0x55]);
        }
    }
}

#[test]
fn interesting_two_byte_values_in_both_orders() {
    let little: [[u8; 2]; 5] = [[0, 0], [1, 0], [0xFF, 0xFF], [0xFF, 0x7F], [0x00, 0x80]];
    for k in 0..5usize {
        let entry = 5 + k as u8;
        let mut buf = vec![0x55u8; 4];
        assert!(Mutation::Interesting { index: 1, entry, big_endian: false }.apply(&mut buf));
        assert_eq!(buf, vec![0x55, little[k][0], little[k][1], 0x55]);
        let mut buf = vec![0x55u8; 4];
        assert!(Mutation::Interesting { index: 2, entry, big_endian: true }.apply(&mut buf));
        assert_eq!(buf, vec![0x55, 0x55, little[k][1], little[k][0]]);
    }
}

#[test]
fn interesting_four_byte_values_in_both_orders() {
    let little: [[u8; 4]; 5] = [
        [0, 0, 0, 0],
        [1, 0, 0, 0],
        [0xFF, 0xFF, 0xFF, 0xFF],
        [0xFF, 0xFF, 0xFF, 0x7F],
        [0, 0, 0, 0x80],
    ];
    for k in 0..5usize {
        let entry = 10 + k as u8;
        let mut buf = vec![0x55u8; 6];
        assert!(Mutation::Interesting { index: 1, entry, big_endian: false }.apply(&mut buf));
        assert_eq!(
            buf,
            vec![0x55, little[k][0], little[k][1], little[k][2], little[k][3], 0x55]
        );
        let mut buf = vec![0x55u8; 6];
        assert!(Mutation::Interesting { index: 0, entry, big_endian: true }.apply(&mut buf));
        assert_eq!(
            buf,
            vec![little[k][3], little[k][2], little[k][1], little[k][0], 0x55, 0x55]
        );
    }
}

#[test]
fn interesting_window_must_fit() {
    let mut buf = vec![1u8, 2, 3, 4];
    assert!(!Mutation::Interesting { index: 1, entry: 10, big_endian: false }.apply(&mut buf));
    assert!(!Mutation::Interesting { index: 3, entry: 5, big_endian: false }.apply(&mut buf));
    assert!(!Mutation::Interesting { index: 4, entry: 0, big_endian: false }.apply(&mut buf));
    assert!(!Mutation::Interesting { index: 0, entry: 15, big_endian: false }.apply(&mut buf));
    assert!(!Mutation::Interesting { index: usize::MAX, entry: 12, big_endian: true }
        .apply(&mut buf));
    assert_eq!(buf, vec![1, 2, 3, 4]);
    assert!(Mutation::Interesting { index: 0, entry: 12, big_endian: false }.apply(&mut buf));
    assert_eq!(buf, vec![0xFF, 0xFF, 0xFF, 0xFF]);
}

#[test]
fn duplicate_inserts_a_copy_of_the_block() {
    let mut buf = vec![1u8, 2, 3, 4, 5];
    assert!(Mutation::Duplicate { start: 1, count: 2, at: 4 }.apply(&mut buf));
    assert_eq!(buf, vec![1, 2, 3, 4, 2, 3, 5]);
    let mut buf = vec![1u8, 2, 3, 4, 5];
    assert!(Mutation::Duplicate { start: 3, count: 2, at: 0 }.apply(&mut buf));
    assert_eq!(buf, vec![4, 5, 1, 2, 3, 4, 5]);
    let mut buf = vec![1u8, 2, 3, 4, 5];
    assert!(Mutation::Duplicate { start: 0, count: 5, at: 5 }.apply(&mut buf));
    assert_eq!(buf, vec![1, 2, 3, 4, 5, 1, 2, 3, 4, 5]);
    let mut buf = vec![1u8, 2, 3, 4, 5];
    assert!(Mutation::Duplicate { start: 1, count: 3, at: 2 }.apply(&mut buf));
    assert_eq!(buf, vec![1, 2, 2, 3, 4, 3, 4, 5]);
}

#[test]
fn duplicate_out_of_bounds_is_refused() {
    let mut buf = vec![1u8, 2, 3];
    assert!(!Mutation::Duplicate { start: 0, count: 0, at: 0 }.apply(&mut buf));
    assert!(!Mutation::Duplicate { start: 2, count: 2, at: 0 }.apply(&mut buf));
    assert!(!Mutation::Duplicate { start: 0, count: 1, at: 4 }.apply(&mut buf));
    assert!(!Mutation::Duplicate { start: usize::MAX, count: 1, at: 0 }.apply(&mut buf));
    assert!(!Mutation::Duplicate { start: 0, count: usize::MAX, at: 0 }.apply(&mut buf));
    assert_eq!(buf, vec![1, 2, 3]);
}

#[test]
fn duplicate_respects_the_length_limit() {
    assert_eq!(MAX_LEN, 16 * 1024 * 1024);
    let mut buf = vec![7u8; MAX_LEN - 1];
    assert!(!Mutation::Duplicate { start: 0, count: 2, at: 0 }.fits(buf.len()));
    assert!(!Mutation::Duplicate { start: 0, count: 2, at: 0 }.apply(&mut buf));
    assert_eq!(buf.len(), MAX_LEN - 1);
    assert!(Mutation::Duplicate { start: 0, count: 1, at: 5 }.apply(&mut buf));
    assert_eq!(buf.len(), MAX_LEN);
    assert!(!Mutation::Duplicate { start: 0, count: 1, at: 5 }.apply(&mut buf));
    assert_eq!(buf.len(), MAX_LEN);
    assert!(!Mutation::Duplicate { start: 0, count: 1, at: 0 }.fits(MAX_LEN + 1));
}

#[test]
fn delete_removes_the_block() {
    let mut buf = vec![1u8, 2, 3, 4, 5];
    assert!(Mutation::Delete { start: 1, count: 2 }.apply(&mut buf));
    assert_eq!(buf, vec![1, 4, 5]);
    assert!(Mutation::Delete { start: 2, count: 1 }.apply(&mut buf));
    assert_eq!(buf, vec![1, 4]);
    assert!(Mutation::Delete { start: 0, count: 1 }.apply(&mut buf));
    assert_eq!(buf, vec![4]);
    assert!(Mutation::Delete { start: 0, count: 1 }.apply(&mut buf));
    assert_eq!(buf, Vec::<u8>::new());
}

#[test]
fn delete_out_of_bounds_is_refused() {
    let mut buf = vec![1u8, 2, 3];
    assert!(!Mutation::Delete { start: 0, count: 0 }.apply(&mut buf));
    assert!(!Mutation::Delete { start: 0, count: 4 }.apply(&mut buf));
    assert!(!Mutation::Delete { start: 2, count: 2 }.apply(&mut buf));
    assert!(!Mutation::Delete { start: 3, count: 1 }.apply(&mut buf));
    assert!(!Mutation::Delete { start: usize::MAX, count: 1 }.apply(&mut buf));
    assert!(!Mutation::Delete { start: 1, count: usize::MAX }.apply(&mut buf));
    assert_eq!(buf, vec![1, 2, 3]);
}

#[test]
fn nothing_fits_an_empty_buffer() {
    let mut buf: Vec<u8> = Vec::new();
    let edits = [
        Mutation::BitFlip { index: 0, bit: 0 },
        Mutation::ByteFlip { index: 0, mask: 1 },
        Mutation::Arithmetic { index: 0, delta: 1, subtract: false },
        Mutation::Interesting { index: 0, entry: 0, big_endian: false },
        Mutation::Duplicate { start: 0, count: 1, at: 0 },
        Mutation::Delete { start: 0, count: 1 },
    ];
    for edit in edits {
        assert!(!edit.fits(0));
        assert!(!edit.apply(&mut buf));
        assert!(buf.is_empty());
    }
}

#[test]
fn fits_says_what_apply_does() {
    let edits = [
        Mutation::BitFlip { index: 2, bit: 7 },
        Mutation::ByteFlip { index: 3, mask: 1 },
        Mutation::Arithmetic { index: 1, delta: 35, subtract: true },
        Mutation::Interesting { index: 1, entry: 14, big_endian: true },
        Mutation::Duplicate { start: 2, count: 2, at: 4 },
        Mutation::Delete { start: 1, count: 3 },
    ];
    for len in 0..8usize {
        for edit in edits {
            let mut buf = vec![0xAAu8; len];
            assert_eq!(edit.fits(len), edit.apply(&mut buf));
        }
    }
}
