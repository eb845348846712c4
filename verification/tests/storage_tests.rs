use prop_amm_engine::storage::{empty_storage, read_u64, write_u64, STORAGE_SIZE, STORAGE_SLOTS};

#[test]
fn empty_storage_is_all_zero() {
    let s = empty_storage();
    assert_eq!(s.len(), STORAGE_SIZE);
    assert!(s.iter().all(|&b| b == 0));
    for slot in 0..STORAGE_SLOTS {
        assert_eq!(read_u64(&s, slot), 0);
    }
}

#[test]
fn write_then_read_returns_the_value() {
    let mut s = empty_storage();
    write_u64(&mut s, 0, 0x0123_4567_89AB_CDEF);
    write_u64(&mut s, 127, u64::MAX);
    write_u64(&mut s, 5, 1);
    assert_eq!(read_u64(&s, 0), 0x0123_4567_89AB_CDEF);
    assert_eq!(read_u64(&s, 127), u64::MAX);
    assert_eq!(read_u64(&s, 5), 1);
    assert_eq!(read_u64(&s, 1), 0);
    assert_eq!(read_u64(&s, 126), 0);
}

#[test]
fn slots_are_little_endian_at_eight_byte_offsets() {
    let mut s = empty_storage();
    write_u64(&mut s, 3, 0x0123_4567_89AB_CDEF);
    assert_eq!(&s[24..32], &[0xEF, 0xCD, 0xAB, 0x89, 0x67, 0x45, 0x23, 0x01]);
    assert_eq!(&s[24..32], &0x0123_4567_89AB_CDEFu64.to_le_bytes());
    assert!(s[..24].iter().all(|&b| b == 0));
    assert!(s[32..].iter().all(|&b| b == 0));
}

#[test]
fn write_leaves_other_bytes_alone() {
    let mut s = empty_storage();
    for (i, b) in s.iter_mut().enumerate() {
        *b = (i % 251) as u8;
    }
    let before = s;
    write_u64(&mut s, 64, 42);
    for i in 0..STORAGE_SIZE {
        if (512..520).contains(&i) {
            continue;
        }
        assert_eq!(s[i], before[i]);
    }
    assert_eq!(read_u64(&s, 64), 42);
    assert_eq!(read_u64(&s, 63), u64::from_le_bytes(before[504..512].try_into().unwrap()));
}

#[test]
fn read_matches_std_decoding() {
    let mut s = empty_storage();
    for (i, b) in s.iter_mut().enumerate() {
        *b = (i * 7 % 256) as u8;
    }
    for slot in 0..STORAGE_SLOTS {
        let expect = u64::from_le_bytes(s[slot * 8..slot * 8 + 8].try_into().unwrap());
        assert_eq!(read_u64(&s, slot), expect);
    }
}
