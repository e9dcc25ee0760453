use libicmp::packet::checksum::{compute_checksum, compute_checksum_u16};

#[test]
fn test_compute_checksum() {
    let data: [u16; 2] = [0x0000, 0xffff];
    let sum = 0x0000;
    let checksum = compute_checksum_u16(&data);
    assert_eq!(sum, checksum);
}

#[test]
fn test_compute_checksum_1() {
    let data: [u16; 10] = [
        0x4500, 0x0073, 0x0000, 0x4000, 0x4011,
        0xb861, 0xc0a8, 0x0001, 0xc0a8, 0x00c7,
    ];
    let sum = 0x0000;
    let checksum = compute_checksum_u16(&data);
    assert_eq!(sum, checksum);
}

#[test]
fn checksum_of_nothing_is_all_ones() {
    assert_eq!(compute_checksum_u16(&[]), 0xffff);
    assert_eq!(compute_checksum(&[]), 0xffff);
}

#[test]
fn checksum_folds_a_carry_back_in() {
    assert_eq!(compute_checksum_u16(&[0xffff, 0x0001]), 0xfffe);
    assert_eq!(compute_checksum_u16(&[0xffff, 0xffff]), 0x0000);
    assert_eq!(compute_checksum_u16(&[0x8000, 0x8000, 0x0003]), 0xfffb);
}

#[test]
fn checksum_survives_more_words_than_fit_a_plain_sum() {
    let data = vec![0xffffu16; 70_000];
    assert_eq!(compute_checksum_u16(&data), 0x0000);
    let mut data = vec![0xffffu16; 70_000];
    data.push(0x0001);
    assert_eq!(compute_checksum_u16(&data), 0xfffe);
}

#[test]
fn checksum_reads_bytes_as_big_endian_words() {
    assert_eq!(compute_checksum(&[0x12, 0x34]), 0xedcb);
    assert_eq!(compute_checksum(&[0x34, 0x12]), 0xcbed);
    assert_eq!(
        compute_checksum(&[0x08, 0x00, 0x00, 0x00, 0x12, 0x34, 0x00, 0x01]),
        0xe5ca
    );
}

#[test]
fn checksum_pads_an_odd_buffer_with_zero() {
    assert_eq!(compute_checksum(&[0x01]), 0xfeff);
    assert_eq!(compute_checksum(&[0x12, 0x34, 0x56]), 0x97cb);
    assert_eq!(
        compute_checksum(&[0x12, 0x34, 0x56]),
        compute_checksum(&[0x12, 0x34, 0x56, 0x00])
    );
}

#[test]
fn checksum_of_bytes_agrees_with_checksum_of_words() {
    let bytes: [u8; 20] = [
        0x45, 0x00, 0x00, 0x73, 0x00, 0x00, 0x40, 0x00, 0x40, 0x11,
        0xb8, 0x61, 0xc0, 0xa8, 0x00, 0x01, 0xc0, 0xa8, 0x00, 0xc7,
    ];
    assert_eq!(compute_checksum(&bytes), 0x0000);
    let mut zeroed = bytes;
    zeroed[10] = 0;
    zeroed[11] = 0;
    assert_eq!(compute_checksum(&zeroed), 0xb861);
}
