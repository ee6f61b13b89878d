use jt1078_video_server::helper::{get_bit_at, get_num_at};

#[test]
fn test_get_bit_at() {
    assert_eq!(get_bit_at(0b0000_0001, 0).unwrap(), 1);
    assert_eq!(get_bit_at(0b0000_0010, 1).unwrap(), 1);
    assert_eq!(get_bit_at(0b0000_0100, 2).unwrap(), 1);
    assert_eq!(get_bit_at(0b0000_1000, 3).unwrap(), 1);
    assert_eq!(get_bit_at(0b0001_0000, 4).unwrap(), 1);
    assert_eq!(get_bit_at(0b0010_0000, 5).unwrap(), 1);
    assert_eq!(get_bit_at(0b0100_0000, 6).unwrap(), 1);
    assert_eq!(get_bit_at(0b1000_0000, 7).unwrap(), 1);
    assert_eq!(
        get_bit_at(0b0000_0000, 100),
        Err("Index out of bounds".to_string())
    );
}

#[test]
fn test_get_num_at() {
    assert_eq!(get_num_at(0b0101_0001, 6, 2).unwrap(), 2);
    assert_eq!(get_num_at(0b0101_0001, 6, 3).unwrap(), 5);
    assert_eq!(
        get_num_at(0b0101_0001, 100, 3),
        Err("Offset out of bounds".to_string())
    );
    assert_eq!(
        get_num_at(0b0101_0001, 6, 100),
        Err("Invalid length".to_string())
    );
    assert_eq!(
        get_num_at(0b0101_0001, 1, 3),
        Err("Invalid length".to_string())
    );
}

#[test]
fn bit_is_zero_where_not_set() {
    for i in 0..8usize {
        for j in 0..8usize {
            let byte = 1u8 << j;
            let expected = if i == j { 1 } else { 0 };
            assert_eq!(get_bit_at(byte, i), Ok(expected));
        }
    }
    assert_eq!(get_bit_at(0xff, 8), Err("Index out of bounds".to_string()));
}

#[test]
fn field_is_shift_then_mask_for_every_fitting_pair() {
    for byte in 0..=255u8 {
        for index in 0..8usize {
            for length in 1..=index + 1 {
                let shift = index + 1 - length;
                let expected = ((byte as u32 >> shift) & ((1u32 << length) - 1)) as u8;
                let got = get_num_at(byte, index, length).unwrap();
                assert_eq!(got, expected);
                assert!((got as u32) < (1u32 << length));
            }
        }
    }
}

#[test]
fn field_edges() {
    assert_eq!(get_num_at(0xa5, 7, 8), Ok(0xa5));
    assert_eq!(get_num_at(0xa5, 0, 1), Ok(1));
    assert_eq!(get_num_at(0xa5, 7, 1), Ok(1));
    assert_eq!(get_num_at(0xa5, 3, 4), Ok(5));
    assert_eq!(get_num_at(0xa5, 7, 4), Ok(10));
    assert_eq!(get_num_at(0xa5, 7, 0), Err("Invalid length".to_string()));
    assert_eq!(get_num_at(0xa5, 7, 9), Err("Invalid length".to_string()));
    assert_eq!(get_num_at(0xa5, 8, 1), Err("Offset out of bounds".to_string()));
    assert_eq!(get_num_at(0xa5, 8, 0), Err("Offset out of bounds".to_string()));
}
