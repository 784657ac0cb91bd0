use farming::codec::read_i128;
use farming::codec::read_i64;
use farming::codec::read_key;
use farming::codec::read_u128;
use farming::codec::read_u64;
use farming::codec::write_i128;
use farming::codec::write_i64;
use farming::codec::write_key;
use farming::codec::write_u128;
use farming::codec::write_u64;

#[test]
fn read_u64_is_little_endian() {
    let bytes = [0xff, 1, 2, 3, 4, 5, 6, 7, 8, 0xff];
    assert_eq!(read_u64(&bytes, 1), 0x0807_0605_0403_0201);
    assert_eq!(read_u64(&[0; 8], 0), 0);
    assert_eq!(read_u64(&[0xff; 8], 0), u64::MAX);
}

#[test]
fn read_u64_agrees_with_std() {
    for value in [0u64, 1, 255, 256, 10u64.pow(18), u64::MAX - 1, u64::MAX] {
        assert_eq!(read_u64(&value.to_le_bytes(), 0), value);
    }
}

#[test]
fn read_u128_agrees_with_std() {
    for value in [0u128, 1, 1 << 64, 10u128.pow(30), u128::MAX - 1, u128::MAX] {
        assert_eq!(read_u128(&value.to_le_bytes(), 0), value);
    }
    let mut bytes = vec![7u8; 3];
    bytes.extend_from_slice(&0x0102_0304_0506_0708_090a_0b0c_0d0e_0f10u128.to_le_bytes());
    assert_eq!(read_u128(&bytes, 3), 0x0102_0304_0506_0708_090a_0b0c_0d0e_0f10);
}

#[test]
fn read_i64_agrees_with_std() {
    for value in [0i64, 1, -1, -2, i64::MAX, i64::MIN, i64::MIN + 1, 1_600_000_000] {
        assert_eq!(read_i64(&value.to_le_bytes(), 0), value);
    }
    assert_eq!(read_i64(&[0xff; 8], 0), -1);
    assert_eq!(read_i64(&[0, 0, 0, 0, 0, 0, 0, 0x80], 0), i64::MIN);
}

#[test]
fn read_i128_agrees_with_std() {
    for value in [0i128, 1, -1, i128::MAX, i128::MIN, i128::MIN + 1, -5 * 10i128.pow(18)] {
        assert_eq!(read_i128(&value.to_le_bytes(), 0), value);
    }
    assert_eq!(read_i128(&[0xff; 16], 0), -1);
}

#[test]
fn write_u64_agrees_with_std() {
    for value in [0u64, 1, 255, 256, 10u64.pow(18), u64::MAX] {
        let mut bytes = [0xaau8; 12];
        write_u64(&mut bytes, 2, value);
        assert_eq!(bytes[..2], [0xaa; 2]);
        assert_eq!(bytes[2..10], value.to_le_bytes());
        assert_eq!(bytes[10..], [0xaa; 2]);
    }
}

#[test]
fn write_u128_agrees_with_std() {
    for value in [0u128, 1, 1 << 64, u128::MAX] {
        let mut bytes = [0xaau8; 18];
        write_u128(&mut bytes, 1, value);
        assert_eq!(bytes[0], 0xaa);
        assert_eq!(bytes[1..17], value.to_le_bytes());
        assert_eq!(bytes[17], 0xaa);
    }
}

#[test]
fn write_i64_agrees_with_std() {
    for value in [0i64, 1, -1, i64::MAX, i64::MIN, -1_600_000_000] {
        let mut bytes = [0x55u8; 8];
        write_i64(&mut bytes, 0, value);
        assert_eq!(bytes, value.to_le_bytes());
    }
}

#[test]
fn write_i128_agrees_with_std() {
    for value in [0i128, 1, -1, i128::MAX, i128::MIN, -5 * 10i128.pow(18)] {
        let mut bytes = [0x55u8; 16];
        write_i128(&mut bytes, 0, value);
        assert_eq!(bytes, value.to_le_bytes());
    }
}

#[test]
fn keys_are_copied_as_they_are() {
    let mut key = [0u8; 32];
    for (i, byte) in key.iter_mut().enumerate() {
        *byte = i as u8 + 1;
    }
    let mut bytes = [0xeeu8; 40];
    write_key(&mut bytes, 5, &key);
    assert_eq!(bytes[..5], [0xee; 5]);
    assert_eq!(bytes[5..37], key);
    assert_eq!(bytes[37..], [0xee; 3]);
    assert_eq!(read_key(&bytes, 5), key);
    assert_eq!(read_key(&bytes, 8)[0], 4);
}
