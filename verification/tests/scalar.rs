use metrics::ScalarConvertible;

fn to_u8<S: ScalarConvertible<u8>>(v: S) -> u8 {
    v._as()
}

fn to_i8<S: ScalarConvertible<i8>>(v: S) -> i8 {
    v._as()
}

fn to_u16<S: ScalarConvertible<u16>>(v: S) -> u16 {
    v._as()
}

fn to_i16<S: ScalarConvertible<i16>>(v: S) -> i16 {
    v._as()
}

fn to_u32<S: ScalarConvertible<u32>>(v: S) -> u32 {
    v._as()
}

fn to_i32<S: ScalarConvertible<i32>>(v: S) -> i32 {
    v._as()
}

fn to_u64<S: ScalarConvertible<u64>>(v: S) -> u64 {
    v._as()
}

fn to_i64<S: ScalarConvertible<i64>>(v: S) -> i64 {
    v._as()
}

fn to_usize<S: ScalarConvertible<usize>>(v: S) -> usize {
    v._as()
}

fn to_isize<S: ScalarConvertible<isize>>(v: S) -> isize {
    v._as()
}

#[test]
fn zero_converts_to_zero() {
    assert_eq!(to_u8(0i64), 0);
    assert_eq!(to_i8(0u64), 0);
    assert_eq!(to_u16(0i8), 0);
    assert_eq!(to_i16(0usize), 0);
    assert_eq!(to_u32(0i32), 0);
    assert_eq!(to_i32(0u32), 0);
    assert_eq!(to_u64(0isize), 0);
    assert_eq!(to_i64(0u8), 0);
    assert_eq!(to_usize(0i16), 0);
    assert_eq!(to_isize(0u16), 0);
}

#[test]
fn same_kind_is_unchanged() {
    assert_eq!(to_u8(u8::MAX), u8::MAX);
    assert_eq!(to_i8(i8::MIN), i8::MIN);
    assert_eq!(to_u16(u16::MAX), u16::MAX);
    assert_eq!(to_i16(i16::MIN), i16::MIN);
    assert_eq!(to_u32(u32::MAX), u32::MAX);
    assert_eq!(to_i32(i32::MIN), i32::MIN);
    assert_eq!(to_u64(u64::MAX), u64::MAX);
    assert_eq!(to_i64(i64::MIN), i64::MIN);
    assert_eq!(to_usize(usize::MAX), usize::MAX);
    assert_eq!(to_isize(isize::MIN), isize::MIN);
}

#[test]
fn widening_keeps_the_value() {
    assert_eq!(to_u16(255u8), 255);
    assert_eq!(to_i16(-128i8), -128);
    assert_eq!(to_i32(65535u16), 65535);
    assert_eq!(to_i64(i32::MIN), -2147483648);
    assert_eq!(to_u64(u32::MAX), 4294967295);
    assert_eq!(to_i64(u32::MAX), 4294967295);
    assert_eq!(to_i32(i16::MIN), -32768);
    assert_eq!(to_usize(u16::MAX), 65535);
    assert_eq!(to_isize(i16::MIN), -32768);
}

#[test]
fn narrowing_keeps_the_low_bits() {
    assert_eq!(to_u8(300i32), 44);
    assert_eq!(to_u8(256u16), 0);
    assert_eq!(to_u8(0x1234_5678u32), 0x78);
    assert_eq!(to_u16(0x1234_5678u32), 0x5678);
    assert_eq!(to_u32(0x1_0000_0001u64), 1);
    assert_eq!(to_u32(u64::MAX), u32::MAX);
    assert_eq!(to_i8(200i32), -56);
    assert_eq!(to_i8(128u8), -128);
    assert_eq!(to_i16(40000i32), -25536);
    assert_eq!(to_i32(i64::MIN), 0);
    assert_eq!(to_i32(i64::MAX), -1);
    assert_eq!(to_i32(3_000_000_000i64), -1294967296);
    assert_eq!(to_i8(i16::MIN), 0);
    assert_eq!(to_i16(i32::MAX), -1);
}

#[test]
fn sign_changes_reread_the_bits() {
    assert_eq!(to_u8(-1i8), 255);
    assert_eq!(to_u16(-1i16), 65535);
    assert_eq!(to_u32(-1i32), 4294967295);
    assert_eq!(to_u64(-1i64), 18446744073709551615);
    assert_eq!(to_u32(i32::MIN), 2147483648);
    assert_eq!(to_i32(u32::MAX), -1);
    assert_eq!(to_i32(2147483648u32), i32::MIN);
    assert_eq!(to_i64(u64::MAX), -1);
    assert_eq!(to_i8(255u8), -1);
    assert_eq!(to_u64(-1i8), u64::MAX);
    assert_eq!(to_u32(-2i8), 4294967294);
    assert_eq!(to_usize(-1i32), usize::MAX);
    assert_eq!(to_isize(usize::MAX), -1);
}

#[test]
fn conversion_agrees_with_the_native_cast() {
    let samples: [i64; 13] = [
        i64::MIN,
        -4294967297,
        -2147483649,
        -65537,
        -129,
        -1,
        0,
        1,
        127,
        255,
        65536,
        4294967296,
        i64::MAX,
    ];
    for v in samples {
        assert_eq!(to_u8(v), v as u8);
        assert_eq!(to_i8(v), v as i8);
        assert_eq!(to_u16(v), v as u16);
        assert_eq!(to_i16(v), v as i16);
        assert_eq!(to_u32(v), v as u32);
        assert_eq!(to_i32(v), v as i32);
        assert_eq!(to_u64(v), v as u64);
        assert_eq!(to_i64(v), v);
        assert_eq!(to_usize(v), v as usize);
        assert_eq!(to_isize(v), v as isize);
        let w = v as u64;
        assert_eq!(to_u8(w), w as u8);
        assert_eq!(to_i8(w), w as i8);
        assert_eq!(to_u16(w), w as u16);
        assert_eq!(to_i16(w), w as i16);
        assert_eq!(to_u32(w), w as u32);
        assert_eq!(to_i32(w), w as i32);
        assert_eq!(to_i64(w), w as i64);
        let n = v as i32;
        assert_eq!(to_u8(n), n as u8);
        assert_eq!(to_i8(n), n as i8);
        assert_eq!(to_u16(n), n as u16);
        assert_eq!(to_i16(n), n as i16);
        assert_eq!(to_u32(n), n as u32);
        assert_eq!(to_u64(n), n as u64);
        assert_eq!(to_i64(n), n as i64);
        let s = v as i16;
        assert_eq!(to_u8(s), s as u8);
        assert_eq!(to_i8(s), s as i8);
        assert_eq!(to_u16(s), s as u16);
        assert_eq!(to_u32(s), s as u32);
        assert_eq!(to_i32(s), s as i32);
        let b = v as u8;
        assert_eq!(to_i8(b), b as i8);
        assert_eq!(to_i16(b), b as i16);
        assert_eq!(to_u64(b), b as u64);
        let z = v as usize;
        assert_eq!(to_u8(z), z as u8);
        assert_eq!(to_i32(z), z as i32);
        assert_eq!(to_isize(z), z as isize);
    }
}
