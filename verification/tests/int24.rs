use motorctl::int24::Int24;
use std::cmp::Ordering;

#[test]
fn test_conv_i16() {
    let a = 0x1234;
    let b = Int24::from_i16(a).to_i16();
    assert_eq!(a, b);

    let a = -0x1234;
    let b = Int24::from_i16(a).to_i16();
    assert_eq!(a, b);

    let a = 0x123456;
    let b = Int24::from_i32(a).to_i16();
    assert_eq!(b as u16, 0x7FFF);

    let a = -0x123456;
    let b = Int24::from_i32(a).to_i16();
    assert_eq!(b, -0x8000);
    assert_eq!(b as u16, 0x8000);

    let mut a = 0x0000_8000_u32;
    loop {
        let b = Int24::from_i32(a as i32).to_i16();
        assert_eq!(b as u16, 0x7FFF);
        if a == 0x4000_0000_u32 {
            break;
        }
        a <<= 1;
    }

    let mut a = 0xFFFF_8000_u32;
    loop {
        let b = Int24::from_i32(a as i32).to_i16();
        assert_eq!(b as u16, 0x8000);
        if a == 0x8000_0000_u32 {
            break;
        }
        a <<= 1;
    }
}

#[test]
fn test_conv_i32() {
    let a = 0x123456;
    let b = Int24::from_i32(a).to_i32();
    assert_eq!(a, b);

    let a = -0x123456;
    let b = Int24::from_i32(a).to_i32();
    assert_eq!(a, b);

    let a = 0x12345678;
    let b = Int24::from_i32(a).to_i32();
    assert_eq!(b as u32, 0x007F_FFFF);

    let a = -0x12345678;
    let b = Int24::from_i32(a).to_i32();
    assert_eq!(b, -0x800000);
    assert_eq!(b as u32, 0xFF80_0000);

    let mut a = 0x0080_0000_u32;
    loop {
        let b = Int24::from_i32(a as i32).to_i32();
        assert_eq!(b as u32, 0x007F_FFFF);
        if a == 0x4000_0000_u32 {
            break;
        }
        a <<= 1;
    }

    let mut a = 0xFF80_0000_u32;
    loop {
        let b = Int24::from_i32(a as i32).to_i32();
        assert_eq!(b as u32, 0xFF80_0000);
        if a == 0x8000_0000_u32 {
            break;
        }
        a <<= 1;
    }
}

#[test]
fn test_add() {
    let a = Int24::from_i32(1000);
    let b = Int24::from_i32(1010);
    let c = Int24::from_i32(2010);
    assert_eq!(a + b, c);
    assert_eq!(a.const_add(b), c);

    let a = Int24::from_i32(1000);
    let b = Int24::from_i32(-1010);
    let c = Int24::from_i32(-10);
    assert_eq!(a + b, c);
    assert_eq!(a.const_add(b), c);

    let a = Int24::from_i32(-1000);
    let b = Int24::from_i32(1010);
    let c = Int24::from_i32(10);
    assert_eq!(a + b, c);
    assert_eq!(a.const_add(b), c);

    let a = Int24::from_i32(0x7F_FFFF - 1);
    let b = Int24::from_i32(2);
    let c = Int24::from_i32(0x7F_FFFF);
    assert_eq!(a + b, c);
    assert_eq!(a.const_add(b), c);

    let a = Int24::from_i32(-0x80_0000 + 1);
    let b = Int24::from_i32(-2);
    let c = Int24::from_i32(-0x80_0000);
    assert_eq!(a + b, c);
    assert_eq!(a.const_add(b), c);
}

#[test]
fn test_sub() {
    let a = Int24::from_i32(1000);
    let b = Int24::from_i32(1010);
    let c = Int24::from_i32(-10);
    assert_eq!(a - b, c);
    assert_eq!(a.const_sub(b), c);

    let a = Int24::from_i32(1000);
    let b = Int24::from_i32(-1010);
    let c = Int24::from_i32(2010);
    assert_eq!(a - b, c);
    assert_eq!(a.const_sub(b), c);

    let a = Int24::from_i32(-1000);
    let b = Int24::from_i32(1010);
    let c = Int24::from_i32(-2010);
    assert_eq!(a - b, c);
    assert_eq!(a.const_sub(b), c);

    let a = Int24::from_i32(-0x80_0000 + 1);
    let b = Int24::from_i32(2);
    let c = Int24::from_i32(-0x80_0000);
    assert_eq!(a - b, c);
    assert_eq!(a.const_sub(b), c);

    let a = Int24::from_i32(0x7F_FFFF - 1);
    let b = Int24::from_i32(-2);
    let c = Int24::from_i32(0x7F_FFFF);
    assert_eq!(a - b, c);
    assert_eq!(a.const_sub(b), c);
}

#[test]
fn test_mul() {
    let a = Int24::from_i32(1000);
    let b = Int24::from_i32(1010);
    let c = Int24::from_i32(1010000);
    assert_eq!(a * b, c);
    assert_eq!(a.const_mul(b), c);

    let a = Int24::from_i32(1000);
    let b = Int24::from_i32(-1010);
    let c = Int24::from_i32(-1010000);
    assert_eq!(a * b, c);
    assert_eq!(a.const_mul(b), c);

    let a = Int24::from_i32(-1000);
    let b = Int24::from_i32(1010);
    let c = Int24::from_i32(-1010000);
    assert_eq!(a * b, c);
    assert_eq!(a.const_mul(b), c);
}

#[test]
fn test_div() {
    let a = Int24::from_i32(100000);
    let b = Int24::from_i32(1010);
    let c = Int24::from_i32(99);
    assert_eq!(a / b, c);
    assert_eq!(a.const_div(b), c);

    let a = Int24::from_i32(100000);
    let b = Int24::from_i32(-1010);
    let c = Int24::from_i32(-99);
    assert_eq!(a / b, c);
    assert_eq!(a.const_div(b), c);

    let a = Int24::from_i32(-100000);
    let b = Int24::from_i32(1010);
    let c = Int24::from_i32(-99);
    assert_eq!(a / b, c);
    assert_eq!(a.const_div(b), c);

    let a = Int24::from_i32(-0x80_0000);
    let b = Int24::from_i32(-1);
    let c = Int24::from_i32(0x7F_FFFF); // sat
    assert_eq!(a / b, c);
    assert_eq!(a.const_div(b), c);
}

#[test]
fn test_neg() {
    let a = Int24::from_i32(100000);
    let b = Int24::from_i32(-100000);
    assert_eq!(-a, b);
    assert_eq!(a.const_neg(), b);

    let a = Int24::from_i32(-100000);
    let b = Int24::from_i32(100000);
    assert_eq!(-a, b);
    assert_eq!(a.const_neg(), b);

    let a = Int24::from_i32(0x7F_FFFF);
    let b = Int24::from_i32(-0x7F_FFFF);
    assert_eq!(-a, b);
    assert_eq!(a.const_neg(), b);

    let a = Int24::from_i32(-0x7F_FFFF);
    let b = Int24::from_i32(0x7F_FFFF);
    assert_eq!(-a, b);
    assert_eq!(a.const_neg(), b);

    let a = Int24::from_i32(-0x80_0000);
    let b = Int24::from_i32(0x7F_FFFF); // saturated
    assert_eq!(-a, b);
    assert_eq!(a.const_neg(), b);
}

#[test]
fn test_abs() {
    let a = Int24::from_i32(100000);
    let b = Int24::from_i32(100000);
    assert_eq!(a.abs(), b);
    assert_eq!(a.const_abs(), b);

    let a = Int24::from_i32(-100000);
    let b = Int24::from_i32(100000);
    assert_eq!(a.abs(), b);
    assert_eq!(a.const_abs(), b);

    let a = Int24::from_i32(0x7F_FFFF);
    let b = Int24::from_i32(0x7F_FFFF);
    assert_eq!(a.abs(), b);
    assert_eq!(a.const_abs(), b);

    let a = Int24::from_i32(-0x7F_FFFF);
    let b = Int24::from_i32(0x7F_FFFF);
    assert_eq!(a.abs(), b);
    assert_eq!(a.const_abs(), b);

    let a = Int24::from_i32(-0x80_0000);
    let b = Int24::from_i32(0x7F_FFFF); // saturated
    assert_eq!(a.abs(), b);
    assert_eq!(a.const_abs(), b);
}

#[test]
fn test_shl() {
    let a = Int24::from_i32(100000);
    let b = Int24::from_i32(400000);
    assert_eq!(a << 2, b);
    assert_eq!(a.const_shl(2), b);

    let a = Int24::from_i32(1000);
    let b = Int24::from_i32(256000);
    assert_eq!(a.shl8(), b);
}

#[test]
fn test_shr() {
    let a = Int24::from_i32(400000);
    let b = Int24::from_i32(100000);
    assert_eq!(a >> 2, b);
    assert_eq!(a.const_shr(2), b);

    let a = Int24::from_i32(256000);
    let b = Int24::from_i32(1000);
    assert_eq!(a.shr8(), b);
}

#[test]
fn test_cmp() {
    let a = Int24::from_i32(100000);
    let b = Int24::from_i32(100000);
    assert_eq!(a, b);
    assert_eq!(a.const_cmp(b), Ordering::Equal);

    let a = Int24::from_i32(100000);
    let b = Int24::from_i32(100001);
    assert_ne!(a, b);
    assert_eq!(a.const_cmp(b), Ordering::Less);

    let a = Int24::from_i32(100000);
    let b = Int24::from_i32(100000);
    assert!(a <= b);
    assert_eq!(a.const_cmp(b), Ordering::Equal);

    let a = Int24::from_i32(100000);
    let b = Int24::from_i32(100001);
    assert!(a < b);
    assert_eq!(a.const_cmp(b), Ordering::Less);

    let a = Int24::from_i32(100000);
    let b = Int24::from_i32(100000);
    assert!(a >= b);
    assert_eq!(a.const_cmp(b), Ordering::Equal);

    let a = Int24::from_i32(100001);
    let b = Int24::from_i32(100000);
    assert!(a > b);
    assert_eq!(a.const_cmp(b), Ordering::Greater);
}
