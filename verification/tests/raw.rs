use motorctl::int24::Int24;
use motorctl::kernel24::asm_divsat24;
use motorctl::kernel24::asm_ge24;
use motorctl::kernel24::asm_mulsat24;
use motorctl::kernel24::asm_negsat24;
use motorctl::kernel24::asm_shl24;
use motorctl::kernel24::asm_shr24;
use motorctl::raw::abs24;
use motorctl::raw::add24;
use motorctl::raw::div24;
use motorctl::raw::eq24;
use motorctl::raw::ge24;
use motorctl::raw::i16_to_i24raw;
use motorctl::raw::i24raw_from_i32_exact;
use motorctl::raw::i24raw_to_i16_sat;
use motorctl::raw::i24raw_to_i32;
use motorctl::raw::i32_to_i24raw_sat;
use motorctl::raw::is_neg24;
use motorctl::raw::mul24;
use motorctl::raw::neg24;
use motorctl::raw::raw_max;
use motorctl::raw::raw_min;
use motorctl::raw::raw_zero;
use motorctl::raw::shl24;
use motorctl::raw::shl24_by8;
use motorctl::raw::shr24;
use motorctl::raw::shr24_by8;
use motorctl::raw::sub24;
use motorctl::raw::Int24Raw;
use motorctl::wrap::wrap_to_i16;
use motorctl::wrap::wrap_to_i8;
use motorctl::wrap::wrap_to_u16;
use motorctl::wrap::wrap_to_u8;

const MAX: i32 = 0x7F_FFFF;
const MIN: i32 = -0x80_0000;

fn raw(v: i32) -> Int24Raw {
    i32_to_i24raw_sat(v)
}

fn val(r: Int24Raw) -> i32 {
    i24raw_to_i32(r)
}

/// The low 24 bits of `v` as a signed number.
fn low24(v: i64) -> i32 {
    let m = v.rem_euclid(1 << 24);
    (if m >= 1 << 23 { m - (1 << 24) } else { m }) as i32
}

fn samples() -> Vec<i32> {
    let mut out = vec![MIN, MIN + 1, -65537, -65536, -32769, -32768, -257, -256, -255, -129, -128, -2, -1, 0, 1, 2, 127, 128, 255, 256, 32767, 32768, 65535, 65536, MAX - 1, MAX];
    let mut v: i64 = MIN as i64;
    while v <= MAX as i64 {
        out.push(v as i32);
        v += 262_147;
    }
    out
}

#[test]
fn raw_representation() {
    assert_eq!(raw_zero(), (0x00, 0x00, 0x00));
    assert_eq!(raw_min(), (0x00, 0x00, 0x80));
    assert_eq!(raw_max(), (0xFF, 0xFF, 0x7F));
    assert_eq!(raw(0x123456), (0x56, 0x34, 0x12));
    assert_eq!(raw(-1), (0xFF, 0xFF, 0xFF));
    assert_eq!(raw(-2), (0xFE, 0xFF, 0xFF));
    assert_eq!(i24raw_from_i32_exact(-0x123456), (0xAA, 0xCB, 0xED));
    assert_eq!(i16_to_i24raw(-2), (0xFE, 0xFF, 0xFF));
    assert_eq!(i16_to_i24raw(0x1234), (0x34, 0x12, 0x00));
    for v in samples() {
        assert_eq!(val(raw(v)), v);
        assert_eq!(is_neg24(raw(v)), v < 0);
        assert_eq!(i24raw_to_i16_sat(raw(v)) as i32, v.clamp(-0x8000, 0x7FFF));
    }
    assert_eq!(val(raw(i32::MAX)), MAX);
    assert_eq!(val(raw(i32::MIN)), MIN);
    assert_eq!(val(raw(MAX + 1)), MAX);
    assert_eq!(val(raw(MIN - 1)), MIN);
}

#[test]
fn raw_arithmetic_matches_wide_arithmetic() {
    let s = samples();
    for &a in s.iter() {
        assert_eq!(val(neg24(raw(a))) as i64, (-(a as i64)).clamp(MIN as i64, MAX as i64));
        assert_eq!(val(asm_negsat24(raw(a))) as i64, (-(a as i64)).clamp(MIN as i64, MAX as i64));
        assert_eq!(val(abs24(raw(a))) as i64, (a as i64).abs().clamp(MIN as i64, MAX as i64));
        assert_eq!(val(shl24_by8(raw(a))), low24(a as i64 * 256));
        assert_eq!(val(shr24_by8(raw(a))), a >> 8);
        for &b in s.iter() {
            let (x, y) = (a as i64, b as i64);
            assert_eq!(val(add24(raw(a), raw(b))) as i64, (x + y).clamp(MIN as i64, MAX as i64));
            assert_eq!(val(sub24(raw(a), raw(b))) as i64, (x - y).clamp(MIN as i64, MAX as i64));
            assert_eq!(val(mul24(raw(a), raw(b))) as i64, (x * y).clamp(MIN as i64, MAX as i64));
            assert_eq!(val(asm_mulsat24(raw(a), raw(b))) as i64, (x * y).clamp(MIN as i64, MAX as i64));
            let quotient = if y == 0 {
                if x >= 0 {
                    MAX as i64
                } else {
                    MIN as i64
                }
            } else {
                (x / y).clamp(MIN as i64, MAX as i64)
            };
            assert_eq!(val(div24(raw(a), raw(b))) as i64, quotient, "{} / {}", a, b);
            assert_eq!(val(asm_divsat24(raw(a), raw(b))) as i64, quotient);
            assert_eq!(ge24(raw(a), raw(b)), a >= b);
            assert_eq!(asm_ge24(raw(a), raw(b)), a >= b);
            assert_eq!(eq24(raw(a), raw(b)), a == b);
        }
    }
}

#[test]
fn raw_shifts_match_wide_shifts() {
    for &a in samples().iter() {
        for count in 0..40u8 {
            let shifted = if count < 40 { (a as i64) << count } else { 0 };
            assert_eq!(val(shl24(raw(a), count)), low24(shifted), "{} << {}", a, count);
            assert_eq!(val(asm_shl24(raw(a), count)), low24(shifted));
            let down = (a as i64) >> count;
            assert_eq!(val(shr24(raw(a), count)) as i64, down, "{} >> {}", a, count);
            assert_eq!(val(asm_shr24(raw(a), count)) as i64, down);
            assert_eq!(Int24::from_i32(a).shl(count).to_i32(), low24(shifted));
            assert_eq!(Int24::from_i32(a).shr(count).to_i32() as i64, down);
            assert_eq!(Int24::from_i32(a).const_shr(count).to_i32() as i64, down);
            if count < 32 {
                // Shifted in 32 bits and then saturated.
                let wide = a.wrapping_shl(count as u32);
                assert_eq!(Int24::from_i32(a).const_shl(count).to_i32(), wide.clamp(MIN, MAX));
            }
        }
        assert_eq!(val(shl24(raw(a), 255)), 0);
        assert_eq!(val(shr24(raw(a), 255)), if a < 0 { -1 } else { 0 });
        assert_eq!(Int24::from_i32(a).const_shl(200).to_i32(), 0);
    }
}

#[test]
fn int24_constant_variants_match() {
    let s = samples();
    for &a in s.iter() {
        let x = Int24::from_i32(a);
        assert!(x.neg() == x.const_neg());
        assert!(x.abs() == x.const_abs());
        assert!(x.shl8().to_i32() == low24(a as i64 * 256));
        assert!(x.shr8().to_i32() == a >> 8);
        for &b in s.iter() {
            let y = Int24::from_i32(b);
            assert!(x.add(y) == x.const_add(y));
            assert!(x.sub(y) == x.const_sub(y));
            assert!(x.mul(y) == x.const_mul(y));
            assert!(x.div(y) == x.const_div(y));
            assert!(x.cmp(y) == x.const_cmp(y));
            assert_eq!(x.cmp(y), a.cmp(&b));
            assert_eq!(x.partial_cmp(&y), Some(a.cmp(&b)));
        }
    }
    // A zero divisor yields the extreme with the sign of the dividend.
    let zero = Int24::zero();
    assert_eq!(Int24::from_i32(5).const_div(zero).to_i32(), MAX);
    assert_eq!(zero.const_div(zero).to_i32(), MAX);
    assert_eq!(Int24::from_i32(-5).const_div(zero).to_i32(), MIN);
    assert_eq!(Int24::from_i32(MIN).const_div(Int24::from_i32(-1)).to_i32(), MAX);
    assert_eq!(Int24::zero().to_i32(), 0);
    assert_eq!(Int24::new().to_i32(), 0);
    assert_eq!(Int24::default().to_i32(), 0);
    assert_eq!(Int24::from_raw((1, 2, 3)).to_i32(), 0x030201);
}

#[test]
fn words_are_truncated() {
    for v in [-70000i32, -65536, -32769, -32768, -257, -256, -129, -128, -1, 0, 1, 127, 128, 255, 256, 32767, 32768, 65535, 65536, 70000, i32::MAX, i32::MIN] {
        assert_eq!(wrap_to_i8(v), v as i8);
        assert_eq!(wrap_to_i16(v), v as i16);
    }
    for v in -256..512i32 {
        assert_eq!(wrap_to_u8(v), v as u8);
    }
    for v in [-65536i32, -1, 0, 1, 65535, 65536, 131071] {
        assert_eq!(wrap_to_u16(v), v as u16);
    }
}
