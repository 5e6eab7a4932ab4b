use vstd::prelude::*;
use vstd::arithmetic::power2::pow2;

verus! {

/// The element types a tensor can hold, as a runtime tag.
#[derive(Clone, Copy, Debug, PartialEq, Eq, Hash, Structural)]
pub enum DType {
    F32,
    F16,
    Bf16,
    Fp8E4M3,
}

impl DType {
    /// Bytes taken by one element of this type.
    pub open spec fn spec_size_bytes(self) -> nat {
        match self {
            DType::F32 => 4,
            DType::F16 => 2,
            DType::Bf16 => 2,
            DType::Fp8E4M3 => 1,
        }
    }

    /// Short lower-case name of this type.
    pub open spec fn spec_name(self) -> Seq<char> {
        match self {
            DType::F32 => "f32"@,
            DType::F16 => "f16"@,
            DType::Bf16 => "bf16"@,
            DType::Fp8E4M3 => "fp8e4m3"@,
        }
    }

    pub fn size_bytes(self) -> (n: usize)
        ensures
            n == self.spec_size_bytes(),
    {
        match self {
            DType::F32 => 4,
            DType::F16 => 2,
            DType::Bf16 => 2,
            DType::Fp8E4M3 => 1,
        }
    }

    pub fn name(self) -> (s: &'static str)
        ensures
            s@ == self.spec_name(),
    {
        match self {
            DType::F32 => "f32",
            DType::F16 => "f16",
            DType::Bf16 => "bf16",
            DType::Fp8E4M3 => "fp8e4m3",
        }
    }
}

/// A marker type that names an element type at the type level.
pub trait Dtype: Copy + Clone + 'static {
    const SIZE_BYTES: usize;
    const NAME: &'static str;
    const DTYPE: DType;
}

/// 32-bit IEEE float elements.
#[derive(Clone, Copy, Debug, Default, PartialEq, Eq)]
pub struct F32;

/// 16-bit IEEE half-precision elements.
#[derive(Clone, Copy, Debug, Default, PartialEq, Eq)]
pub struct F16;

/// bfloat16 elements.
#[derive(Clone, Copy, Debug, Default, PartialEq, Eq)]
pub struct Bf16;

/// 8-bit float elements with 4 exponent and 3 mantissa bits.
#[derive(Clone, Copy, Debug, Default, PartialEq, Eq)]
pub struct Fp8E4M3;

impl Dtype for F32 {
    const SIZE_BYTES: usize = 4;
    const NAME: &'static str = "f32";
    const DTYPE: DType = DType::F32;
}

impl Dtype for F16 {
    const SIZE_BYTES: usize = 2;
    const NAME: &'static str = "f16";
    const DTYPE: DType = DType::F16;
}

impl Dtype for Bf16 {
    const SIZE_BYTES: usize = 2;
    const NAME: &'static str = "bf16";
    const DTYPE: DType = DType::Bf16;
}

impl Dtype for Fp8E4M3 {
    const SIZE_BYTES: usize = 1;
    const NAME: &'static str = "fp8e4m3";
    const DTYPE: DType = DType::Fp8E4M3;
}

/// Each marker type agrees with its runtime tag: the same element size and the same name.
pub proof fn lemma_markers_match_tags()
    ensures
        F32::SIZE_BYTES == F32::DTYPE.spec_size_bytes(),
        F16::SIZE_BYTES == F16::DTYPE.spec_size_bytes(),
        Bf16::SIZE_BYTES == Bf16::DTYPE.spec_size_bytes(),
        Fp8E4M3::SIZE_BYTES == Fp8E4M3::DTYPE.spec_size_bytes(),
        F32::NAME@ == F32::DTYPE.spec_name(),
        F16::NAME@ == F16::DTYPE.spec_name(),
        Bf16::NAME@ == Bf16::DTYPE.spec_name(),
        Fp8E4M3::NAME@ == Fp8E4M3::DTYPE.spec_name(),
{
}

/// The element size and runtime tag of each marker type: 4 bytes for `F32`, 2 for `F16`
/// and `Bf16`, 1 for `Fp8E4M3`.
pub proof fn lemma_marker_sizes()
    ensures
        F32::SIZE_BYTES == 4,
        F16::SIZE_BYTES == 2,
        Bf16::SIZE_BYTES == 2,
        Fp8E4M3::SIZE_BYTES == 1,
        F32::DTYPE == DType::F32,
        F16::DTYPE == DType::F16,
        Bf16::DTYPE == DType::Bf16,
        Fp8E4M3::DTYPE == DType::Fp8E4M3,
{
}

/// The sign bit, exponent field and mantissa field of an `f32` bit pattern.
pub open spec fn f32_sign(bits: u32) -> nat {
    bits as nat / 0x8000_0000
}

pub open spec fn f32_exp(bits: u32) -> nat {
    (bits as nat / 0x80_0000) % 0x100
}

pub open spec fn f32_mant(bits: u32) -> nat {
    bits as nat % 0x80_0000
}

/// An `f32` bit pattern that is a NaN: all exponent bits set and a nonzero mantissa.
pub open spec fn f32_is_nan(bits: u32) -> bool {
    f32_exp(bits) == 0xff && f32_mant(bits) != 0
}

/// A bfloat16 value, by its bit pattern: the upper half of an `f32`'s.
#[derive(Clone, Copy, Debug, Default, PartialEq, Eq, Structural)]
pub struct BF16(pub u16);

/// The bfloat16 nearest to the `f32` with bit pattern `bits`, halfway cases to the even
/// pattern; a NaN keeps its upper bits and becomes quiet.
pub open spec fn spec_bf16_from_f32_bits(bits: u32) -> u16 {
    let hi = bits as nat / 0x10000;
    let lo = bits as nat % 0x10000;
    if f32_is_nan(bits) {
        (hi as u16) | 0x0040
    } else if lo > 0x8000 || (lo == 0x8000 && hi % 2 == 1) {
        (hi + 1) as u16
    } else {
        hi as u16
    }
}

/// A bfloat16 bit pattern is a NaN.
pub open spec fn bf16_is_nan(h: u16) -> bool {
    h % 0x8000 > 0x7f80
}

impl BF16 {
    /// Rounds the `f32` with bit pattern `bits` to bfloat16.
    pub fn from_f32_bits(bits: u32) -> (r: BF16)
        ensures
            r.0 == spec_bf16_from_f32_bits(bits),
    {
        assert(f32_is_nan(bits) <==> (bits & 0x7fff_ffff) > 0x7f80_0000) by (bit_vector);
        if (bits & 0x7fff_ffff) > 0x7f80_0000 {
            assert(((bits >> 16) as u16) | 0x0040 == ((bits / 0x10000) as u16) | 0x0040) by (bit_vector);
            return BF16((bits >> 16) as u16 | 0x0040);
        }
        assert(bits <= 0xff80_0000) by (bit_vector)
            requires
                (bits & 0x7fff_ffff) <= 0x7f80_0000,
        ;
        assert((bits >> 16) & 1 <= 1 && bits + 0x8000 <= u32::MAX) by (bit_vector)
            requires
                bits <= 0xff80_0000,
        ;
        let rounding_bias: u32 = 0x7fff + ((bits >> 16) & 1);
        assert(((((bits + (0x7fff + ((bits >> 16) & 1))) as u32) >> 16) as u16) == (if bits % 0x10000 > 0x8000 || (bits
            % 0x10000 == 0x8000 && (bits / 0x10000) % 2 == 1) {
            (bits / 0x10000 + 1) as u16
        } else {
            (bits / 0x10000) as u16
        })) by (bit_vector)
            requires
                bits <= 0xff80_0000,
        ;
        BF16(#[verifier::truncate] (((bits + rounding_bias) >> 16) as u16))
    }

    /// The `f32` bit pattern of this value: its bits in the upper half, zeros below.
    pub fn to_f32_bits(self) -> (bits: u32)
        ensures
            bits == self.0 as nat * 0x10000,
    {
        let h = self.0;
        assert((h as u32) << 16 == h as u32 * 0x10000) by (bit_vector);
        (self.0 as u32) << 16
    }
}

/// Widening a bfloat16 to `f32` and rounding it back gives the same value; a NaN comes
/// back quiet, with its other bits kept.
pub proof fn lemma_bf16_roundtrip(h: u16)
    ensures
        spec_bf16_from_f32_bits((h as nat * 0x10000) as u32) == if bf16_is_nan(h) {
            h | 0x0040
        } else {
            h
        },
{
    let bits = (h as nat * 0x10000) as u32;
    assert(bits as nat / 0x10000 == h as nat && bits as nat % 0x10000 == 0) by (bit_vector)
        requires
            bits == (h as nat * 0x10000) as u32,
    ;
    assert(f32_is_nan(bits) <==> bf16_is_nan(h)) by (bit_vector)
        requires
            bits == (h as nat * 0x10000) as u32,
    ;
}

/// An IEEE half-precision value, by its bit pattern.
#[derive(Clone, Copy, Debug, Default, PartialEq, Eq, Structural)]
pub struct Half(pub u16);

/// The half-precision pattern for the `f32` with bit pattern `bits`: NaN and infinity
/// keep their kind (a NaN becomes quiet), magnitudes past the largest exponent become
/// infinity, magnitudes below the smallest subnormal become zero, and the others are
/// cut to half precision, rounding halfway cases up in magnitude. The sign is kept.
pub open spec fn spec_half_from_f32_bits(bits: u32) -> u16 {
    let s: int = (f32_sign(bits) * 0x8000) as int;
    let e: int = f32_exp(bits) as int;
    let m: int = f32_mant(bits) as int;
    (if e == 0xff {
        s + 0x7c00 + if m != 0 { 0x200int } else { 0int }
    } else if e >= 143 {
        s + 0x7c00
    } else if e < 102 {
        s
    } else if e <= 112 {
        let full = m + 0x80_0000;
        let sh = (126 - e) as nat;
        s + full / (pow2(sh) as int) + (full / (pow2((sh - 1) as nat) as int)) % 2
    } else {
        s + (e - 112) * 0x400 + m / 0x2000 + (m / 0x1000) % 2
    }) as u16
}

/// The sign bit, exponent field and mantissa field of a half-precision pattern.
pub open spec fn half_sign(h: u16) -> nat {
    h as nat / 0x8000
}

pub open spec fn half_exp(h: u16) -> nat {
    (h as nat / 0x400) % 0x20
}

pub open spec fn half_mant(h: u16) -> nat {
    h as nat % 0x400
}

/// How many doublings bring a nonzero subnormal mantissa `m` to `0x400` or more.
pub open spec fn lead_shift(m: nat) -> nat
    decreases 0x800 - m,
{
    if m == 0 || m >= 0x400 {
        0
    } else {
        1 + lead_shift(m * 2)
    }
}

/// The `f32` pattern the widening of half pattern `h` gives: zero and normal values
/// move their exponent to the `f32` bias, infinity and NaN keep their kind and
/// mantissa, and a subnormal with mantissa `m` is normalised by `lead_shift(m)`
/// doublings, taking the exponent field `111 - lead_shift(m)`.
pub open spec fn spec_half_to_f32_bits(h: u16) -> u32 {
    let s: int = (half_sign(h) * 0x8000_0000) as int;
    let e: int = half_exp(h) as int;
    let m: int = half_mant(h) as int;
    (if e == 0 {
        if m == 0 {
            s
        } else {
            let k = lead_shift(m as nat);
            s + (111 - k) * 0x80_0000 + ((m * pow2(k)) % 0x400) * 0x2000
        }
    } else if e == 0x1f {
        s + 0x7f80_0000 + m * 0x2000
    } else {
        s + (e + 112) * 0x80_0000 + m * 0x2000
    }) as u32
}

impl Half {
    /// Converts the `f32` with bit pattern `bits` to half precision.
    pub fn from_f32_bits(bits: u32) -> (r: Half)
        ensures
            r.0 == spec_half_from_f32_bits(bits),
    {
        let sign: u16 = ((bits >> 16) & 0x8000) as u16;
        let exp: u32 = (bits >> 23) & 0xff;
        let mant: u32 = bits & 0x007f_ffff;
        assert(sign == f32_sign(bits) * 0x8000 && exp == f32_exp(bits) && mant == f32_mant(bits)
            && mant < 0x80_0000 && (sign == 0 || sign == 0x8000)) by (bit_vector)
            requires
                sign == ((bits >> 16) & 0x8000) as u16,
                exp == (bits >> 23) & 0xff,
                mant == bits & 0x007f_ffff,
        ;
        if exp == 0xff {
            let m: u16 = if mant != 0 {
                0x0200
            } else {
                0
            };
            assert(sign | 0x7c00 | m == sign + 0x7c00 + m) by (bit_vector)
                requires
                    sign == 0 || sign == 0x8000,
                    m == 0 || m == 0x200,
            ;
            return Half(sign | 0x7c00 | m);
        }
        if exp >= 143 {
            assert(sign | 0x7c00 == sign + 0x7c00) by (bit_vector)
                requires
                    sign == 0 || sign == 0x8000,
            ;
            return Half(sign | 0x7c00);
        }
        if exp < 102 {
            return Half(sign);
        }
        if exp <= 112 {
            let m: u32 = mant | 0x0080_0000;
            let shift: u32 = 126 - exp;
            assert(m == mant + 0x80_0000 && m < 0x100_0000) by (bit_vector)
                requires
                    m == mant | 0x0080_0000,
                    mant < 0x80_0000,
            ;
            let sh1: u32 = shift - 1;
            assert((m >> shift) < 0x400 && (m >> sh1) & 1 == (m >> sh1) % 2) by (bit_vector)
                requires
                    m < 0x100_0000,
                    14 <= shift <= 24,
                    sh1 == shift - 1,
            ;
            proof {
                vstd::bits::lemma_u32_shr_is_div(m, shift);
                vstd::bits::lemma_u32_shr_is_div(m, sh1);
            }
            let half_mant: u16 = (m >> shift) as u16;
            let round_bit: u32 = (m >> sh1) & 1;
            let low: u16 = half_mant + round_bit as u16;
            assert(sign | low == sign + low) by (bit_vector)
                requires
                    sign == 0 || sign == 0x8000,
                    low <= 0x400,
            ;
            return Half(sign | low);
        }
        let unbiased: u16 = (exp - 112) as u16;
        let half: u16 = sign | (unbiased << 10) | ((mant >> 13) as u16);
        let round_bit: u32 = (mant >> 12) & 1;
        assert(half as int + round_bit as int == sign as int + unbiased as int * 0x400 + mant as int / 0x2000
            + (mant as int / 0x1000) % 2 && half as int + round_bit as int <= 0xffff) by (bit_vector)
            requires
                sign == 0 || sign == 0x8000,
                1 <= unbiased <= 30,
                mant < 0x80_0000,
                half == sign | (unbiased << 10) | ((mant >> 13) as u16),
                round_bit == (mant >> 12) & 1,
        ;
        Half(half + round_bit as u16)
    }

    /// The `f32` bit pattern with the same value as this half-precision value.
    pub fn to_f32_bits(self) -> (bits: u32)
        ensures
            bits == spec_half_to_f32_bits(self.0),
    {
        let hv = self.0;
        let h: u32 = hv as u32;
        let sign: u32 = (h & 0x8000) << 16;
        let exp: u32 = (h >> 10) & 0x1f;
        let mant: u32 = h & 0x03ff;
        assert(sign == half_sign(hv) * 0x8000_0000 && exp == half_exp(hv) && mant == half_mant(hv)
            && mant < 0x400 && (sign == 0 || sign == 0x8000_0000)) by (bit_vector)
            requires
                h == hv as u32,
                sign == (h & 0x8000) << 16,
                exp == (h >> 10) & 0x1f,
                mant == h & 0x03ff,
        ;
        if exp == 0 {
            if mant == 0 {
                return sign;
            }
            let mut e: u32 = 0;
            let mut m: u32 = mant;
            proof {
                vstd::arithmetic::power2::lemma2_to64();
            }
            while m & 0x0400 == 0
                invariant
                    1 <= mant < 0x400,
                    1 <= m < 0x800,
                    m == mant * pow2(e as nat),
                    e + lead_shift(m as nat) == lead_shift(mant as nat),
                    e <= 10,
                decreases 0x800 - m,
            {
                assert(m < 0x400) by (bit_vector)
                    requires
                        m & 0x0400 == 0,
                        m < 0x800,
                ;
                proof {
                    vstd::arithmetic::power2::lemma_pow2_unfold((e + 1) as nat);
                    vstd::arithmetic::power2::lemma2_to64();
                }
                assert(m * 2 == mant * pow2((e + 1) as nat)) by (nonlinear_arith)
                    requires
                        m == mant * pow2(e as nat),
                        pow2((e + 1) as nat) == 2 * pow2(e as nat),
                ;
                proof {
                    if e + 1 > 10 {
                        vstd::arithmetic::power2::lemma_pow2_strictly_increases(10, (e + 1) as nat);
                        assert(m * 2 >= pow2((e + 1) as nat)) by (nonlinear_arith)
                            requires
                                m * 2 == mant * pow2((e + 1) as nat),
                                mant >= 1,
                        ;
                    }
                }
                let m2: u32 = m << 1;
                assert(m2 == m * 2) by (bit_vector)
                    requires
                        m < 0x400,
                        m2 == m << 1,
                ;
                m = m2;
                e = e + 1;
            }
            assert(m >= 0x400) by (bit_vector)
                requires
                    m & 0x0400 != 0,
                    m < 0x800,
            ;
            let top: u32 = (111 - e) << 23;
            let low: u32 = (m & 0x03ff) << 13;
            assert(sign | top | low == sign + (111 - e) * 0x80_0000 + (m % 0x400) * 0x2000) by (bit_vector)
                requires
                    sign == 0 || sign == 0x8000_0000,
                    e <= 10,
                    m < 0x800,
                    top == ((111 - e) as u32) << 23,
                    low == (m & 0x03ff) << 13,
            ;
            return sign | top | low;
        }
        if exp == 0x1f {
            assert(sign | 0x7f80_0000 | (mant << 13) == sign + 0x7f80_0000 + mant * 0x2000) by (bit_vector)
                requires
                    sign == 0 || sign == 0x8000_0000,
                    mant < 0x400,
            ;
            return sign | 0x7f80_0000 | (mant << 13);
        }
        assert(sign | (((exp + 112) as u32) << 23) | (mant << 13) == sign + (exp + 112) * 0x80_0000 + mant
            * 0x2000) by (bit_vector)
            requires
                sign == 0 || sign == 0x8000_0000,
                1 <= exp <= 30,
                mant < 0x400,
        ;
        sign | ((exp + 112) << 23) | (mant << 13)
    }
}

/// Widening a half-precision value to `f32` and converting it back gives the same value
/// for zeros, normal values and infinities; a NaN comes back as the quiet NaN of the same
/// sign. (Subnormal values are left out: the widening gives them an exponent two below
/// their value, so they do not come back.)
pub proof fn lemma_half_roundtrip(h: u16)
    requires
        half_exp(h) != 0 || half_mant(h) == 0,
    ensures
        spec_half_from_f32_bits(spec_half_to_f32_bits(h)) == if half_exp(h) == 0x1f && half_mant(h)
            != 0 {
            (half_sign(h) * 0x8000 + 0x7e00) as u16
        } else {
            h
        },
{
    let s = half_sign(h);
    let e = half_exp(h);
    let m = half_mant(h);
    assert(h == s * 0x8000 + e * 0x400 + m && s <= 1 && e < 0x20 && m < 0x400) by (nonlinear_arith)
        requires
            s == h as nat / 0x8000,
            e == (h as nat / 0x400) % 0x20,
            m == h as nat % 0x400,
            h < 0x10000,
    ;
    let bits = spec_half_to_f32_bits(h);
    let big_e: nat = if e == 0 {
        0
    } else if e == 0x1f {
        0xff
    } else {
        e + 112
    };
    assert(bits == s * 0x8000_0000 + big_e * 0x80_0000 + m * 0x2000);
    assert(f32_sign(bits) == s && f32_exp(bits) == big_e && f32_mant(bits) == m * 0x2000)
        by (nonlinear_arith)
        requires
            bits == s * 0x8000_0000 + big_e * 0x80_0000 + m * 0x2000,
            s <= 1,
            big_e <= 0xff,
            m < 0x400,
    ;
    assert((m * 0x2000) / 0x2000 == m && ((m * 0x2000) / 0x1000) % 2 == 0) by (nonlinear_arith)
        requires
            m < 0x400,
    ;
}

/// An 8-bit float with 4 exponent and 3 mantissa bits, by its bit pattern.
#[derive(Clone, Copy, Debug, Default, PartialEq, Eq, Structural)]
pub struct F8E4M3(pub u8);

} // verus!
