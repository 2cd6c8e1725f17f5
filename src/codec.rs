//! The pixel codec: per scalar type, the two directions of one normalization law.

use num::complex::Complex;
use vstd::prelude::*;

verus! {

/// Units of a `Real` per `1.0`: `255 * 128`, so that every decoded sample is
/// represented exactly and an encode is a division by `256`.
pub const REAL_SCALE: i32 = 32640;

/// num's complex number, a pair of public fields `re` and `im`.
#[verifier::external_type_specification]
#[verifier::reject_recursive_types(T)]
pub struct ExComplex<T>(Complex<T>);

/// Clamps an integer into the raw sample range `[0, 255]`.
pub open spec fn clamp_raw(x: int) -> u8 {
    if x < 0 {
        0
    } else if x > 255 {
        255
    } else {
        x as u8
    }
}

/// The normalized value of `raw` in `REAL_SCALE` units: `(raw / 255) * 2 - 1`,
/// that is `256 * raw - REAL_SCALE`.
pub open spec fn decode_units(raw: u8) -> int {
    256 * raw - REAL_SCALE
}

/// The raw sample nearest to `((v + 1) / 2) * 255` for `v = units / REAL_SCALE`,
/// halves rounded up, saturated into `[0, 255]`.
pub open spec fn encode_units(units: int) -> u8 {
    clamp_raw((units + REAL_SCALE + 128) / 256)
}

/// A signed normalized real in fixed point: the value is `units / REAL_SCALE`.
#[derive(Clone, Copy, Debug, PartialEq, Eq, Structural)]
pub struct Real {
    pub units: i32,
}

impl Real {
    /// The fixed-point value with the given number of `1 / REAL_SCALE` units.
    pub fn from_units(units: i32) -> (r: Real)
        ensures
            r.units == units,
    {
        Real { units }
    }
}

/// Encoding a scalar into a raw sample.
pub trait ToRawPixel: Sized {
    /// The raw sample that this value encodes to.
    spec fn raw_pixel(&self) -> u8;

    fn to_raw_pixel(&self) -> (r: u8)
        ensures
            r == self.raw_pixel(),
    ;
}

/// Decoding a raw sample into a scalar. Decoding is the inverse of encoding on
/// every raw sample: each implementation proves that law.
pub trait FromRawPixel: ToRawPixel {
    /// The scalar that `from` decodes to.
    spec fn from_raw(from: u8) -> Self;

    fn from_raw_pixel(from: u8) -> (r: Self)
        ensures
            r == Self::from_raw(from),
    ;

    /// Encoding a decoded sample gives the sample back.
    proof fn lemma_round_trip(raw: u8)
        ensures
            Self::from_raw(raw).raw_pixel() == raw,
    ;
}

impl ToRawPixel for Real {
    open spec fn raw_pixel(&self) -> u8 {
        encode_units(self.units as int)
    }

    /// Saturates: values below `-1` encode to `0`, values above `1` to `255`.
    fn to_raw_pixel(&self) -> (r: u8) {
        let shifted: i64 = self.units as i64 + REAL_SCALE as i64 + 128;
        if shifted < 0 {
            0
        } else {
            let q: i64 = shifted / 256;
            if q > 255 {
                255
            } else {
                q as u8
            }
        }
    }
}

impl FromRawPixel for Real {
    open spec fn from_raw(from: u8) -> Real {
        Real { units: decode_units(from) as i32 }
    }

    fn from_raw_pixel(from: u8) -> (r: Real) {
        Real { units: 256 * (from as i32) - REAL_SCALE }
    }

    proof fn lemma_round_trip(raw: u8) {
        let u = decode_units(raw);
        assert((u + REAL_SCALE + 128) / 256 == raw as int) by (nonlinear_arith)
            requires
                u == 256 * raw - REAL_SCALE,
                REAL_SCALE == 32640,
        ;
    }
}

impl ToRawPixel for Complex<Real> {
    /// The imaginary part is discarded.
    open spec fn raw_pixel(&self) -> u8 {
        self.re.raw_pixel()
    }

    fn to_raw_pixel(&self) -> (r: u8) {
        self.re.to_raw_pixel()
    }
}

impl FromRawPixel for Complex<Real> {
    /// The real part is the real decode; the imaginary part is zero.
    open spec fn from_raw(from: u8) -> Complex<Real> {
        Complex { re: Real::from_raw(from), im: Real { units: 0 } }
    }

    fn from_raw_pixel(from: u8) -> (r: Complex<Real>) {
        Complex { re: Real::from_raw_pixel(from), im: Real { units: 0 } }
    }

    proof fn lemma_round_trip(raw: u8) {
        Real::lemma_round_trip(raw);
    }
}

/// Decoding a complex sample gives the real decode with a zero imaginary
/// part, and encoding it gives the sample back.
pub proof fn lemma_complex_round_trip(raw: u8)
    ensures
        <Complex<Real> as FromRawPixel>::from_raw(raw).re == Real::from_raw(raw),
        <Complex<Real> as FromRawPixel>::from_raw(raw).im.units == 0,
        <Complex<Real> as FromRawPixel>::from_raw(raw).raw_pixel() == raw,
{
    <Complex<Real> as FromRawPixel>::lemma_round_trip(raw);
}

/// On the normalized range `[-1, 1]`, encoding and then decoding moves a
/// value by at most half a quantization step (a step is `256` units).
pub proof fn lemma_requantization_error(units: int)
    requires
        -REAL_SCALE <= units <= REAL_SCALE,
    ensures
        -128 <= decode_units(encode_units(units)) - units <= 128,
{
    let q = (units + REAL_SCALE + 128) / 256;
    let rem = (units + REAL_SCALE + 128) % 256;
    assert(units + REAL_SCALE + 128 == 256 * q + rem && 0 <= rem < 256) by (nonlinear_arith)
        requires
            q == (units + REAL_SCALE + 128) / 256,
            rem == (units + REAL_SCALE + 128) % 256,
    ;
    assert(0 <= q <= 255) by (nonlinear_arith)
        requires
            units + REAL_SCALE + 128 == 256 * q + rem,
            0 <= rem < 256,
            -REAL_SCALE <= units <= REAL_SCALE,
            REAL_SCALE == 32640,
    ;
}

} // verus!
