//! Compensation engine: the vendor's fixed-point temperature formula.
//! Integer arithmetic throughout, with every shift arithmetic on signed
//! 32-bit values; the result is in hundredths of a degree Celsius, so the
//! caller's final scale-down by 100 is the only fractional step left.
//!
//! Overflow beyond 32 bits in an intermediate is a precondition violation
//! (the sensor's valid output range keeps the intermediates in range);
//! `calc_temperature_checked` decides that precondition at run time.

use vstd::prelude::*;
use crate::calibration::CompTemperature;

verus! {

/// First intermediate difference: `(adc_t >> 3) - (t1 << 1)`, exactly.
/// Always fits in 32 bits.
pub open spec fn spec_diff1(c: CompTemperature, adc_t: i32) -> int {
    (adc_t >> 3) - ((c.t1 as i32) << 1)
}

/// First intermediate product, before its shift down by 11, exactly.
pub open spec fn spec_mul1(c: CompTemperature, adc_t: i32) -> int {
    spec_diff1(c, adc_t) * (c.t2 as int)
}

/// The formula's `var1`.
pub open spec fn spec_var1(c: CompTemperature, adc_t: i32) -> i32 {
    (spec_mul1(c, adc_t) as i32) >> 11
}

/// Second intermediate difference: `(adc_t >> 4) - t1`, exactly.
/// Always fits in 32 bits.
pub open spec fn spec_diff2(c: CompTemperature, adc_t: i32) -> int {
    (adc_t >> 4) - (c.t1 as i32)
}

/// The square of the second difference, before its shift down by 12,
/// exactly.
pub open spec fn spec_sq(c: CompTemperature, adc_t: i32) -> int {
    spec_diff2(c, adc_t) * spec_diff2(c, adc_t)
}

/// Second intermediate product, before its shift down by 14, exactly.
pub open spec fn spec_mul2(c: CompTemperature, adc_t: i32) -> int {
    ((spec_sq(c, adc_t) as i32) >> 12) * (c.t3 as int)
}

/// The formula's `var2`.
pub open spec fn spec_var2(c: CompTemperature, adc_t: i32) -> i32 {
    (spec_mul2(c, adc_t) as i32) >> 14
}

/// The fine temperature `var1 + var2`, exactly.
pub open spec fn spec_t_fine(c: CompTemperature, adc_t: i32) -> int {
    spec_var1(c, adc_t) + spec_var2(c, adc_t)
}

/// The fine temperature scaled by five, exactly.
pub open spec fn spec_t5(c: CompTemperature, adc_t: i32) -> int {
    (spec_t_fine(c, adc_t) as i32) * 5
}

/// The rounding step's operand `t_fine * 5 + 128`, exactly.
pub open spec fn spec_scaled(c: CompTemperature, adc_t: i32) -> int {
    spec_t5(c, adc_t) + 128
}

/// The compensated temperature in hundredths of a degree Celsius.
pub open spec fn spec_calc_temperature(c: CompTemperature, adc_t: i32) -> i32 {
    (spec_scaled(c, adc_t) as i32) >> 8
}

/// Holds exactly when every intermediate of the formula fits in a signed
/// 32-bit value, i.e. when the formula's fixed-point evaluation is exact.
pub open spec fn spec_calc_fits(c: CompTemperature, adc_t: i32) -> bool {
    &&& i32::MIN <= spec_mul1(c, adc_t) <= i32::MAX
    &&& spec_sq(c, adc_t) <= i32::MAX
    &&& i32::MIN <= spec_mul2(c, adc_t) <= i32::MAX
    &&& i32::MIN <= spec_t_fine(c, adc_t) <= i32::MAX
    &&& i32::MIN <= spec_t5(c, adc_t)
    &&& spec_scaled(c, adc_t) <= i32::MAX
}

/// The vendor fixed-point temperature compensation formula, in hundredths
/// of a degree Celsius. Total and side-effect-free on every input whose
/// intermediates fit in 32 bits.
pub fn calc_temperature(compt: CompTemperature, env_temperature: i32) -> (r: i32)
    requires
        spec_calc_fits(compt, env_temperature),
    ensures
        r == spec_calc_temperature(compt, env_temperature),
{
    let adc_t: i32 = env_temperature;

    let t1v: u16 = compt.t1;
    let s3: i32 = adc_t >> 3;
    let t1x2: i32 = (t1v as i32) << 1;
    proof {
        assert(-0x1000_0000 <= (adc_t >> 3) && (adc_t >> 3) <= 0xFFF_FFFF) by (bit_vector);
        assert(0 <= ((t1v as i32) << 1) && ((t1v as i32) << 1) <= 0x1FFFE) by (bit_vector);
    }
    let diff1: i32 = s3 - t1x2;
    assert(diff1 as int == spec_diff1(compt, env_temperature));
    let mul1: i32 = diff1 * (compt.t2 as i32);
    let var1: i32 = mul1 >> 11;

    let s4: i32 = adc_t >> 4;
    proof {
        assert(-0x800_0000 <= (adc_t >> 4) && (adc_t >> 4) <= 0x7FF_FFFF) by (bit_vector);
    }
    let diff2: i32 = s4 - (compt.t1 as i32);
    assert(diff2 as int == spec_diff2(compt, env_temperature));
    proof {
        assert(diff2 as int * diff2 as int >= 0) by (nonlinear_arith);
    }
    let sq: i32 = diff2 * diff2;
    let sq12: i32 = sq >> 12;
    let mul2: i32 = sq12 * (compt.t3 as i32);
    let var2: i32 = mul2 >> 14;

    let t_fine_out: i32 = var1 + var2;
    let t: i32 = ((t_fine_out * 5) + 128) >> 8;
    t
}

/// Decide the formula's precondition at run time: `Some` with the
/// compensated temperature exactly when every intermediate fits in 32 bits,
/// `None` otherwise.
pub fn calc_temperature_checked(compt: CompTemperature, env_temperature: i32) -> (r: Option<i32>)
    ensures
        r is Some <==> spec_calc_fits(compt, env_temperature),
        (match r {
            Some(t) => t == spec_calc_temperature(compt, env_temperature),
            None => true,
        }),
{
    let adc_t: i32 = env_temperature;

    let t1v: u16 = compt.t1;
    let s3: i32 = adc_t >> 3;
    let t1x2: i32 = (t1v as i32) << 1;
    proof {
        assert(-0x1000_0000 <= (adc_t >> 3) && (adc_t >> 3) <= 0xFFF_FFFF) by (bit_vector);
        assert(0 <= ((t1v as i32) << 1) && ((t1v as i32) << 1) <= 0x1FFFE) by (bit_vector);
    }
    let diff1: i64 = (s3 as i64) - (t1x2 as i64);
    assert(diff1 as int == spec_diff1(compt, env_temperature));
    proof {
        assert(diff1 as int * (compt.t2 as int) <= 0x4000_0000_0000
            && diff1 as int * (compt.t2 as int) >= -0x4000_0000_0000) by (nonlinear_arith)
            requires
                -0x2000_0000 <= diff1 as int <= 0x2000_0000,
                -0x8000 <= compt.t2 as int <= 0x7FFF,
        ;
    }
    let mul1: i64 = diff1 * (compt.t2 as i64);
    if mul1 < i32::MIN as i64 || mul1 > i32::MAX as i64 {
        return None;
    }
    let var1: i32 = (mul1 as i32) >> 11;
    assert(var1 == spec_var1(compt, env_temperature));

    let s4: i32 = adc_t >> 4;
    proof {
        assert(-0x800_0000 <= (adc_t >> 4) && (adc_t >> 4) <= 0x7FF_FFFF) by (bit_vector);
    }
    let diff2: i64 = (s4 as i64) - (compt.t1 as i64);
    assert(diff2 as int == spec_diff2(compt, env_temperature));
    proof {
        assert(diff2 as int * diff2 as int <= 0x100_0000_0000_0000
            && diff2 as int * diff2 as int >= 0) by (nonlinear_arith)
            requires
                -0x1000_0000 <= diff2 as int <= 0x1000_0000,
        ;
    }
    let sq: i64 = diff2 * diff2;
    if sq > i32::MAX as i64 {
        return None;
    }
    let sq12: i32 = (sq as i32) >> 12;
    proof {
        let sqc = sq as i32;
        assert(0 <= sqc ==> 0 <= (sqc >> 12) && (sqc >> 12) <= 0x8_0000) by (bit_vector);
    }
    proof {
        assert(sq12 as int * (compt.t3 as int) <= 0x4_0000_0000
            && sq12 as int * (compt.t3 as int) >= -0x4_0000_0000) by (nonlinear_arith)
            requires
                0 <= sq12 as int <= 0x8_0000,
                -0x8000 <= compt.t3 as int <= 0x7FFF,
        ;
    }
    let mul2: i64 = (sq12 as i64) * (compt.t3 as i64);
    if mul2 < i32::MIN as i64 || mul2 > i32::MAX as i64 {
        return None;
    }
    let var2: i32 = (mul2 as i32) >> 14;
    assert(var2 == spec_var2(compt, env_temperature));

    let t_fine: i64 = (var1 as i64) + (var2 as i64);
    if t_fine < i32::MIN as i64 || t_fine > i32::MAX as i64 {
        return None;
    }
    let t5: i64 = ((t_fine as i32) as i64) * 5;
    if t5 < i32::MIN as i64 || t5 + 128 > i32::MAX as i64 {
        return None;
    }
    assert(spec_calc_fits(compt, env_temperature));
    Some(calc_temperature(compt, env_temperature))
}

/// The compensation is deterministic and side-effect-free: identical
/// coefficient and raw-value pairs yield the identical output.
pub proof fn lemma_calc_temperature_deterministic(
    c1: CompTemperature, adc1: i32,
    c2: CompTemperature, adc2: i32,
)
    requires
        c1 == c2,
        adc1 == adc2,
    ensures
        spec_calc_temperature(c1, adc1) == spec_calc_temperature(c2, adc2),
{
}

} // verus!
