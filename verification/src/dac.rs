use vstd::prelude::*;
use crate::registers::{Register, RegisterOp, register_address};

verus! {

/// Largest value of the DAC's 12-bit data register.
pub const DAC_MAX: u16 = 4095;

/// Number of samples in one period of the sine table.
pub const SINE_LEN: u16 = 512;

/// Which way the triangle wave moves.
#[derive(Clone, Copy, Debug, PartialEq, Eq, Structural)]
pub enum Direction {
    Upcounting,
    Downcounting,
}

/// One step of the triangle wave: after `val` was output, turn at the ends
/// of the DAC range, then move one step in the current direction.
pub open spec fn spec_triangle_step(val: u16, dir: Direction) -> (u16, Direction) {
    let d = if val == 0 {
        Direction::Upcounting
    } else if val == DAC_MAX {
        Direction::Downcounting
    } else {
        dir
    };
    match d {
        Direction::Upcounting => ((val + 1) as u16, d),
        Direction::Downcounting => ((val - 1) as u16, d),
    }
}

/// The next value and direction of the triangle wave after `val` was
/// written to the DAC.
pub fn triangle_step(val: u16, dir: Direction) -> (next: (u16, Direction))
    requires
        val <= DAC_MAX,
    ensures
        next == spec_triangle_step(val, dir),
        next.0 <= DAC_MAX,
{
    let d = if val == 0 {
        Direction::Upcounting
    } else if val == DAC_MAX {
        Direction::Downcounting
    } else {
        dir
    };
    match d {
        Direction::Upcounting => (val + 1, d),
        Direction::Downcounting => (val - 1, d),
    }
}

/// Length of one period of the triangle wave, in steps.
pub open spec fn triangle_period() -> int {
    2 * DAC_MAX as int
}

/// The triangle wave at position `p` of its period: up from 0 to `DAC_MAX`,
/// then back down.
pub open spec fn triangle(p: int) -> int {
    let m = p % triangle_period();
    if m <= DAC_MAX {
        m
    } else {
        triangle_period() - m
    }
}

/// The position within the period of a value and a direction.
pub open spec fn triangle_position(val: u16, dir: Direction) -> int {
    match dir {
        Direction::Upcounting => val as int,
        Direction::Downcounting => (triangle_period() - val) % triangle_period(),
    }
}

/// The triangle wave after `n` steps from 0, counting up.
pub open spec fn triangle_after(n: nat) -> (u16, Direction)
    decreases n,
{
    if n == 0 {
        (0u16, Direction::Upcounting)
    } else {
        let prev = triangle_after((n - 1) as nat);
        spec_triangle_step(prev.0, prev.1)
    }
}

/// Each step moves one position along the period, and the value is the
/// triangle wave at that position.
pub proof fn lemma_triangle_step_advances(val: u16, dir: Direction)
    requires
        val <= DAC_MAX,
    ensures
        triangle(triangle_position(val, dir)) == val,
        triangle_position(spec_triangle_step(val, dir).0, spec_triangle_step(val, dir).1)
            == (triangle_position(val, dir) + 1) % triangle_period(),
        0 <= triangle_position(val, dir) < triangle_period(),
{
    let p = triangle_position(val, dir);
    let (v2, d2) = spec_triangle_step(val, dir);
    assert(forall|x: int| 0 <= x < 8190 ==> #[trigger] (x % 8190) == x) by {
        assert forall|x: int| 0 <= x < 8190 implies #[trigger] (x % 8190) == x by {
            vstd::arithmetic::div_mod::lemma_small_mod(x as nat, 8190);
        }
    }
    assert(8190int % 8190 == 0);
    assert(triangle_period() == 8190);
    match dir {
        Direction::Upcounting => {
            assert(p == val);
        },
        Direction::Downcounting => {
            if val == 0 {
                assert(p == 0);
            } else {
                assert(p == 8190 - val);
            }
        },
    }
    assert(0 <= p < 8190);
    assert(p % 8190 == p);
    match d2 {
        Direction::Upcounting => {
            assert(triangle_position(v2, d2) == v2);
        },
        Direction::Downcounting => {
            if v2 == 0 {
                assert(triangle_position(v2, d2) == 0);
            } else {
                assert(triangle_position(v2, d2) == 8190 - v2);
            }
        },
    }
    if p + 1 < 8190 {
        assert((p + 1) % 8190 == p + 1);
    } else {
        assert((p + 1) % 8190 == 0);
    }
}

/// Counting from 0 upwards, the DAC outputs a symmetric triangle wave with a
/// period of `2 * DAC_MAX` steps and never leaves the DAC range.
pub proof fn lemma_triangle_wave(n: nat)
    ensures
        triangle_after(n).0 as int == triangle(n as int),
        triangle_position(triangle_after(n).0, triangle_after(n).1) == n as int % triangle_period(),
        triangle_after(n).0 <= DAC_MAX,
    decreases n,
{
    if n > 0 {
        lemma_triangle_wave((n - 1) as nat);
        let prev = triangle_after((n - 1) as nat);
        lemma_triangle_step_advances(prev.0, prev.1);
        let next = spec_triangle_step(prev.0, prev.1);
        assert(((n - 1) as int % triangle_period() + 1) % triangle_period() == n as int % triangle_period())
            by (nonlinear_arith);
        lemma_triangle_step_advances(next.0, next.1);
        assert(triangle(n as int) == triangle(n as int % triangle_period())) by (nonlinear_arith);
    }
}

/// One period of the sine wave that the DMA streams to the DAC: 512 samples
/// around mid-scale (2048) with an amplitude of 1792.
pub open spec fn sine_samples() -> Seq<u16> {
    seq![
        2048u16, 2069, 2091, 2113, 2135, 2157, 2179, 2201, 2223, 2245, 2267, 2289, 2310, 2332, 2354, 2376,
        2397, 2419, 2440, 2462, 2483, 2504, 2525, 2547, 2568, 2589, 2610, 2630, 2651, 2672, 2692, 2713,
        2733, 2754, 2774, 2794, 2814, 2834, 2853, 2873, 2892, 2912, 2931, 2950, 2969, 2988, 3006, 3025,
        3043, 3061, 3079, 3097, 3115, 3133, 3150, 3167, 3184, 3201, 3218, 3235, 3251, 3267, 3283, 3299,
        3315, 3330, 3345, 3360, 3375, 3390, 3404, 3419, 3433, 3447, 3460, 3474, 3487, 3500, 3513, 3525,
        3537, 3550, 3561, 3573, 3585, 3596, 3607, 3617, 3628, 3638, 3648, 3658, 3667, 3677, 3686, 3695,
        3703, 3711, 3719, 3727, 3735, 3742, 3749, 3756, 3762, 3769, 3775, 3780, 3786, 3791, 3796, 3801,
        3805, 3809, 3813, 3817, 3820, 3823, 3826, 3829, 3831, 3833, 3835, 3836, 3837, 3838, 3839, 3839,
        3839, 3839, 3839, 3838, 3837, 3836, 3835, 3833, 3831, 3829, 3826, 3823, 3820, 3817, 3813, 3809,
        3805, 3801, 3796, 3791, 3786, 3780, 3775, 3769, 3762, 3756, 3749, 3742, 3735, 3727, 3719, 3711,
        3703, 3695, 3686, 3677, 3667, 3658, 3648, 3638, 3628, 3617, 3607, 3596, 3585, 3573, 3561, 3550,
        3537, 3525, 3513, 3500, 3487, 3474, 3460, 3447, 3433, 3419, 3404, 3390, 3375, 3360, 3345, 3330,
        3315, 3299, 3283, 3267, 3251, 3235, 3218, 3201, 3184, 3167, 3150, 3133, 3115, 3097, 3079, 3061,
        3043, 3025, 3006, 2988, 2969, 2950, 2931, 2912, 2892, 2873, 2853, 2834, 2814, 2794, 2774, 2754,
        2733, 2713, 2692, 2672, 2651, 2630, 2610, 2589, 2568, 2547, 2525, 2504, 2483, 2462, 2440, 2419,
        2397, 2376, 2354, 2332, 2310, 2289, 2267, 2245, 2223, 2201, 2179, 2157, 2135, 2113, 2091, 2069,
        2048, 2026, 2004, 1982, 1960, 1938, 1916, 1894, 1872, 1850, 1828, 1806, 1785, 1763, 1741, 1719,
        1698, 1676, 1655, 1633, 1612, 1591, 1570, 1548, 1527, 1506, 1485, 1465, 1444, 1423, 1403, 1382,
        1362, 1341, 1321, 1301, 1281, 1261, 1242, 1222, 1203, 1183, 1164, 1145, 1126, 1107, 1089, 1070,
        1052, 1034, 1016, 998, 980, 962, 945, 928, 911, 894, 877, 860, 844, 828, 812, 796,
        780, 765, 750, 735, 720, 705, 691, 676, 662, 648, 635, 621, 608, 595, 582, 570,
        558, 545, 534, 522, 510, 499, 488, 478, 467, 457, 447, 437, 428, 418, 409, 400,
        392, 384, 376, 368, 360, 353, 346, 339, 333, 326, 320, 315, 309, 304, 299, 294,
        290, 286, 282, 278, 275, 272, 269, 266, 264, 262, 260, 259, 258, 257, 256, 256,
        256, 256, 256, 257, 258, 259, 260, 262, 264, 266, 269, 272, 275, 278, 282, 286,
        290, 294, 299, 304, 309, 315, 320, 326, 333, 339, 346, 353, 360, 368, 376, 384,
        392, 400, 409, 418, 428, 437, 447, 457, 467, 478, 488, 499, 510, 522, 534, 545,
        558, 570, 582, 595, 608, 621, 635, 648, 662, 676, 691, 705, 720, 735, 750, 765,
        780, 796, 812, 828, 844, 860, 877, 894, 911, 928, 945, 962, 980, 998, 1016, 1034,
        1052, 1070, 1089, 1107, 1126, 1145, 1164, 1183, 1203, 1222, 1242, 1261, 1281, 1301, 1321, 1341,
        1362, 1382, 1403, 1423, 1444, 1465, 1485, 1506, 1527, 1548, 1570, 1591, 1612, 1633, 1655, 1676,
        1698, 1719, 1741, 1763, 1785, 1806, 1828, 1850, 1872, 1894, 1916, 1938, 1960, 1982, 2004, 2026,
    ]
}

/// Every sample lies between 256 and 3839, inside the DAC's 12-bit range.
pub proof fn lemma_sine_range()
    ensures
        sine_samples().len() == SINE_LEN,
        forall|i: int| 0 <= i < SINE_LEN ==> 256 <= #[trigger] sine_samples()[i] <= 3839,
{
    let s = sine_samples();
    assert forall|i: int| 0 <= i < SINE_LEN implies 256 <= #[trigger] s[i] <= 3839 by {
    }
}

/// The first half of the table is mirrored about its middle, and the second
/// half is the first turned upside down around mid-scale.
#[verifier::rlimit(100)]
pub proof fn lemma_sine_symmetric()
    ensures
        forall|i: int| 0 < i < 256 ==> #[trigger] sine_samples()[i] == sine_samples()[256 - i],
        forall|i: int| 0 < i < 256 ==> #[trigger] sine_samples()[i] + sine_samples()[256 + i] == 4095,
{
}

/// Neighbouring samples differ by at most 22.
#[verifier::rlimit(100)]
pub proof fn lemma_sine_steps()
    ensures
        forall|i: int|
            0 <= i < 511 ==> -22 <= #[trigger] sine_samples()[i + 1] - sine_samples()[i] <= 22,
{
}

/// Every sample follows the discrete sine recurrence `t[i+1] + t[i-1] -
/// 2 t[i] = -c (t[i] - 2048)` with `c = 2 (1 - cos(2 pi / 512))`, about
/// `3 / 20000`, to within the rounding of the samples (2 steps).
#[verifier::rlimit(100)]
pub proof fn lemma_sine_recurrence()
    ensures
        forall|i: int|
            0 < i < 511 ==> -40000 <= 20000 * (sine_samples()[i + 1] + sine_samples()[i - 1] - 2
                * #[trigger] sine_samples()[i]) + 3 * (sine_samples()[i] - 2048) <= 40000,
{
}

/// The table samples one period of a sine around mid-scale: it starts at
/// 2048, peaks at 3839 a quarter in, is back at 2048 half-way and bottoms
/// at 256 three quarters in, with the symmetry, step and recurrence above.
#[verifier::rlimit(100)]
pub proof fn lemma_sine_shape()
    ensures
        sine_samples().len() == 512,
        sine_samples()[0] == 2048,
        sine_samples()[128] == 3839,
        sine_samples()[256] == 2048,
        sine_samples()[384] == 256,
        forall|i: int| 0 < i < 256 ==> #[trigger] sine_samples()[i] == sine_samples()[256 - i],
        forall|i: int| 0 < i < 256 ==> #[trigger] sine_samples()[i] + sine_samples()[256 + i] == 4095,
        forall|i: int|
            0 <= i < 511 ==> -22 <= #[trigger] sine_samples()[i + 1] - sine_samples()[i] <= 22,
        forall|i: int|
            0 < i < 511 ==> -40000 <= 20000 * (sine_samples()[i + 1] + sine_samples()[i - 1] - 2
                * #[trigger] sine_samples()[i]) + 3 * (sine_samples()[i] - 2048) <= 40000,
{
    lemma_sine_quarters();
    lemma_sine_symmetric();
    lemma_sine_steps();
    lemma_sine_recurrence();
}

/// The samples at the start, the quarters and the half of the period.
#[verifier::rlimit(100)]
pub proof fn lemma_sine_quarters()
    ensures
        sine_samples().len() == 512,
        sine_samples()[0] == 2048,
        sine_samples()[128] == 3839,
        sine_samples()[256] == 2048,
        sine_samples()[384] == 256,
{
}

/// The sine table, as the DMA channel reads it.
pub fn sine_table() -> (t: Vec<u16>)
    ensures
        t@ == sine_samples(),
        t@.len() == SINE_LEN,
{
    let t = vec![
        2048u16, 2069, 2091, 2113, 2135, 2157, 2179, 2201, 2223, 2245, 2267, 2289, 2310, 2332, 2354, 2376,
        2397, 2419, 2440, 2462, 2483, 2504, 2525, 2547, 2568, 2589, 2610, 2630, 2651, 2672, 2692, 2713,
        2733, 2754, 2774, 2794, 2814, 2834, 2853, 2873, 2892, 2912, 2931, 2950, 2969, 2988, 3006, 3025,
        3043, 3061, 3079, 3097, 3115, 3133, 3150, 3167, 3184, 3201, 3218, 3235, 3251, 3267, 3283, 3299,
        3315, 3330, 3345, 3360, 3375, 3390, 3404, 3419, 3433, 3447, 3460, 3474, 3487, 3500, 3513, 3525,
        3537, 3550, 3561, 3573, 3585, 3596, 3607, 3617, 3628, 3638, 3648, 3658, 3667, 3677, 3686, 3695,
        3703, 3711, 3719, 3727, 3735, 3742, 3749, 3756, 3762, 3769, 3775, 3780, 3786, 3791, 3796, 3801,
        3805, 3809, 3813, 3817, 3820, 3823, 3826, 3829, 3831, 3833, 3835, 3836, 3837, 3838, 3839, 3839,
        3839, 3839, 3839, 3838, 3837, 3836, 3835, 3833, 3831, 3829, 3826, 3823, 3820, 3817, 3813, 3809,
        3805, 3801, 3796, 3791, 3786, 3780, 3775, 3769, 3762, 3756, 3749, 3742, 3735, 3727, 3719, 3711,
        3703, 3695, 3686, 3677, 3667, 3658, 3648, 3638, 3628, 3617, 3607, 3596, 3585, 3573, 3561, 3550,
        3537, 3525, 3513, 3500, 3487, 3474, 3460, 3447, 3433, 3419, 3404, 3390, 3375, 3360, 3345, 3330,
        3315, 3299, 3283, 3267, 3251, 3235, 3218, 3201, 3184, 3167, 3150, 3133, 3115, 3097, 3079, 3061,
        3043, 3025, 3006, 2988, 2969, 2950, 2931, 2912, 2892, 2873, 2853, 2834, 2814, 2794, 2774, 2754,
        2733, 2713, 2692, 2672, 2651, 2630, 2610, 2589, 2568, 2547, 2525, 2504, 2483, 2462, 2440, 2419,
        2397, 2376, 2354, 2332, 2310, 2289, 2267, 2245, 2223, 2201, 2179, 2157, 2135, 2113, 2091, 2069,
        2048, 2026, 2004, 1982, 1960, 1938, 1916, 1894, 1872, 1850, 1828, 1806, 1785, 1763, 1741, 1719,
        1698, 1676, 1655, 1633, 1612, 1591, 1570, 1548, 1527, 1506, 1485, 1465, 1444, 1423, 1403, 1382,
        1362, 1341, 1321, 1301, 1281, 1261, 1242, 1222, 1203, 1183, 1164, 1145, 1126, 1107, 1089, 1070,
        1052, 1034, 1016, 998, 980, 962, 945, 928, 911, 894, 877, 860, 844, 828, 812, 796,
        780, 765, 750, 735, 720, 705, 691, 676, 662, 648, 635, 621, 608, 595, 582, 570,
        558, 545, 534, 522, 510, 499, 488, 478, 467, 457, 447, 437, 428, 418, 409, 400,
        392, 384, 376, 368, 360, 353, 346, 339, 333, 326, 320, 315, 309, 304, 299, 294,
        290, 286, 282, 278, 275, 272, 269, 266, 264, 262, 260, 259, 258, 257, 256, 256,
        256, 256, 256, 257, 258, 259, 260, 262, 264, 266, 269, 272, 275, 278, 282, 286,
        290, 294, 299, 304, 309, 315, 320, 326, 333, 339, 346, 353, 360, 368, 376, 384,
        392, 400, 409, 418, 428, 437, 447, 457, 467, 478, 488, 499, 510, 522, 534, 545,
        558, 570, 582, 595, 608, 621, 635, 648, 662, 676, 691, 705, 720, 735, 750, 765,
        780, 796, 812, 828, 844, 860, 877, 894, 911, 928, 945, 962, 980, 998, 1016, 1034,
        1052, 1070, 1089, 1107, 1126, 1145, 1164, 1183, 1203, 1222, 1242, 1261, 1281, 1301, 1321, 1341,
        1362, 1382, 1403, 1423, 1444, 1465, 1485, 1506, 1527, 1548, 1570, 1591, 1612, 1633, 1655, 1676,
        1698, 1719, 1741, 1763, 1785, 1806, 1828, 1850, 1872, 1894, 1916, 1938, 1960, 1982, 2004, 2026,
    ];
    assert(t@ =~= sine_samples());
    t
}

/// DAC_CR bits of one channel (the low half-word for channel 1, the high
/// one for channel 2): EN (bit 0), BOFF (1), TEN (2), TSEL (5:3), WAVE
/// (7:6), MAMP (11:8), DMAEN (12), DMAUDRIE (13).
pub open spec fn dac_channel_bits(
    en: u32,
    boff: u32,
    ten: u32,
    tsel: u32,
    wave: u32,
    mamp: u32,
    dmaen: u32,
    dmaudrie: u32,
) -> u32 {
    en | (boff << 1u32) | (ten << 2u32) | (tsel << 3u32) | (wave << 6u32) | (mamp << 8u32) | (dmaen
        << 12u32) | (dmaudrie << 13u32)
}

/// TSEL value that triggers a conversion on the TRGO output of timer 6.
pub const TSEL_TIM6_TRGO: u32 = 0;

/// WAVE value that adds the pseudo-noise generator's output.
pub const WAVE_NOISE: u32 = 1;

/// MAMP of channel 1: the noise generator unmasks LFSR bits 0 to 7.
pub const NOISE_MASK_1: u32 = 7;

/// MAMP of channel 2: the noise generator unmasks LFSR bits 0 to 11.
pub const NOISE_MASK_2: u32 = 11;

/// DAC_CR for the noise test: both channels enabled with output buffer,
/// triggered by timer 6, adding noise; channel 1 takes its samples from DMA.
pub open spec fn dac_cr_noise() -> u32 {
    dac_channel_bits(1, 0, 1, TSEL_TIM6_TRGO, WAVE_NOISE, NOISE_MASK_1, 1, 0) | (dac_channel_bits(
        1,
        0,
        1,
        TSEL_TIM6_TRGO,
        WAVE_NOISE,
        NOISE_MASK_2,
        0,
        0,
    ) << 16u32)
}

/// TIM6_CR2 with MMS = update (`0b010` in bits 6:4): every update event
/// becomes TRGO.
pub const TIM6_MMS_UPDATE: u32 = 0x20;

/// RCC_AHBENR bit that enables the clock of DMA 1.
pub const RCC_AHBENR_DMAEN: u32 = 0x1;

/// DMA CCR bits: EN (bit 0), DIR (4), CIRC (5), PINC (6), MINC (7), PSIZE
/// (9:8), MSIZE (11:10); interrupts, priority and memory-to-memory stay 0.
pub open spec fn dma_ccr_bits(en: u32, dir: u32, circ: u32, pinc: u32, minc: u32, psize: u32, msize: u32) -> u32 {
    en | (dir << 4u32) | (circ << 5u32) | (pinc << 6u32) | (minc << 7u32) | (psize << 8u32) | (msize
        << 10u32)
}

/// PSIZE / MSIZE value for 16-bit transfers.
pub const DMA_SIZE_16: u32 = 1;

/// DMA channel 3 configuration that streams the table to the DAC: from
/// memory, circular, memory address incremented, peripheral address fixed,
/// 16-bit on both sides; enabled when `en` is 1.
pub open spec fn dma_stream_ccr(en: u32) -> u32 {
    dma_ccr_bits(en, 1, 1, 0, 1, DMA_SIZE_16, DMA_SIZE_16)
}

/// The register accesses of the DAC test, in order: timer 6 update as
/// trigger, DAC channels in noise mode, zero offsets, DMA clock on, DMA
/// channel 3 off, then table address, sample count and DAC data register,
/// then the stream configuration, first disabled, then enabled.
pub open spec fn noise_setup_ops(table_address: u32) -> Seq<RegisterOp> {
    seq![
        RegisterOp::Write(Register::Tim6Cr2, TIM6_MMS_UPDATE),
        RegisterOp::Write(Register::DacCr, dac_cr_noise()),
        RegisterOp::Write(Register::DacDhr12rd, 0u32),
        RegisterOp::SetBits(Register::RccAhbenr, RCC_AHBENR_DMAEN),
        RegisterOp::Write(Register::Dma1Ccr3, 0u32),
        RegisterOp::Write(Register::Dma1Cmar3, table_address),
        RegisterOp::Write(Register::Dma1Cndtr3, SINE_LEN as u32),
        RegisterOp::Write(Register::Dma1Cpar3, register_address(Register::DacDhr12r1)),
        RegisterOp::Write(Register::Dma1Ccr3, dma_stream_ccr(0)),
        RegisterOp::Write(Register::Dma1Ccr3, dma_stream_ccr(1)),
    ]
}

/// The register accesses that make the DAC output noise on both channels,
/// with channel 1 streaming the sine table at `table_address` by DMA.
pub fn test_dac(table_address: u32) -> (ops: Vec<RegisterOp>)
    ensures
        ops@ == noise_setup_ops(table_address),
{
    let cr1: u32 = 1 | (1 << 2u32) | (1 << 6u32) | (7 << 8u32) | (1 << 12u32);
    let cr2: u32 = 1 | (1 << 2u32) | (1 << 6u32) | (11 << 8u32);
    let dac_cr: u32 = cr1 | (cr2 << 16u32);
    assert(dac_cr == dac_cr_noise()) by (bit_vector)
        requires
            cr1 == 1 | (1u32 << 2u32) | (1u32 << 6u32) | (7u32 << 8u32) | (1u32 << 12u32),
            cr2 == 1 | (1u32 << 2u32) | (1u32 << 6u32) | (11u32 << 8u32),
            dac_cr == cr1 | (cr2 << 16u32),
    ;
    let ccr_off: u32 = (1 << 4u32) | (1 << 5u32) | (1 << 7u32) | (1 << 8u32) | (1 << 10u32);
    let ccr_on: u32 = ccr_off | 1;
    assert(ccr_off == dma_stream_ccr(0) && ccr_on == dma_stream_ccr(1)) by (bit_vector)
        requires
            ccr_off == (1u32 << 4u32) | (1u32 << 5u32) | (1u32 << 7u32) | (1u32 << 8u32) | (1u32 << 10u32),
            ccr_on == ccr_off | 1,
    ;
    let data_register = Register::DacDhr12r1;
    let ops = vec![
        RegisterOp::Write(Register::Tim6Cr2, TIM6_MMS_UPDATE),
        RegisterOp::Write(Register::DacCr, dac_cr),
        RegisterOp::Write(Register::DacDhr12rd, 0u32),
        RegisterOp::SetBits(Register::RccAhbenr, RCC_AHBENR_DMAEN),
        RegisterOp::Write(Register::Dma1Ccr3, 0u32),
        RegisterOp::Write(Register::Dma1Cmar3, table_address),
        RegisterOp::Write(Register::Dma1Cndtr3, SINE_LEN as u32),
        RegisterOp::Write(Register::Dma1Cpar3, data_register.address()),
        RegisterOp::Write(Register::Dma1Ccr3, ccr_off),
        RegisterOp::Write(Register::Dma1Ccr3, ccr_on),
    ];
    assert(ops@ =~= noise_setup_ops(table_address));
    ops
}

/// The DAC control word of the noise test is `0x0b45_1745`: both channels
/// enabled, output buffer on, triggered by timer 6, noise with masks 7 and
/// 11; only channel 1 has DMA requests, and no underrun interrupt is on.
pub proof fn lemma_dac_noise_fields()
    ensures
        dac_cr_noise() == 0x0b45_1745u32,
        dac_cr_noise() & 1 == 1,
        (dac_cr_noise() >> 16u32) & 1 == 1,
        (dac_cr_noise() >> 1u32) & 1 == 0,
        (dac_cr_noise() >> 17u32) & 1 == 0,
        (dac_cr_noise() >> 2u32) & 1 == 1,
        (dac_cr_noise() >> 18u32) & 1 == 1,
        (dac_cr_noise() >> 3u32) & 7 == TSEL_TIM6_TRGO,
        (dac_cr_noise() >> 19u32) & 7 == TSEL_TIM6_TRGO,
        (dac_cr_noise() >> 6u32) & 3 == WAVE_NOISE,
        (dac_cr_noise() >> 22u32) & 3 == WAVE_NOISE,
        (dac_cr_noise() >> 8u32) & 0xf == NOISE_MASK_1,
        (dac_cr_noise() >> 24u32) & 0xf == NOISE_MASK_2,
        (dac_cr_noise() >> 12u32) & 1 == 1,
        (dac_cr_noise() >> 28u32) & 1 == 0,
        (dac_cr_noise() >> 13u32) & 1 == 0,
        (dac_cr_noise() >> 29u32) & 1 == 0,
{
    assert(dac_cr_noise() == 0x0b45_1745u32) by (bit_vector);
    let w = dac_cr_noise();
    assert({
        &&& w & 1 == 1
        &&& (w >> 16u32) & 1 == 1
        &&& (w >> 1u32) & 1 == 0
        &&& (w >> 17u32) & 1 == 0
        &&& (w >> 2u32) & 1 == 1
        &&& (w >> 18u32) & 1 == 1
        &&& (w >> 3u32) & 7 == 0
        &&& (w >> 19u32) & 7 == 0
        &&& (w >> 6u32) & 3 == 1
        &&& (w >> 22u32) & 3 == 1
        &&& (w >> 8u32) & 0xf == 7
        &&& (w >> 24u32) & 0xf == 11
        &&& (w >> 12u32) & 1 == 1
        &&& (w >> 28u32) & 1 == 0
        &&& (w >> 13u32) & 1 == 0
        &&& (w >> 29u32) & 1 == 0
    }) by (bit_vector)
        requires
            w == 0x0b45_1745u32,
    ;
}

/// The DMA channel is switched on only by the last access, after its
/// address, count and configuration are in place; it then streams the
/// whole sine table, 16 bits at a time, from memory to the DAC's channel 1
/// data register, round and round.
pub proof fn lemma_dma_enabled_last(table_address: u32)
    ensures
        noise_setup_ops(table_address).len() == 10,
        forall|i: int| 0 <= i < 9 ==> !(#[trigger] noise_setup_ops(table_address)[i] matches RegisterOp::Write(Register::Dma1Ccr3, v) && v & 1 == 1),
        noise_setup_ops(table_address)[9] == RegisterOp::Write(Register::Dma1Ccr3, 0x5b1u32),
        noise_setup_ops(table_address)[5] == RegisterOp::Write(Register::Dma1Cmar3, table_address),
        noise_setup_ops(table_address)[6] == RegisterOp::Write(Register::Dma1Cndtr3, sine_samples().len() as u32),
        noise_setup_ops(table_address)[7] == RegisterOp::Write(Register::Dma1Cpar3, register_address(Register::DacDhr12r1)),
        dma_stream_ccr(1) & 1 == 1,
        (dma_stream_ccr(1) >> 4u32) & 1 == 1,
        (dma_stream_ccr(1) >> 5u32) & 1 == 1,
        (dma_stream_ccr(1) >> 6u32) & 1 == 0,
        (dma_stream_ccr(1) >> 7u32) & 1 == 1,
        (dma_stream_ccr(1) >> 8u32) & 3 == DMA_SIZE_16,
        (dma_stream_ccr(1) >> 10u32) & 3 == DMA_SIZE_16,
{
    assert(dma_stream_ccr(0) == 0x5b0u32 && dma_stream_ccr(1) == 0x5b1u32) by (bit_vector);
    let w = dma_stream_ccr(1);
    assert({
        &&& w & 1 == 1
        &&& (w >> 4u32) & 1 == 1
        &&& (w >> 5u32) & 1 == 1
        &&& (w >> 6u32) & 1 == 0
        &&& (w >> 7u32) & 1 == 1
        &&& (w >> 8u32) & 3 == 1
        &&& (w >> 10u32) & 3 == 1
    }) by (bit_vector)
        requires
            w == 0x5b1u32,
    ;
    assert(0x5b0u32 & 1 == 0) by (bit_vector);
    assert(0u32 & 1 == 0) by (bit_vector);
    lemma_sine_range();
}

} // verus!
