//! Linear rumble levels of the logarithmic band amplitudes.

use vstd::prelude::*;

verus! {

/// Linear amplitude of a band at full level.
pub const RUMBLE_AMP_MAX: u16 = 1003;

/// Lowest band amplitude: 8 octaves below full, which is silence.
pub const HDR_AMP_MIN: i16 = -256;

/// Linear amplitude of each band amplitude from -256 to 0.
pub const HDR_LEVEL: [u16; 257] = [
    0, 0, 4, 4, 4, 4, 4, 5, 5, 5, 5, 5, 5, 5, 5, 5,
    6, 6, 6, 6, 6, 6, 6, 6, 7, 7, 7, 7, 7, 7, 8, 8,
    8, 8, 8, 8, 9, 9, 9, 9, 9, 10, 10, 10, 10, 10, 11, 11,
    11, 11, 12, 12, 12, 12, 13, 13, 13, 13, 14, 14, 14, 15, 15, 15,
    16, 16, 16, 17, 17, 17, 18, 18, 19, 19, 19, 20, 20, 21, 21, 22,
    22, 23, 23, 24, 24, 25, 25, 26, 26, 27, 28, 28, 29, 29, 30, 31,
    31, 32, 33, 33, 34, 35, 36, 36, 37, 38, 39, 40, 41, 42, 42, 43,
    44, 45, 46, 47, 48, 49, 50, 52, 53, 54, 55, 56, 57, 59, 60, 61,
    63, 64, 65, 67, 68, 70, 71, 73, 75, 76, 78, 80, 81, 83, 85, 87,
    89, 91, 93, 95, 97, 99, 101, 103, 105, 108, 110, 113, 115, 117, 120, 123,
    125, 128, 131, 134, 137, 140, 143, 146, 149, 152, 156, 159, 163, 166, 170, 174,
    177, 181, 185, 189, 193, 198, 202, 206, 211, 215, 220, 225, 230, 235, 240, 245,
    251, 256, 262, 268, 273, 279, 286, 292, 298, 305, 311, 318, 325, 332, 340, 347,
    355, 362, 370, 378, 387, 395, 404, 413, 422, 431, 440, 450, 460, 470, 480, 491,
    502, 512, 524, 535, 547, 559, 571, 584, 596, 609, 623, 636, 650, 665, 679, 694,
    709, 725, 741, 757, 773, 790, 808, 825, 843, 862, 881, 900, 920, 940, 960, 982,
    1003,
];

/// Linear amplitude of a band amplitude.
pub open spec fn level(amp: i16) -> u16 {
    HDR_LEVEL@[amp - HDR_AMP_MIN]
}

/// Look up the linear amplitude of a band amplitude.
pub fn hdr_level(amp: i16) -> (lin: u16)
    requires
        HDR_AMP_MIN <= amp <= 0,
    ensures
        lin == level(amp),
{
    HDR_LEVEL[(amp - HDR_AMP_MIN) as usize]
}

/// No level is above the full one.
pub proof fn lemma_level_bound(amp: i16)
    requires
        HDR_AMP_MIN <= amp <= 0,
    ensures
        level(amp) <= RUMBLE_AMP_MAX,
{
}

/// A louder amplitude has a level at least as high.
pub proof fn law_level_monotone(amp: i16, louder: i16)
    requires
        HDR_AMP_MIN <= amp <= louder <= 0,
    ensures
        level(amp) <= level(louder),
    decreases louder - amp,
{
    if amp < louder {
        lemma_level_step(amp);
        law_level_monotone((amp + 1) as i16, louder);
    }
}

/// One step up does not lower the level.
proof fn lemma_level_step(amp: i16)
    requires
        HDR_AMP_MIN <= amp < 0,
    ensures
        level(amp) <= level((amp + 1) as i16),
{
}

/// The second power.
pub open spec fn square(x: int) -> int {
    x * x
}

/// The 32nd power.
pub open spec fn power32(x: int) -> int {
    square(square(square(square(square(x)))))
}

/// The 32nd power of the full level, times `1 / (scale^32 * rest)`, lies
/// between those of `k - 1/2` and `k + 1/2`. Everything is doubled, so that
/// the halves are integers.
pub open spec fn nearest(k: int, scale: int, rest: int) -> bool {
    &&& power32((2 * k - 1) * scale) * rest <= power32(2 * RUMBLE_AMP_MAX)
    &&& power32(2 * RUMBLE_AMP_MAX) < power32((2 * k + 1) * scale) * rest
}

/// The level of `amp` is the integer nearest to the full level times 2 to the
/// power `amp / 32`. An amplitude of `-(32 q + r)` scales by `2^-q` and by the
/// 32nd root of `2^-r`.
pub open spec fn level_is_nearest(amp: i16) -> bool {
    nearest(
        level(amp) as int,
        vstd::arithmetic::power2::pow2(((-amp) / 32) as nat) as int,
        vstd::arithmetic::power2::pow2(((-amp) % 32) as nat) as int,
    )
}

/// The levels of octave 0 below the full level, one for each 32nd of it.
proof fn lemma_near_0()
    by (nonlinear_arith)
    ensures
        nearest(1003, 1, 0x1),
        nearest(982, 1, 0x2),
        nearest(960, 1, 0x4),
        nearest(940, 1, 0x8),
        nearest(920, 1, 0x10),
        nearest(900, 1, 0x20),
        nearest(881, 1, 0x40),
        nearest(862, 1, 0x80),
        nearest(843, 1, 0x100),
        nearest(825, 1, 0x200),
        nearest(808, 1, 0x400),
        nearest(790, 1, 0x800),
        nearest(773, 1, 0x1000),
        nearest(757, 1, 0x2000),
        nearest(741, 1, 0x4000),
        nearest(725, 1, 0x8000),
        nearest(709, 1, 0x10000),
        nearest(694, 1, 0x20000),
        nearest(679, 1, 0x40000),
        nearest(665, 1, 0x80000),
        nearest(650, 1, 0x100000),
        nearest(636, 1, 0x200000),
        nearest(623, 1, 0x400000),
        nearest(609, 1, 0x800000),
        nearest(596, 1, 0x1000000),
        nearest(584, 1, 0x2000000),
        nearest(571, 1, 0x4000000),
        nearest(559, 1, 0x8000000),
        nearest(547, 1, 0x10000000),
        nearest(535, 1, 0x20000000),
        nearest(524, 1, 0x40000000),
        nearest(512, 1, 0x80000000),
{
}

/// Every level of octave 0 is the nearest integer.
proof fn lemma_octave_0(amp: i16)
    requires
        -31 <= amp <= 0,
    ensures
        level_is_nearest(amp),
{
    vstd::arithmetic::power2::lemma2_to64();
    lemma_near_0();
}

/// The levels of octave 1 below the full level, one for each 32nd of it.
proof fn lemma_near_1()
    by (nonlinear_arith)
    ensures
        nearest(502, 2, 0x1),
        nearest(491, 2, 0x2),
        nearest(480, 2, 0x4),
        nearest(470, 2, 0x8),
        nearest(460, 2, 0x10),
        nearest(450, 2, 0x20),
        nearest(440, 2, 0x40),
        nearest(431, 2, 0x80),
        nearest(422, 2, 0x100),
        nearest(413, 2, 0x200),
        nearest(404, 2, 0x400),
        nearest(395, 2, 0x800),
        nearest(387, 2, 0x1000),
        nearest(378, 2, 0x2000),
        nearest(370, 2, 0x4000),
        nearest(362, 2, 0x8000),
        nearest(355, 2, 0x10000),
        nearest(347, 2, 0x20000),
        nearest(340, 2, 0x40000),
        nearest(332, 2, 0x80000),
        nearest(325, 2, 0x100000),
        nearest(318, 2, 0x200000),
        nearest(311, 2, 0x400000),
        nearest(305, 2, 0x800000),
        nearest(298, 2, 0x1000000),
        nearest(292, 2, 0x2000000),
        nearest(286, 2, 0x4000000),
        nearest(279, 2, 0x8000000),
        nearest(273, 2, 0x10000000),
        nearest(268, 2, 0x20000000),
        nearest(262, 2, 0x40000000),
        nearest(256, 2, 0x80000000),
{
}

/// Every level of octave 1 is the nearest integer.
proof fn lemma_octave_1(amp: i16)
    requires
        -63 <= amp <= -32,
    ensures
        level_is_nearest(amp),
{
    vstd::arithmetic::power2::lemma2_to64();
    lemma_near_1();
}

/// The levels of octave 2 below the full level, one for each 32nd of it.
proof fn lemma_near_2()
    by (nonlinear_arith)
    ensures
        nearest(251, 4, 0x1),
        nearest(245, 4, 0x2),
        nearest(240, 4, 0x4),
        nearest(235, 4, 0x8),
        nearest(230, 4, 0x10),
        nearest(225, 4, 0x20),
        nearest(220, 4, 0x40),
        nearest(215, 4, 0x80),
        nearest(211, 4, 0x100),
        nearest(206, 4, 0x200),
        nearest(202, 4, 0x400),
        nearest(198, 4, 0x800),
        nearest(193, 4, 0x1000),
        nearest(189, 4, 0x2000),
        nearest(185, 4, 0x4000),
        nearest(181, 4, 0x8000),
        nearest(177, 4, 0x10000),
        nearest(174, 4, 0x20000),
        nearest(170, 4, 0x40000),
        nearest(166, 4, 0x80000),
        nearest(163, 4, 0x100000),
        nearest(159, 4, 0x200000),
        nearest(156, 4, 0x400000),
        nearest(152, 4, 0x800000),
        nearest(149, 4, 0x1000000),
        nearest(146, 4, 0x2000000),
        nearest(143, 4, 0x4000000),
        nearest(140, 4, 0x8000000),
        nearest(137, 4, 0x10000000),
        nearest(134, 4, 0x20000000),
        nearest(131, 4, 0x40000000),
        nearest(128, 4, 0x80000000),
{
}

/// Every level of octave 2 is the nearest integer.
proof fn lemma_octave_2(amp: i16)
    requires
        -95 <= amp <= -64,
    ensures
        level_is_nearest(amp),
{
    vstd::arithmetic::power2::lemma2_to64();
    lemma_near_2();
}

/// The levels of octave 3 below the full level, one for each 32nd of it.
proof fn lemma_near_3()
    by (nonlinear_arith)
    ensures
        nearest(125, 8, 0x1),
        nearest(123, 8, 0x2),
        nearest(120, 8, 0x4),
        nearest(117, 8, 0x8),
        nearest(115, 8, 0x10),
        nearest(113, 8, 0x20),
        nearest(110, 8, 0x40),
        nearest(108, 8, 0x80),
        nearest(105, 8, 0x100),
        nearest(103, 8, 0x200),
        nearest(101, 8, 0x400),
        nearest(99, 8, 0x800),
        nearest(97, 8, 0x1000),
        nearest(95, 8, 0x2000),
        nearest(93, 8, 0x4000),
        nearest(91, 8, 0x8000),
        nearest(89, 8, 0x10000),
        nearest(87, 8, 0x20000),
        nearest(85, 8, 0x40000),
        nearest(83, 8, 0x80000),
        nearest(81, 8, 0x100000),
        nearest(80, 8, 0x200000),
        nearest(78, 8, 0x400000),
        nearest(76, 8, 0x800000),
        nearest(75, 8, 0x1000000),
        nearest(73, 8, 0x2000000),
        nearest(71, 8, 0x4000000),
        nearest(70, 8, 0x8000000),
        nearest(68, 8, 0x10000000),
        nearest(67, 8, 0x20000000),
        nearest(65, 8, 0x40000000),
        nearest(64, 8, 0x80000000),
{
}

/// Every level of octave 3 is the nearest integer.
proof fn lemma_octave_3(amp: i16)
    requires
        -127 <= amp <= -96,
    ensures
        level_is_nearest(amp),
{
    vstd::arithmetic::power2::lemma2_to64();
    lemma_near_3();
}

/// The levels of octave 4 below the full level, one for each 32nd of it.
proof fn lemma_near_4()
    by (nonlinear_arith)
    ensures
        nearest(63, 16, 0x1),
        nearest(61, 16, 0x2),
        nearest(60, 16, 0x4),
        nearest(59, 16, 0x8),
        nearest(57, 16, 0x10),
        nearest(56, 16, 0x20),
        nearest(55, 16, 0x40),
        nearest(54, 16, 0x80),
        nearest(53, 16, 0x100),
        nearest(52, 16, 0x200),
        nearest(50, 16, 0x400),
        nearest(49, 16, 0x800),
        nearest(48, 16, 0x1000),
        nearest(47, 16, 0x2000),
        nearest(46, 16, 0x4000),
        nearest(45, 16, 0x8000),
        nearest(44, 16, 0x10000),
        nearest(43, 16, 0x20000),
        nearest(42, 16, 0x40000),
        nearest(42, 16, 0x80000),
        nearest(41, 16, 0x100000),
        nearest(40, 16, 0x200000),
        nearest(39, 16, 0x400000),
        nearest(38, 16, 0x800000),
        nearest(37, 16, 0x1000000),
        nearest(36, 16, 0x2000000),
        nearest(36, 16, 0x4000000),
        nearest(35, 16, 0x8000000),
        nearest(34, 16, 0x10000000),
        nearest(33, 16, 0x20000000),
        nearest(33, 16, 0x40000000),
        nearest(32, 16, 0x80000000),
{
}

/// Every level of octave 4 is the nearest integer.
proof fn lemma_octave_4(amp: i16)
    requires
        -159 <= amp <= -128,
    ensures
        level_is_nearest(amp),
{
    vstd::arithmetic::power2::lemma2_to64();
    lemma_near_4();
}

/// The levels of octave 5 below the full level, one for each 32nd of it.
proof fn lemma_near_5()
    by (nonlinear_arith)
    ensures
        nearest(31, 32, 0x1),
        nearest(31, 32, 0x2),
        nearest(30, 32, 0x4),
        nearest(29, 32, 0x8),
        nearest(29, 32, 0x10),
        nearest(28, 32, 0x20),
        nearest(28, 32, 0x40),
        nearest(27, 32, 0x80),
        nearest(26, 32, 0x100),
        nearest(26, 32, 0x200),
        nearest(25, 32, 0x400),
        nearest(25, 32, 0x800),
        nearest(24, 32, 0x1000),
        nearest(24, 32, 0x2000),
        nearest(23, 32, 0x4000),
        nearest(23, 32, 0x8000),
        nearest(22, 32, 0x10000),
        nearest(22, 32, 0x20000),
        nearest(21, 32, 0x40000),
        nearest(21, 32, 0x80000),
        nearest(20, 32, 0x100000),
        nearest(20, 32, 0x200000),
        nearest(19, 32, 0x400000),
        nearest(19, 32, 0x800000),
        nearest(19, 32, 0x1000000),
        nearest(18, 32, 0x2000000),
        nearest(18, 32, 0x4000000),
        nearest(17, 32, 0x8000000),
        nearest(17, 32, 0x10000000),
        nearest(17, 32, 0x20000000),
        nearest(16, 32, 0x40000000),
        nearest(16, 32, 0x80000000),
{
}

/// Every level of octave 5 is the nearest integer.
proof fn lemma_octave_5(amp: i16)
    requires
        -191 <= amp <= -160,
    ensures
        level_is_nearest(amp),
{
    vstd::arithmetic::power2::lemma2_to64();
    lemma_near_5();
}

/// The levels of octave 6 below the full level, one for each 32nd of it.
proof fn lemma_near_6()
    by (nonlinear_arith)
    ensures
        nearest(16, 64, 0x1),
        nearest(15, 64, 0x2),
        nearest(15, 64, 0x4),
        nearest(15, 64, 0x8),
        nearest(14, 64, 0x10),
        nearest(14, 64, 0x20),
        nearest(14, 64, 0x40),
        nearest(13, 64, 0x80),
        nearest(13, 64, 0x100),
        nearest(13, 64, 0x200),
        nearest(13, 64, 0x400),
        nearest(12, 64, 0x800),
        nearest(12, 64, 0x1000),
        nearest(12, 64, 0x2000),
        nearest(12, 64, 0x4000),
        nearest(11, 64, 0x8000),
        nearest(11, 64, 0x10000),
        nearest(11, 64, 0x20000),
        nearest(11, 64, 0x40000),
        nearest(10, 64, 0x80000),
        nearest(10, 64, 0x100000),
        nearest(10, 64, 0x200000),
        nearest(10, 64, 0x400000),
        nearest(10, 64, 0x800000),
        nearest(9, 64, 0x1000000),
        nearest(9, 64, 0x2000000),
        nearest(9, 64, 0x4000000),
        nearest(9, 64, 0x8000000),
        nearest(9, 64, 0x10000000),
        nearest(8, 64, 0x20000000),
        nearest(8, 64, 0x40000000),
        nearest(8, 64, 0x80000000),
{
}

/// Every level of octave 6 is the nearest integer.
proof fn lemma_octave_6(amp: i16)
    requires
        -223 <= amp <= -192,
    ensures
        level_is_nearest(amp),
{
    vstd::arithmetic::power2::lemma2_to64();
    lemma_near_6();
}

/// The levels of octave 7 below the full level, one for each 32nd of it.
proof fn lemma_near_7()
    by (nonlinear_arith)
    ensures
        nearest(8, 128, 0x1),
        nearest(8, 128, 0x2),
        nearest(8, 128, 0x4),
        nearest(7, 128, 0x8),
        nearest(7, 128, 0x10),
        nearest(7, 128, 0x20),
        nearest(7, 128, 0x40),
        nearest(7, 128, 0x80),
        nearest(7, 128, 0x100),
        nearest(6, 128, 0x200),
        nearest(6, 128, 0x400),
        nearest(6, 128, 0x800),
        nearest(6, 128, 0x1000),
        nearest(6, 128, 0x2000),
        nearest(6, 128, 0x4000),
        nearest(6, 128, 0x8000),
        nearest(6, 128, 0x10000),
        nearest(5, 128, 0x20000),
        nearest(5, 128, 0x40000),
        nearest(5, 128, 0x80000),
        nearest(5, 128, 0x100000),
        nearest(5, 128, 0x200000),
        nearest(5, 128, 0x400000),
        nearest(5, 128, 0x800000),
        nearest(5, 128, 0x1000000),
        nearest(5, 128, 0x2000000),
        nearest(4, 128, 0x4000000),
        nearest(4, 128, 0x8000000),
        nearest(4, 128, 0x10000000),
        nearest(4, 128, 0x20000000),
        nearest(4, 128, 0x40000000),
{
}

/// Every level of octave 7 is the nearest integer.
proof fn lemma_octave_7(amp: i16)
    requires
        -254 <= amp <= -224,
    ensures
        level_is_nearest(amp),
{
    vstd::arithmetic::power2::lemma2_to64();
    lemma_near_7();
}

/// Levels follow an exponential curve, rounded to the nearest integer: 32
/// steps are one octave. The two lowest amplitudes are cut to silence.
pub proof fn law_level_exponential(amp: i16)
    requires
        HDR_AMP_MIN <= amp <= 0,
    ensures
        amp >= -254 ==> level_is_nearest(amp),
        amp < -254 ==> level(amp) == 0,
        level(0) == RUMBLE_AMP_MAX,
{
    if amp >= -31 {
        lemma_octave_0(amp);
    } else if amp >= -63 {
        lemma_octave_1(amp);
    } else if amp >= -95 {
        lemma_octave_2(amp);
    } else if amp >= -127 {
        lemma_octave_3(amp);
    } else if amp >= -159 {
        lemma_octave_4(amp);
    } else if amp >= -191 {
        lemma_octave_5(amp);
    } else if amp >= -223 {
        lemma_octave_6(amp);
    } else if amp >= -254 {
        lemma_octave_7(amp);
    }
}

/// Full level is 1003, silence is 0, and eight octaves lie between them.
pub proof fn law_level_ends(amp: i16)
    requires
        -256 <= amp <= 0,
    ensures
        0 <= level(amp) <= 1003,
        level(amp) == 1003 <==> amp == 0,
        level(amp) == 0 <==> amp <= -255,
{
}

} // verus!
