//! Switch Pro Controller HID protocol: input reports, the handshake, and the
//! replies to host commands.

use vstd::prelude::*;

use crate::models::{Stick, SwitchInput, STICK_MAX};

verus! {

/// Length in bytes of every report sent to the host.
pub const REPORT_LEN: usize = 64;

/// Most payload bytes that a report carries behind its two header bytes.
pub const PAYLOAD_MAX: usize = 62;

/// Value of the vibrator byte of an input report.
pub const VIBRATOR_BYTE: u8 = 0x09;

/// SPI ROM contents from address 0x6000 on; the factory stick parameters sit
/// at 0x6080.
pub const SPI_ROM_60: [u8; 176] = [
    0xff, 0xff, 0xff, 0xff, 0xff, 0xff, 0xff, 0xff, 0xff, 0xff, 0xff, 0xff, 0xff, 0xff, 0xff, 0xff,
    0xff, 0xff, 0x03, 0xa0, 0xff, 0xff, 0xff, 0xff, 0xff, 0xff, 0xff, 0x02, 0xff, 0xff, 0xff, 0xff,
    0xf0, 0xff, 0x89, 0x00, 0xf0, 0x01, 0x00, 0x40, 0x00, 0x40, 0x00, 0x40, 0xf9, 0xff, 0x06, 0x00,
    0x09, 0x00, 0xe7, 0x3b, 0xe7, 0x3b, 0xe7, 0x3b, 0xff, 0xff, 0xff, 0xff, 0xff, 0xba, 0x15, 0x62,
    0x11, 0xb8, 0x7f, 0x29, 0x06, 0x5b, 0xff, 0xe7, 0x7e, 0x0e, 0x36, 0x56, 0x9e, 0x85, 0x60, 0xff,
    0x32, 0x32, 0x32, 0xff, 0xff, 0xff, 0xff, 0xff, 0xff, 0xff, 0xff, 0xff, 0xff, 0xff, 0xff, 0xff,
    0xff, 0xff, 0xff, 0xff, 0xff, 0xff, 0xff, 0xff, 0xff, 0xff, 0xff, 0xff, 0xff, 0xff, 0xff, 0xff,
    0xff, 0xff, 0xff, 0xff, 0xff, 0xff, 0xff, 0xff, 0xff, 0xff, 0xff, 0xff, 0xff, 0xff, 0xff, 0xff,
    0x50, 0xfd, 0x00, 0x00, 0xc6, 0x0f, 0x0f, 0x30, 0x61, 0x96, 0x30, 0xf3, 0xd4, 0x14, 0x54, 0x41,
    0x15, 0x54, 0xc7, 0x79, 0x9c, 0x33, 0x36, 0x63, 0x0f, 0x30, 0x61, 0x96, 0x30, 0xf3, 0xd4, 0x14,
    0x54, 0x41, 0x15, 0x54, 0xc7, 0x79, 0x9c, 0x33, 0x36, 0x63, 0xff, 0xff, 0xff, 0xff, 0xff, 0xff,
];

/// SPI ROM contents from address 0x8000 on; the calibration magic sits at
/// 0x8026.
pub const SPI_ROM_80: [u8; 64] = [
    0xff, 0xff, 0xff, 0xff, 0xff, 0xff, 0xff, 0xff, 0xff, 0xff, 0xff, 0xff, 0xff, 0xff, 0xff, 0xff,
    0xff, 0xff, 0xff, 0xff, 0xff, 0xff, 0xff, 0xff, 0xff, 0xff, 0xff, 0xff, 0xff, 0xff, 0xff, 0xff,
    0xff, 0xff, 0xff, 0xff, 0xff, 0xff, 0xb2, 0xa1, 0xbe, 0xff, 0x3e, 0x00, 0xf0, 0x01, 0x00, 0x40,
    0x00, 0x40, 0x00, 0x40, 0xfe, 0xff, 0xfe, 0xff, 0x08, 0x00, 0xe7, 0x3b, 0xe7, 0x3b, 0xe7, 0x3b,
];

/// The SPI ROM block whose address has high byte `addr`.
pub open spec fn spi_rom(addr: u8) -> Option<Seq<u8>> {
    if addr == 0x60 {
        Some(SPI_ROM_60@)
    } else if addr == 0x80 {
        Some(SPI_ROM_80@)
    } else {
        None
    }
}

/// The SPI ROM block whose address has high byte `addr`.
pub fn spi_data(addr: u8) -> (block: Option<&'static [u8]>)
    ensures
        block is Some <==> spi_rom(addr) is Some,
        block matches Some(bytes) ==> spi_rom(addr) == Some(bytes@),
{
    if addr == 0x60 {
        Some(&SPI_ROM_60)
    } else if addr == 0x80 {
        Some(&SPI_ROM_80)
    } else {
        None
    }
}

/// `weight` when the button is down, 0 otherwise.
pub open spec fn weight_if(down: bool, weight: int) -> int {
    if down {
        weight
    } else {
        0
    }
}

/// The bit at `offset` when the button is down.
pub fn bit_input(input: bool, offset: u8) -> (bits: u8)
    requires
        input ==> offset < 8,
    ensures
        bits == weight_if(input, vstd::arithmetic::power2::pow2(offset as nat) as int),
{
    if input {
        proof {
            vstd::arithmetic::power2::lemma2_to64();
            vstd::bits::lemma_u8_shl_is_mul(1, offset);
        }
        1 << offset
    } else {
        0
    }
}

/// Two 12-bit values in three bytes, least significant nibbles first.
pub open spec fn packed_shorts(short1: u16, short2: u16) -> Seq<u8> {
    seq![
        (short1 % 256) as u8,
        (16 * (short2 % 16) + (short1 / 256) % 16) as u8,
        ((short2 / 16) % 256) as u8,
    ]
}

/// Pack two 12-bit sticks into 3 bytes (little-endian nibbles).
pub fn pack_shorts(short1: u16, short2: u16) -> (bytes: [u8; 3])
    ensures
        bytes@ == packed_shorts(short1, short2),
{
    assert((short1 & 0xff) == short1 % 256) by (bit_vector);
    assert(((short2 << 4) & 0xf0) == 16 * (short2 % 16)) by (bit_vector);
    assert(((short1 >> 8) & 0x0f) == (short1 / 256) % 16) by (bit_vector);
    let high: u16 = (short2 << 4) & 0xf0;
    let low: u16 = (short1 >> 8) & 0x0f;
    assert(((short2 << 4) & 0xf0) & 0xf == 0) by (bit_vector);
    assert((high | low) == high + low) by (bit_vector)
        requires
            high & 0xf == 0,
            low < 16,
    ;
    assert(((short2 >> 4) & 0xff) == (short2 / 16) % 256) by (bit_vector);
    let bytes = [
        (short1 & 0xff) as u8,
        (high | low) as u8,
        ((short2 >> 4) & 0xff) as u8,
    ];
    assert(bytes@ =~= packed_shorts(short1, short2));
    bytes
}

/// The two 12-bit values held by three packed bytes.
pub open spec fn unpacked_shorts(bytes: Seq<u8>) -> (int, int) {
    (bytes[0] + 256 * (bytes[1] % 16), bytes[1] / 16 + 16 * bytes[2])
}

/// Unpacking gives back the low 12 bits of any two values that were packed, so
/// 12-bit values come back whole.
pub proof fn law_shorts_round_trip(short1: u16, short2: u16)
    ensures
        unpacked_shorts(packed_shorts(short1, short2)) == (
            (short1 % 4096) as int,
            (short2 % 4096) as int,
        ),
{
}

/// `v` brought into the 12-bit range.
pub open spec fn clamped(v: i32) -> u16 {
    if v < 0 {
        0
    } else if v > STICK_MAX {
        STICK_MAX as u16
    } else {
        v as u16
    }
}

/// Clamp a stick coordinate into the 12-bit range (0..4095).
pub fn clamp_stick(v: i32) -> (short: u16)
    ensures
        short == clamped(v),
{
    if v < 0 {
        0
    } else if v > STICK_MAX {
        STICK_MAX as u16
    } else {
        v as u16
    }
}

/// Both coordinates of a stick as 12-bit values.
pub fn stick_12bit(s: &Stick) -> (shorts: (u16, u16))
    ensures
        shorts == (clamped(s.x), clamped(s.y)),
{
    (clamp_stick(s.x), clamp_stick(s.y))
}

/// The three bytes of a stick.
pub open spec fn stick_bytes(s: Stick) -> Seq<u8> {
    packed_shorts(clamped(s.x), clamped(s.y))
}

/// Pack a stick into its three bytes.
fn pack_stick(s: &Stick) -> (bytes: [u8; 3])
    ensures
        bytes@ == stick_bytes(*s),
{
    let (x, y) = stick_12bit(s);
    pack_shorts(x, y)
}

/// Six flags on the bits 0, 1, 2, 3, 6 and 7 of a byte.
#[verifier::opaque]
pub open spec fn outer_bits(b0: bool, b1: bool, b2: bool, b3: bool, b6: bool, b7: bool) -> u8 {
    (weight_if(b0, 1) + weight_if(b1, 2) + weight_if(b2, 4) + weight_if(b3, 8) + weight_if(b6, 64)
        + weight_if(b7, 128)) as u8
}

/// Six flags on the bits 0 to 5 of a byte.
#[verifier::opaque]
pub open spec fn inner_bits(b0: bool, b1: bool, b2: bool, b3: bool, b4: bool, b5: bool) -> u8 {
    (weight_if(b0, 1) + weight_if(b1, 2) + weight_if(b2, 4) + weight_if(b3, 8) + weight_if(b4, 16)
        + weight_if(b5, 32)) as u8
}

/// The byte of the face buttons and the right shoulder.
pub open spec fn face_byte(i: SwitchInput) -> u8 {
    outer_bits(i.y, i.x, i.b, i.a, i.r, i.zr)
}

/// The byte of the menu buttons and the stick presses.
pub open spec fn menu_byte(i: SwitchInput) -> u8 {
    inner_bits(i.minus, i.plus, i.right_stick_press, i.left_stick_press, i.home, i.capture)
}

/// The byte of the direction pad and the left shoulder.
pub open spec fn dpad_byte(i: SwitchInput) -> u8 {
    outer_bits(i.dpad_down, i.dpad_up, i.dpad_right, i.dpad_left, i.l, i.zl)
}

/// The 11-byte input buffer of an input.
pub open spec fn input_bytes(i: SwitchInput) -> Seq<u8> {
    buffer(
        face_byte(i),
        menu_byte(i),
        dpad_byte(i),
        stick_bytes(i.left_stick),
        stick_bytes(i.right_stick),
    )
}

/// An input buffer made of three button bytes and two sticks.
pub open spec fn buffer(
    face: u8,
    menu: u8,
    dpad: u8,
    left_stick: Seq<u8>,
    right_stick: Seq<u8>,
) -> Seq<u8> {
    seq![0x81u8, face, menu, dpad] + left_stick + right_stick + seq![0x00u8]
}

/// Six flags on the bits 0, 1, 2, 3, 6 and 7 add up without carries.
proof fn lemma_or_is_sum_outer(b0: u8, b1: u8, b2: u8, b3: u8, b6: u8, b7: u8)
    by (bit_vector)
    requires
        b0 == 0 || b0 == 1,
        b1 == 0 || b1 == 2,
        b2 == 0 || b2 == 4,
        b3 == 0 || b3 == 8,
        b6 == 0 || b6 == 64,
        b7 == 0 || b7 == 128,
    ensures
        b0 | b1 | b2 | b3 | b6 | b7 == b0 + b1 + b2 + b3 + b6 + b7,
{
}

/// Six flags on the bits 0 to 5 add up without carries.
proof fn lemma_or_is_sum_inner(b0: u8, b1: u8, b2: u8, b3: u8, b4: u8, b5: u8)
    by (bit_vector)
    requires
        b0 == 0 || b0 == 1,
        b1 == 0 || b1 == 2,
        b2 == 0 || b2 == 4,
        b3 == 0 || b3 == 8,
        b4 == 0 || b4 == 16,
        b5 == 0 || b5 == 32,
    ensures
        b0 | b1 | b2 | b3 | b4 | b5 == b0 + b1 + b2 + b3 + b4 + b5,
{
}

/// Six flags on the bits 0, 1, 2, 3, 6 and 7.
fn outer_byte(b0: bool, b1: bool, b2: bool, b3: bool, b6: bool, b7: bool) -> (byte: u8)
    ensures
        byte == outer_bits(b0, b1, b2, b3, b6, b7),
{
    proof {
        reveal(outer_bits);
        vstd::arithmetic::power2::lemma2_to64();
    }
    let v0 = bit_input(b0, 0);
    let v1 = bit_input(b1, 1);
    let v2 = bit_input(b2, 2);
    let v3 = bit_input(b3, 3);
    let v6 = bit_input(b6, 6);
    let v7 = bit_input(b7, 7);
    proof {
        lemma_or_is_sum_outer(v0, v1, v2, v3, v6, v7);
    }
    v0 | v1 | v2 | v3 | v6 | v7
}

/// Six flags on the bits 0 to 5.
fn inner_byte(b0: bool, b1: bool, b2: bool, b3: bool, b4: bool, b5: bool) -> (byte: u8)
    ensures
        byte == inner_bits(b0, b1, b2, b3, b4, b5),
{
    proof {
        reveal(inner_bits);
        vstd::arithmetic::power2::lemma2_to64();
    }
    let v0 = bit_input(b0, 0);
    let v1 = bit_input(b1, 1);
    let v2 = bit_input(b2, 2);
    let v3 = bit_input(b3, 3);
    let v4 = bit_input(b4, 4);
    let v5 = bit_input(b5, 5);
    proof {
        lemma_or_is_sum_inner(v0, v1, v2, v3, v4, v5);
    }
    v0 | v1 | v2 | v3 | v4 | v5
}

/// The input buffer of three button bytes and two packed sticks.
fn assemble(
    left: u8,
    center: u8,
    right: u8,
    left_stick: [u8; 3],
    right_stick: [u8; 3],
) -> (bytes: [u8; 11])
    ensures
        bytes@ == buffer(left, center, right, left_stick@, right_stick@),
{
    let bytes = [
        0x81,
        left,
        center,
        right,
        left_stick[0],
        left_stick[1],
        left_stick[2],
        right_stick[0],
        right_stick[1],
        right_stick[2],
        0x00,
    ];
    assert(bytes@ =~= buffer(left, center, right, left_stick@, right_stick@));
    bytes
}

/// A buffer made of an input's bytes is the buffer of the input.
proof fn lemma_buffer_of(
    i: SwitchInput,
    face: u8,
    menu: u8,
    dpad: u8,
    left_stick: Seq<u8>,
    right_stick: Seq<u8>,
    bytes: Seq<u8>,
)
    requires
        face == face_byte(i),
        menu == menu_byte(i),
        dpad == dpad_byte(i),
        left_stick == stick_bytes(i.left_stick),
        right_stick == stick_bytes(i.right_stick),
        bytes == buffer(face, menu, dpad, left_stick, right_stick),
    ensures
        bytes == input_bytes(i),
{
}

/// Encode a `SwitchInput` into the 11-byte `0x81` input buffer.
pub fn encode_input(input: &SwitchInput) -> (bytes: [u8; 11])
    ensures
        bytes@ == input_bytes(*input),
{
    let left = outer_byte(input.y, input.x, input.b, input.a, input.r, input.zr);
    let center = inner_byte(
        input.minus,
        input.plus,
        input.right_stick_press,
        input.left_stick_press,
        input.home,
        input.capture,
    );
    let right = outer_byte(
        input.dpad_down,
        input.dpad_up,
        input.dpad_right,
        input.dpad_left,
        input.l,
        input.zl,
    );
    let left_stick = pack_stick(&input.left_stick);
    let right_stick = pack_stick(&input.right_stick);
    let bytes = assemble(left, center, right, left_stick, right_stick);
    proof {
        lemma_buffer_of(*input, left, center, right, left_stick@, right_stick@, bytes@);
    }
    bytes
}

/// Whether the bit of the given weight is set in `byte`.
#[verifier::opaque]
pub open spec fn has_weight(byte: u8, weight: int) -> bool {
    (byte as int / weight) % 2 == 1
}

/// The input that an input buffer stands for. The buffer holds no battery
/// level; the battery of the result is 0.
pub open spec fn decoded_input(bytes: Seq<u8>) -> SwitchInput {
    let (lx, ly) = unpacked_shorts(bytes.subrange(4, 7));
    let (rx, ry) = unpacked_shorts(bytes.subrange(7, 10));
    SwitchInput {
        y: has_weight(bytes[1], 1),
        x: has_weight(bytes[1], 2),
        b: has_weight(bytes[1], 4),
        a: has_weight(bytes[1], 8),
        r: has_weight(bytes[1], 64),
        zr: has_weight(bytes[1], 128),
        minus: has_weight(bytes[2], 1),
        plus: has_weight(bytes[2], 2),
        right_stick_press: has_weight(bytes[2], 4),
        left_stick_press: has_weight(bytes[2], 8),
        home: has_weight(bytes[2], 16),
        capture: has_weight(bytes[2], 32),
        dpad_down: has_weight(bytes[3], 1),
        dpad_up: has_weight(bytes[3], 2),
        dpad_right: has_weight(bytes[3], 4),
        dpad_left: has_weight(bytes[3], 8),
        l: has_weight(bytes[3], 64),
        zl: has_weight(bytes[3], 128),
        left_stick: Stick { x: lx as i32, y: ly as i32 },
        right_stick: Stick { x: rx as i32, y: ry as i32 },
        battery: 0,
    }
}

/// A stick with both coordinates brought into the 12-bit range.
pub open spec fn clamped_stick(s: Stick) -> Stick {
    Stick { x: clamped(s.x) as i32, y: clamped(s.y) as i32 }
}

/// A flag of weight `weight` can be read back from a byte, whatever stands
/// below it (`low`) and above it (`high`, in units of twice the weight).
proof fn lemma_flag(byte: u8, weight: int, low: int, flag: bool, high: int)
    requires
        0 <= low < weight,
        byte == low + weight_if(flag, weight) + 2 * weight * high,
    ensures
        has_weight(byte, weight) == flag,
{
    reveal(has_weight);
    let quotient: int = weight_if(flag, 1) + 2 * high;
    assert(byte == quotient * weight + low) by (nonlinear_arith)
        requires
            byte == low + weight_if(flag, weight) + 2 * weight * high,
            quotient == weight_if(flag, 1) + 2 * high,
    ;
    vstd::arithmetic::div_mod::lemma_fundamental_div_mod_converse(
        byte as int,
        weight,
        quotient,
        low,
    );
}

/// Each of six flags can be read back from their byte.
proof fn lemma_outer_flags(b0: bool, b1: bool, b2: bool, b3: bool, b6: bool, b7: bool)
    ensures
        ({
            let byte = outer_bits(b0, b1, b2, b3, b6, b7);
            &&& has_weight(byte, 1) == b0
            &&& has_weight(byte, 2) == b1
            &&& has_weight(byte, 4) == b2
            &&& has_weight(byte, 8) == b3
            &&& has_weight(byte, 64) == b6
            &&& has_weight(byte, 128) == b7
        }),
{
    reveal(outer_bits);
    let byte = outer_bits(b0, b1, b2, b3, b6, b7);
    lemma_flag(
        byte,
        1,
        0,
        b0,
        weight_if(b1, 1) + weight_if(b2, 2) + weight_if(b3, 4) + weight_if(b6, 32)
            + weight_if(b7, 64),
    );
    lemma_flag(
        byte,
        2,
        weight_if(b0, 1),
        b1,
        weight_if(b2, 1) + weight_if(b3, 2) + weight_if(b6, 16) + weight_if(b7, 32),
    );
    lemma_flag(
        byte,
        4,
        weight_if(b0, 1) + weight_if(b1, 2),
        b2,
        weight_if(b3, 1) + weight_if(b6, 8) + weight_if(b7, 16),
    );
    lemma_flag(
        byte,
        8,
        weight_if(b0, 1) + weight_if(b1, 2) + weight_if(b2, 4),
        b3,
        weight_if(b6, 4) + weight_if(b7, 8),
    );
    lemma_flag(
        byte,
        64,
        weight_if(b0, 1) + weight_if(b1, 2) + weight_if(b2, 4) + weight_if(b3, 8),
        b6,
        weight_if(b7, 1),
    );
    lemma_flag(
        byte,
        128,
        weight_if(b0, 1) + weight_if(b1, 2) + weight_if(b2, 4) + weight_if(b3, 8)
            + weight_if(b6, 64),
        b7,
        0,
    );
}

/// Each of six flags can be read back from their byte.
proof fn lemma_inner_flags(b0: bool, b1: bool, b2: bool, b3: bool, b4: bool, b5: bool)
    ensures
        ({
            let byte = inner_bits(b0, b1, b2, b3, b4, b5);
            &&& has_weight(byte, 1) == b0
            &&& has_weight(byte, 2) == b1
            &&& has_weight(byte, 4) == b2
            &&& has_weight(byte, 8) == b3
            &&& has_weight(byte, 16) == b4
            &&& has_weight(byte, 32) == b5
        }),
{
    reveal(inner_bits);
    let byte = inner_bits(b0, b1, b2, b3, b4, b5);
    lemma_flag(
        byte,
        1,
        0,
        b0,
        weight_if(b1, 1) + weight_if(b2, 2) + weight_if(b3, 4) + weight_if(b4, 8)
            + weight_if(b5, 16),
    );
    lemma_flag(
        byte,
        2,
        weight_if(b0, 1),
        b1,
        weight_if(b2, 1) + weight_if(b3, 2) + weight_if(b4, 4) + weight_if(b5, 8),
    );
    lemma_flag(
        byte,
        4,
        weight_if(b0, 1) + weight_if(b1, 2),
        b2,
        weight_if(b3, 1) + weight_if(b4, 2) + weight_if(b5, 4),
    );
    lemma_flag(
        byte,
        8,
        weight_if(b0, 1) + weight_if(b1, 2) + weight_if(b2, 4),
        b3,
        weight_if(b4, 1) + weight_if(b5, 2),
    );
    lemma_flag(
        byte,
        16,
        weight_if(b0, 1) + weight_if(b1, 2) + weight_if(b2, 4) + weight_if(b3, 8),
        b4,
        weight_if(b5, 1),
    );
    lemma_flag(
        byte,
        32,
        weight_if(b0, 1) + weight_if(b1, 2) + weight_if(b2, 4) + weight_if(b3, 8)
            + weight_if(b4, 16),
        b5,
        0,
    );
}

/// A stick can be read back from its bytes, clamped.
proof fn lemma_stick_round_trip(s: Stick)
    ensures
        stick_bytes(s).len() == 3,
        unpacked_shorts(stick_bytes(s)) == (clamped(s.x) as int, clamped(s.y) as int),
{
    law_shorts_round_trip(clamped(s.x), clamped(s.y));
}

/// What an input buffer carries of an input: every button, and the sticks
/// clamped; not the battery.
pub open spec fn carried_input(i: SwitchInput) -> SwitchInput {
    SwitchInput {
        left_stick: clamped_stick(i.left_stick),
        right_stick: clamped_stick(i.right_stick),
        battery: 0,
        ..i
    }
}

/// What a buffer decodes to, given what its parts hold.
proof fn lemma_decode_parts(
    i: SwitchInput,
    face: u8,
    menu: u8,
    dpad: u8,
    left_stick: Seq<u8>,
    right_stick: Seq<u8>,
    bytes: Seq<u8>,
)
    requires
        bytes == buffer(face, menu, dpad, left_stick, right_stick),
        i.battery == 0,
        has_weight(face, 1) == i.y,
        has_weight(face, 2) == i.x,
        has_weight(face, 4) == i.b,
        has_weight(face, 8) == i.a,
        has_weight(face, 64) == i.r,
        has_weight(face, 128) == i.zr,
        has_weight(menu, 1) == i.minus,
        has_weight(menu, 2) == i.plus,
        has_weight(menu, 4) == i.right_stick_press,
        has_weight(menu, 8) == i.left_stick_press,
        has_weight(menu, 16) == i.home,
        has_weight(menu, 32) == i.capture,
        has_weight(dpad, 1) == i.dpad_down,
        has_weight(dpad, 2) == i.dpad_up,
        has_weight(dpad, 4) == i.dpad_right,
        has_weight(dpad, 8) == i.dpad_left,
        has_weight(dpad, 64) == i.l,
        has_weight(dpad, 128) == i.zl,
        left_stick.len() == 3,
        right_stick.len() == 3,
        unpacked_shorts(left_stick) == (i.left_stick.x as int, i.left_stick.y as int),
        unpacked_shorts(right_stick) == (i.right_stick.x as int, i.right_stick.y as int),
    ensures
        decoded_input(bytes) == i,
{
    assert(bytes.subrange(4, 7) =~= left_stick);
    assert(bytes.subrange(7, 10) =~= right_stick);
}

/// The input buffer holds every button and both clamped sticks: the host can
/// read them all back.
pub proof fn law_input_round_trip(i: SwitchInput)
    ensures
        decoded_input(input_bytes(i)) == carried_input(i),
{
    lemma_stick_round_trip(i.left_stick);
    lemma_stick_round_trip(i.right_stick);
    lemma_outer_flags(i.y, i.x, i.b, i.a, i.r, i.zr);
    lemma_inner_flags(
        i.minus,
        i.plus,
        i.right_stick_press,
        i.left_stick_press,
        i.home,
        i.capture,
    );
    lemma_outer_flags(i.dpad_down, i.dpad_up, i.dpad_right, i.dpad_left, i.l, i.zl);
    lemma_decode_parts(
        carried_input(i),
        face_byte(i),
        menu_byte(i),
        dpad_byte(i),
        stick_bytes(i.left_stick),
        stick_bytes(i.right_stick),
        input_bytes(i),
    );
}

/// Whether both coordinates of a stick are in the 12-bit range.
pub open spec fn in_range(s: Stick) -> bool {
    0 <= s.x <= STICK_MAX && 0 <= s.y <= STICK_MAX
}

/// Inputs that differ in a button or in a stick position encode differently.
pub proof fn law_input_injective(i: SwitchInput, j: SwitchInput)
    requires
        in_range(i.left_stick),
        in_range(i.right_stick),
        in_range(j.left_stick),
        in_range(j.right_stick),
        input_bytes(i) == input_bytes(j),
    ensures
        i == (SwitchInput { battery: i.battery, ..j }),
{
    law_input_round_trip(i);
    law_input_round_trip(j);
}

/// A 64-byte report: two header bytes, at most 62 bytes of the payload, and
/// zeros.
pub open spec fn packet_bytes(ack: u8, cmd: u8, payload: Seq<u8>) -> Seq<u8> {
    let carried = if payload.len() > PAYLOAD_MAX {
        payload.take(PAYLOAD_MAX as int)
    } else {
        payload
    };
    seq![ack, cmd] + carried + Seq::new((PAYLOAD_MAX - carried.len()) as nat, |i: int| 0u8)
}

/// Every packet is exactly one report long, whatever its payload.
pub proof fn law_packet_length(ack: u8, cmd: u8, payload: Seq<u8>)
    ensures
        packet_bytes(ack, cmd, payload).len() == REPORT_LEN,
{
}

/// Build a 64-byte output packet: `[ack, cmd, payload..., pad]`. A payload
/// of more than 62 bytes is cut, so that the packet never spills into a
/// second report.
pub fn packet(ack: u8, cmd: u8, payload: &[u8]) -> (data: Vec<u8>)
    ensures
        data@ == packet_bytes(ack, cmd, payload@),
{
    let mut data: Vec<u8> = Vec::with_capacity(REPORT_LEN);
    data.push(ack);
    data.push(cmd);
    let ghost mut carried = payload@;
    if payload.len() > PAYLOAD_MAX {
        data.extend_from_slice(&payload[0..PAYLOAD_MAX]);
        proof {
            carried = payload@.take(PAYLOAD_MAX as int);
        }
    } else {
        data.extend_from_slice(payload);
    }
    assert(data@ =~= seq![ack, cmd] + carried);
    while data.len() < REPORT_LEN
        invariant
            2 + carried.len() <= data@.len() <= REPORT_LEN,
            data@ == seq![ack, cmd] + carried + Seq::new(
                (data@.len() - 2 - carried.len()) as nat,
                |i: int| 0u8,
            ),
        decreases REPORT_LEN - data@.len(),
    {
        data.push(0);
    }
    data
}

/// The `0x30` input report of an input: battery and connection in byte 2,
/// the vibrator byte in byte 12.
pub open spec fn input_report_bytes(count: u8, input: SwitchInput) -> Seq<u8> {
    packet_bytes(0x30, count, input_bytes(input)).update(2, input.battery).update(
        12,
        VIBRATOR_BYTE,
    )
}

/// Build a full `0x30` input report: `[0x30, count, input_buffer, pad]`.
pub fn input_report(count: u8, input: &SwitchInput) -> (report: Vec<u8>)
    ensures
        report@ == input_report_bytes(count, *input),
{
    let input_buffer = encode_input(input);
    let mut report = packet(0x30, count, &input_buffer);
    proof {
        law_packet_length(0x30, count, input_bytes(*input));
    }
    report[2] = input.battery;
    report[12] = VIBRATOR_BYTE;
    report
}

/// What the host reads out of an input report.
pub open spec fn reported_input(report: Seq<u8>) -> SwitchInput {
    SwitchInput { battery: report[2], ..decoded_input(report.subrange(2, 13)) }
}

/// What an input report carries of an input: everything, the sticks clamped.
pub open spec fn reported(i: SwitchInput) -> SwitchInput {
    SwitchInput { battery: i.battery, ..carried_input(i) }
}

/// The host reads every button, both clamped sticks and the battery back from
/// an input report. The report has no motion data: zeros stand in its place.
pub proof fn law_report_round_trip(count: u8, i: SwitchInput)
    ensures
        reported_input(input_report_bytes(count, i)) == reported(i),
        input_report_bytes(count, i).len() == REPORT_LEN,
        input_report_bytes(count, i)[0] == 0x30,
        input_report_bytes(count, i)[1] == count,
        input_report_bytes(count, i)[12] == VIBRATOR_BYTE,
        forall|k: int| 13 <= k < REPORT_LEN ==> #[trigger] input_report_bytes(count, i)[k] == 0,
{
    let report = input_report_bytes(count, i);
    let bytes = report.subrange(2, 13);
    let plain = input_bytes(i);
    law_input_round_trip(i);
    assert forall|k: int| 1 <= k < 10 implies #[trigger] bytes[k] == plain[k] by {}
    assert(bytes.subrange(4, 7) =~= plain.subrange(4, 7));
    assert(bytes.subrange(7, 10) =~= plain.subrange(7, 10));
}

/// The two handshake packets sent on connect.
pub open spec fn handshake() -> Seq<Seq<u8>> {
    seq![
        packet_bytes(0x81, 0x03, Seq::<u8>::empty()),
        packet_bytes(0x81, 0x01, seq![0x00u8, 0x03u8]),
    ]
}

/// The two handshake packets sent on connect.
pub fn handshake_packets() -> (packets: Vec<Vec<u8>>)
    ensures
        packets@.len() == handshake().len(),
        forall|i: int| 0 <= i < packets@.len() ==> (#[trigger] packets@[i])@ == handshake()[i],
{
    let empty: [u8; 0] = [];
    let greeting: [u8; 2] = [0x00, 0x03];
    assert(empty@ =~= Seq::<u8>::empty());
    assert(greeting@ =~= seq![0x00u8, 0x03u8]);
    let mut packets: Vec<Vec<u8>> = Vec::new();
    packets.push(packet(0x81, 0x03, &empty));
    packets.push(packet(0x81, 0x01, &greeting));
    packets
}

/// The acknowledge byte of a subcommand reply: negative, positive without
/// data, or positive with data of the subcommand's kind.
pub open spec fn ack_byte(ack: bool, sub_cmd: u8, has_data: bool) -> u8 {
    if !ack {
        0x00
    } else if has_data {
        0x80 | sub_cmd
    } else {
        0x80
    }
}

/// A `0x21` subcommand reply: input buffer, acknowledge byte, subcommand,
/// data.
pub open spec fn subcommand_bytes(
    count: u8,
    input: SwitchInput,
    ack: bool,
    sub_cmd: u8,
    data: Seq<u8>,
) -> Seq<u8> {
    packet_bytes(
        0x21,
        count,
        input_bytes(input) + seq![ack_byte(ack, sub_cmd, data.len() > 0), sub_cmd] + data,
    )
}

/// Build a `0x21` subcommand response: input buffer + ack + subcommand + data.
pub fn subcommand_response(
    count: u8,
    input: &SwitchInput,
    ack: bool,
    sub_cmd: u8,
    data: &[u8],
) -> (report: Vec<u8>)
    ensures
        report@ == subcommand_bytes(count, *input, ack, sub_cmd, data@),
{
    let input_buffer = encode_input(input);
    let mut buf: Vec<u8> = Vec::new();
    buf.extend_from_slice(&input_buffer);
    let ghost prefix = input_bytes(*input);
    assert(buf@ =~= input_buffer@);
    let byte: u8 = if ack {
        if data.len() == 0 {
            0x80
        } else {
            0x80 | sub_cmd
        }
    } else {
        0x00
    };
    buf.push(byte);
    buf.push(sub_cmd);
    let ghost header = buf@;
    buf.extend_from_slice(data);
    assert(buf@ =~= header + data@);
    assert(header =~= prefix + seq![byte, sub_cmd]);
    packet(0x21, count, &buf)
}

/// The MAC address of a slot.
pub open spec fn mac(slot: usize) -> Seq<u8> {
    seq![0x00u8, 0x00u8, 0x5eu8, 0x00u8, 0x53u8, ((0x5e + 1 + slot) % 256) as u8]
}

/// Per-slot MAC address, derived from the slot index so that no two slots
/// (and no slot and the base address) collide.
pub fn slot_mac(slot: usize) -> (address: [u8; 6])
    ensures
        address@ == mac(slot),
{
    let offset: u8 = (slot % 256) as u8;
    let address: [u8; 6] = [
        0x00,
        0x00,
        0x5e,
        0x00,
        0x53,
        0x5eu8.wrapping_add(1).wrapping_add(offset),
    ];
    assert(address@ =~= mac(slot));
    address
}

/// Slots have distinct MAC addresses, up to 256 slots, and but for the last of
/// those none has the base address that ends in 0x5e.
pub proof fn law_macs_distinct(slot: usize, other: usize)
    ensures
        mac(slot) == mac(other) <==> slot % 256 == other % 256,
        mac(slot)[5] == 0x5e <==> slot % 256 == 255,
{
    if slot % 256 != other % 256 {
        assert(mac(slot)[5] != mac(other)[5]);
    }
}

/// The reply to host command `0x80/0x01`: device type and MAC address.
pub open spec fn device_info_bytes(slot: usize, cmd: u8) -> Seq<u8> {
    packet_bytes(0x81, cmd, seq![0x00u8, 0x03u8] + mac(slot))
}

/// Device-info response for `0x80/0x01`.
pub fn device_info_response(slot: usize, cmd: u8) -> (report: Vec<u8>)
    ensures
        report@ == device_info_bytes(slot, cmd),
{
    let mut payload: Vec<u8> = vec![0x00, 0x03];
    let address = slot_mac(slot);
    payload.extend_from_slice(&address);
    assert(payload@ =~= seq![0x00u8, 0x03u8] + mac(slot));
    packet(0x81, cmd, &payload)
}

/// Simple-ack response for `0x80/0x02` and `0x80/0x03`.
pub fn simple_ack_response(cmd: u8) -> (report: Vec<u8>)
    ensures
        report@ == packet_bytes(0x81, cmd, Seq::<u8>::empty()),
{
    let empty: [u8; 0] = [];
    assert(empty@ =~= Seq::<u8>::empty());
    packet(0x81, cmd, &empty)
}

/// The data of a reply to subcommand `0x21`.
pub open spec fn report_mode_data() -> Seq<u8> {
    seq![0x01u8, 0x00u8, 0xffu8, 0x00u8, 0x03u8, 0x00u8, 0x05u8, 0x01u8]
}

/// Response for subcommand `0x21` (set report mode).
pub fn set_report_mode_response(count: u8, input: &SwitchInput, sub_cmd: u8) -> (report: Vec<u8>)
    ensures
        report@ == subcommand_bytes(count, *input, true, sub_cmd, report_mode_data()),
{
    let data: [u8; 8] = [0x01, 0x00, 0xff, 0x00, 0x03, 0x00, 0x05, 0x01];
    assert(data@ =~= report_mode_data());
    subcommand_response(count, input, true, sub_cmd, &data)
}

/// The data of a reply to subcommand `0x01`.
pub open spec fn pairing_data() -> Seq<u8> {
    seq![0x03u8, 0x01u8]
}

/// Response for subcommand `0x01` (Bluetooth manual pairing).
pub fn pairing_response(count: u8, input: &SwitchInput, sub_cmd: u8) -> (report: Vec<u8>)
    ensures
        report@ == subcommand_bytes(count, *input, true, sub_cmd, pairing_data()),
{
    let data: [u8; 2] = [0x03, 0x01];
    assert(data@ =~= pairing_data());
    subcommand_response(count, input, true, sub_cmd, &data)
}

/// The data of a reply to subcommand `0x02`: firmware version, controller
/// type, MAC address, and the colours flag.
pub open spec fn device_info_data(slot: usize) -> Seq<u8> {
    seq![0x03u8, 0x48u8, 0x03u8, 0x02u8] + mac(slot) + seq![0x03u8, 0x01u8]
}

/// Response for subcommand `0x02` (request device info).
pub fn device_info_subcommand_response(
    count: u8,
    input: &SwitchInput,
    slot: usize,
    sub_cmd: u8,
) -> (report: Vec<u8>)
    ensures
        report@ == subcommand_bytes(count, *input, true, sub_cmd, device_info_data(slot)),
{
    let mut data: Vec<u8> = vec![0x03, 0x48, 0x03, 0x02];
    let address = slot_mac(slot);
    data.extend_from_slice(&address);
    data.push(0x03);
    data.push(0x01);
    assert(data@ =~= device_info_data(slot));
    subcommand_response(count, input, true, sub_cmd, &data)
}

/// The data of a reply to an SPI read: the request's address and length, and
/// the bytes read. `None` when the request is cut short, names no block, or
/// runs past the end of its block.
pub open spec fn spi_read_data(report: Seq<u8>) -> Option<Seq<u8>> {
    if report.len() < 16 {
        None
    } else {
        match spi_rom(report[12]) {
            None => None,
            Some(block) => if report[11] + report[15] > block.len() {
                None
            } else {
                Some(
                    report.subrange(11, 16) + block.subrange(
                        report[11] as int,
                        report[11] + report[15],
                    ),
                )
            },
        }
    }
}

/// Build an SPI ROM read response. Returns `None` if the request is
/// malformed or out of range.
pub fn spi_read_response(count: u8, input: &SwitchInput, report: &[u8]) -> (response: Option<
    Vec<u8>,
>)
    ensures
        response is Some <==> spi_read_data(report@) is Some,
        response matches Some(reply) ==> reply@ == subcommand_bytes(
            count,
            *input,
            true,
            report@[10],
            spi_read_data(report@)->0,
        ),
{
    if report.len() < 16 {
        return None;
    }
    let start: usize = report[11] as usize;
    let len: usize = report[15] as usize;
    let block = match spi_data(report[12]) {
        Some(block) => block,
        None => return None,
    };
    let end: usize = start + len;
    if end > block.len() {
        return None;
    }
    let mut resp: Vec<u8> = Vec::new();
    resp.extend_from_slice(&report[11..16]);
    resp.extend_from_slice(&block[start..end]);
    assert(resp@ =~= spi_read_data(report@)->0);
    Some(subcommand_response(count, input, true, report[10], &resp))
}

/// Every subcommand reply is one report that carries the counter, the input
/// buffer, the acknowledge byte, the subcommand it answers and then the data,
/// cut or padded with zeros.
pub proof fn law_subcommand_layout(
    count: u8,
    input: SwitchInput,
    ack: bool,
    sub_cmd: u8,
    data: Seq<u8>,
)
    ensures
        ({
            let reply = subcommand_bytes(count, input, ack, sub_cmd, data);
            &&& reply.len() == REPORT_LEN
            &&& reply[0] == 0x21
            &&& reply[1] == count
            &&& reply.subrange(2, 13) == input_bytes(input)
            &&& reply[13] == ack_byte(ack, sub_cmd, data.len() > 0)
            &&& reply[14] == sub_cmd
            &&& forall|j: int|
                15 <= j < REPORT_LEN ==> #[trigger] reply[j] == if j - 15 < data.len() {
                    data[j - 15]
                } else {
                    0
                }
        }),
{
}

/// A stick coordinate in the 12-bit range is reported as it is, one outside it
/// as the nearer end, and further right (or up) is never reported as further
/// left (or down).
pub proof fn law_clamp(v: i32, w: i32)
    requires
        v <= w,
    ensures
        0 <= v <= 4095 ==> clamped(v) == v,
        v < 0 ==> clamped(v) == 0,
        v > 4095 ==> clamped(v) == 4095,
        clamped(v) <= clamped(w),
{
}

/// For an input whose sticks are in range, the host reads back exactly the
/// input, whatever the number of the report.
pub proof fn law_report_gives_input_back(count: u8, i: SwitchInput)
    requires
        0 <= i.left_stick.x <= 4095 && 0 <= i.left_stick.y <= 4095,
        0 <= i.right_stick.x <= 4095 && 0 <= i.right_stick.y <= 4095,
    ensures
        reported_input(input_report_bytes(count, i)) == i,
{
    law_report_round_trip(count, i);
    assert(clamped_stick(i.left_stick) == i.left_stick);
    assert(clamped_stick(i.right_stick) == i.right_stick);
}

/// Three packed bytes hold the low 12 bits of the first value in their first
/// three nibbles and those of the second in their last three, low nibbles
/// first.
pub proof fn law_packed_nibbles(short1: u16, short2: u16)
    ensures
        ({
            let b = packed_shorts(short1, short2);
            &&& b.len() == 3
            &&& b[0] + 256 * (b[1] % 16) == short1 % 4096
            &&& b[1] / 16 + 16 * b[2] == short2 % 4096
        }),
{
}

/// Where each button and stick stands in the input buffer: a byte is the sum
/// of the weights of the buttons that are pressed.
pub proof fn law_buffer_layout(i: SwitchInput)
    ensures
        ({
            let b = input_bytes(i);
            &&& b.len() == 11
            &&& b[0] == 0x81
            &&& b[1] == (if i.y { 1int } else { 0 }) + (if i.x { 2int } else { 0 }) + (if i.b {
                4int
            } else {
                0
            }) + (if i.a { 8int } else { 0 }) + (if i.r { 64int } else { 0 }) + (if i.zr {
                128int
            } else {
                0
            })
            &&& b[2] == (if i.minus { 1int } else { 0 }) + (if i.plus { 2int } else { 0 }) + (
            if i.right_stick_press { 4int } else { 0 }) + (if i.left_stick_press {
                8int
            } else {
                0
            }) + (if i.home { 16int } else { 0 }) + (if i.capture { 32int } else { 0 })
            &&& b[3] == (if i.dpad_down { 1int } else { 0 }) + (if i.dpad_up { 2int } else { 0 })
                + (if i.dpad_right { 4int } else { 0 }) + (if i.dpad_left { 8int } else { 0 }) + (
            if i.l { 64int } else { 0 }) + (if i.zl { 128int } else { 0 })
            &&& 0 <= i.left_stick.x <= 4095 ==> b[4] + 256 * (b[5] % 16) == i.left_stick.x
            &&& 0 <= i.left_stick.y <= 4095 ==> b[5] / 16 + 16 * b[6] == i.left_stick.y
            &&& 0 <= i.right_stick.x <= 4095 ==> b[7] + 256 * (b[8] % 16) == i.right_stick.x
            &&& 0 <= i.right_stick.y <= 4095 ==> b[8] / 16 + 16 * b[9] == i.right_stick.y
            &&& b[10] == 0
        }),
{
    let l = i.left_stick;
    let r = i.right_stick;
    lemma_outer_sum(i.y, i.x, i.b, i.a, i.r, i.zr);
    lemma_inner_sum(
        i.minus,
        i.plus,
        i.right_stick_press,
        i.left_stick_press,
        i.home,
        i.capture,
    );
    lemma_outer_sum(i.dpad_down, i.dpad_up, i.dpad_right, i.dpad_left, i.l, i.zl);
    lemma_stick_parts(l);
    lemma_stick_parts(r);
    lemma_buffer_parts(
        face_byte(i),
        menu_byte(i),
        dpad_byte(i),
        stick_bytes(l),
        stick_bytes(r),
    );
}

/// The weights of the bits 0, 1, 2, 3, 6 and 7.
proof fn lemma_outer_sum(b0: bool, b1: bool, b2: bool, b3: bool, b6: bool, b7: bool)
    ensures
        outer_bits(b0, b1, b2, b3, b6, b7) == (if b0 { 1int } else { 0 }) + (if b1 {
            2int
        } else {
            0
        }) + (if b2 { 4int } else { 0 }) + (if b3 { 8int } else { 0 }) + (if b6 {
            64int
        } else {
            0
        }) + (if b7 { 128int } else { 0 }),
{
    reveal(outer_bits);
}

/// The weights of the bits 0 to 5.
proof fn lemma_inner_sum(b0: bool, b1: bool, b2: bool, b3: bool, b4: bool, b5: bool)
    ensures
        inner_bits(b0, b1, b2, b3, b4, b5) == (if b0 { 1int } else { 0 }) + (if b1 {
            2int
        } else {
            0
        }) + (if b2 { 4int } else { 0 }) + (if b3 { 8int } else { 0 }) + (if b4 {
            16int
        } else {
            0
        }) + (if b5 { 32int } else { 0 }),
{
    reveal(inner_bits);
}

/// The coordinates in the three bytes of a stick.
proof fn lemma_stick_parts(s: Stick)
    ensures
        stick_bytes(s).len() == 3,
        0 <= s.x <= 4095 ==> stick_bytes(s)[0] + 256 * (stick_bytes(s)[1] % 16) == s.x,
        0 <= s.y <= 4095 ==> stick_bytes(s)[1] / 16 + 16 * stick_bytes(s)[2] == s.y,
{
    law_packed_nibbles(clamped(s.x), clamped(s.y));
}

/// The parts of an input buffer stand one behind the other.
proof fn lemma_buffer_parts(
    face: u8,
    menu: u8,
    dpad: u8,
    left_stick: Seq<u8>,
    right_stick: Seq<u8>,
)
    requires
        left_stick.len() == 3,
        right_stick.len() == 3,
    ensures
        ({
            let b = buffer(face, menu, dpad, left_stick, right_stick);
            &&& b.len() == 11
            &&& b[0] == 0x81
            &&& b[1] == face
            &&& b[2] == menu
            &&& b[3] == dpad
            &&& b[4] == left_stick[0] && b[5] == left_stick[1] && b[6] == left_stick[2]
            &&& b[7] == right_stick[0] && b[8] == right_stick[1] && b[9] == right_stick[2]
            &&& b[10] == 0
        }),
{
}

/// An input report is 64 bytes: the mark `0x30`, its number, the battery, the
/// input buffer from its second byte to its last but one, the vibrator byte
/// `0x09`, and zeros.
pub proof fn law_input_report_layout(count: u8, i: SwitchInput)
    ensures
        ({
            let r = input_report_bytes(count, i);
            &&& r.len() == 64
            &&& r[0] == 0x30
            &&& r[1] == count
            &&& r[2] == i.battery
            &&& r[12] == 0x09
            &&& forall|k: int| 3 <= k < 12 ==> #[trigger] r[k] == input_bytes(i)[k - 2]
            &&& forall|k: int| 13 <= k < 64 ==> #[trigger] r[k] == 0
        }),
{
}

/// A packet is 64 bytes: two header bytes, then the payload as far as it fits,
/// then zeros.
pub proof fn law_packet_layout(ack: u8, cmd: u8, payload: Seq<u8>)
    ensures
        ({
            let p = packet_bytes(ack, cmd, payload);
            &&& p.len() == 64
            &&& p[0] == ack
            &&& p[1] == cmd
            &&& forall|k: int|
                2 <= k < 64 ==> #[trigger] p[k] == if k - 2 < payload.len() {
                    payload[k - 2]
                } else {
                    0
                }
        }),
{
}

/// The handshake is the two packets `81 03` and `81 01 00 03`, padded with
/// zeros.
pub proof fn law_handshake()
    ensures
        handshake().len() == 2,
        handshake()[0].len() == 64 && handshake()[1].len() == 64,
        handshake()[0][0] == 0x81 && handshake()[0][1] == 0x03,
        handshake()[1][0] == 0x81 && handshake()[1][1] == 0x01,
        handshake()[1][2] == 0x00 && handshake()[1][3] == 0x03,
        forall|k: int| 2 <= k < 64 ==> #[trigger] handshake()[0][k] == 0,
        forall|k: int| 4 <= k < 64 ==> #[trigger] handshake()[1][k] == 0,
{
}

/// A refused subcommand is answered by 0, one without data by `0x80`, and one
/// with data by its own number with the top bit set.
pub proof fn law_acknowledge_byte(ack: bool, sub_cmd: u8, has_data: bool)
    ensures
        !ack ==> ack_byte(ack, sub_cmd, has_data) == 0,
        ack && !has_data ==> ack_byte(ack, sub_cmd, has_data) == 0x80,
        ack && has_data ==> ack_byte(ack, sub_cmd, has_data) == 128 + sub_cmd % 128,
{
    assert(0x80u8 | sub_cmd == 128 + sub_cmd % 128) by (bit_vector);
}

/// A slot's address is 00:00:5e:00:53 and one byte that counts the slots from
/// 0x5f up.
pub proof fn law_mac(slot: usize)
    ensures
        mac(slot).len() == 6,
        mac(slot)[0] == 0x00 && mac(slot)[1] == 0x00 && mac(slot)[2] == 0x5e,
        mac(slot)[3] == 0x00 && mac(slot)[4] == 0x53,
        slot <= 160 ==> mac(slot)[5] == 0x5f + slot,
        mac(slot)[5] == (0x5f + slot) % 256,
{
}

/// The device info is the mark `0x81`, the command, the type `00 03`, the
/// slot's address and zeros.
pub proof fn law_device_info_layout(slot: usize, cmd: u8)
    ensures
        ({
            let r = device_info_bytes(slot, cmd);
            &&& r.len() == 64
            &&& r[0] == 0x81
            &&& r[1] == cmd
            &&& r[2] == 0x00
            &&& r[3] == 0x03
            &&& r[4] == 0x00 && r[5] == 0x00 && r[6] == 0x5e && r[7] == 0x00 && r[8] == 0x53
            &&& r[9] == (0x5f + slot) % 256
            &&& forall|k: int| 10 <= k < 64 ==> #[trigger] r[k] == 0
        }),
{
}

/// The ROM has two blocks, of 176 bytes at 0x6000 and of 64 bytes at 0x8000. A
/// read within one of them is answered with the five bytes of the request and
/// then exactly the bytes asked for; every other read is refused.
pub proof fn law_spi_read(report: Seq<u8>)
    ensures
        ({
            let answer = spi_read_data(report);
            let size: int = if report[12] == 0x60 {
                176
            } else if report[12] == 0x80 {
                64
            } else {
                -1
            };
            let rom = if report[12] == 0x60 {
                SPI_ROM_60@
            } else {
                SPI_ROM_80@
            };
            &&& answer is Some <==> report.len() >= 16 && report[11] + report[15] <= size
            &&& answer matches Some(data) ==> {
                &&& data.len() == 5 + report[15]
                &&& forall|k: int| 0 <= k < 5 ==> #[trigger] data[k] == report[11 + k]
                &&& forall|k: int|
                    5 <= k < data.len() ==> #[trigger] data[k] == rom[report[11] + k - 5]
            }
        }),
{
    if let Some(data) = spi_read_data(report) {
        let head = report.subrange(11, 16);
        assert forall|k: int| 0 <= k < 5 implies #[trigger] data[k] == report[11 + k] by {
            assert(data[k] == head[k]);
        }
    }
}

/// The 16-bit value at `k`, low byte first.
pub open spec fn short_at(bytes: Seq<u8>, k: int) -> int {
    bytes[k] + 256 * bytes[k + 1]
}

/// The two 12-bit values in the three bytes from `k` on.
pub open spec fn nibbles_at(bytes: Seq<u8>, k: int) -> (int, int) {
    (bytes[k] + 256 * (bytes[k + 1] % 16), bytes[k + 1] / 16 + 16 * bytes[k + 2])
}

/// The factory block: no serial number, the controller's kind and colours flag,
/// the motion sensors' calibration from 0x6020, that of the sticks from 0x603d,
/// the body colour at 0x6050, the motion offsets at 0x6080 and the same stick
/// parameters twice from 0x6086. Everything else is erased.
pub proof fn law_factory_rom(k: int)
    ensures
        SPI_ROM_60@.len() == 176,
        0 <= k < 176 && !(0x12 <= k < 0x14) && k != 0x1b && !(0x20 <= k < 0x38) && !(0x3d <= k
            < 0x53) && !(0x80 <= k < 0xaa) ==> SPI_ROM_60@[k] == 0xff,
        SPI_ROM_60@[0x12] == 0x03 && SPI_ROM_60@[0x13] == 0xa0 && SPI_ROM_60@[0x1b] == 0x02,
        short_at(SPI_ROM_60@, 0x20) == 0xfff0,
        short_at(SPI_ROM_60@, 0x22) == 0x89,
        short_at(SPI_ROM_60@, 0x24) == 0x1f0,
        short_at(SPI_ROM_60@, 0x26) == 0x4000,
        short_at(SPI_ROM_60@, 0x28) == 0x4000,
        short_at(SPI_ROM_60@, 0x2a) == 0x4000,
        short_at(SPI_ROM_60@, 0x2c) == 0xfff9,
        short_at(SPI_ROM_60@, 0x2e) == 0x6,
        short_at(SPI_ROM_60@, 0x30) == 0x9,
        short_at(SPI_ROM_60@, 0x32) == 0x3be7,
        short_at(SPI_ROM_60@, 0x34) == 0x3be7,
        short_at(SPI_ROM_60@, 0x36) == 0x3be7,
        nibbles_at(SPI_ROM_60@, 0x3d) == (0x5baint, 0x621int),
        nibbles_at(SPI_ROM_60@, 0x40) == (0x811int, 0x7fbint),
        nibbles_at(SPI_ROM_60@, 0x43) == (0x629int, 0x5b0int),
        nibbles_at(SPI_ROM_60@, 0x46) == (0x7ffint, 0x7eeint),
        nibbles_at(SPI_ROM_60@, 0x49) == (0x60eint, 0x563int),
        nibbles_at(SPI_ROM_60@, 0x4c) == (0x59eint, 0x608int),
        SPI_ROM_60@[0x4f] == 0xff,
        SPI_ROM_60@[0x50] == 0x32 && SPI_ROM_60@[0x51] == 0x32 && SPI_ROM_60@[0x52] == 0x32,
        short_at(SPI_ROM_60@, 0x80) == 0xfd50,
        short_at(SPI_ROM_60@, 0x82) == 0x0,
        short_at(SPI_ROM_60@, 0x84) == 0xfc6,
        nibbles_at(SPI_ROM_60@, 0x86) == (0xfint, 0x613int),
        nibbles_at(SPI_ROM_60@, 0x89) == (0x96int, 0xf33int),
        nibbles_at(SPI_ROM_60@, 0x8c) == (0x4d4int, 0x541int),
        nibbles_at(SPI_ROM_60@, 0x8f) == (0x541int, 0x541int),
        nibbles_at(SPI_ROM_60@, 0x92) == (0x9c7int, 0x9c7int),
        nibbles_at(SPI_ROM_60@, 0x95) == (0x633int, 0x633int),
        0x98 <= k < 0xaa ==> SPI_ROM_60@[k] == SPI_ROM_60@[k - 0x12],
{
}

/// The user block: erased up to 0x8026, where the calibration mark `b2 a1`
/// announces the motion sensors' calibration, which fills the rest.
pub proof fn law_user_rom(k: int)
    ensures
        SPI_ROM_80@.len() == 64,
        0 <= k < 0x26 ==> SPI_ROM_80@[k] == 0xff,
        SPI_ROM_80@[0x26] == 0xb2 && SPI_ROM_80@[0x27] == 0xa1,
        short_at(SPI_ROM_80@, 0x28) == 0xffbe,
        short_at(SPI_ROM_80@, 0x2a) == 0x3e,
        short_at(SPI_ROM_80@, 0x2c) == 0x1f0,
        short_at(SPI_ROM_80@, 0x2e) == 0x4000,
        short_at(SPI_ROM_80@, 0x30) == 0x4000,
        short_at(SPI_ROM_80@, 0x32) == 0x4000,
        short_at(SPI_ROM_80@, 0x34) == 0xfffe,
        short_at(SPI_ROM_80@, 0x36) == 0xfffe,
        short_at(SPI_ROM_80@, 0x38) == 0x8,
        short_at(SPI_ROM_80@, 0x3a) == 0x3be7,
        short_at(SPI_ROM_80@, 0x3c) == 0x3be7,
        short_at(SPI_ROM_80@, 0x3e) == 0x3be7,
{
}

/// The high byte of an address names one of the two blocks, or none.
pub proof fn law_rom_blocks(addr: u8)
    ensures
        spi_rom(addr) is Some <==> addr == 0x60 || addr == 0x80,
        addr == 0x60 ==> spi_rom(addr) == Some(SPI_ROM_60@),
        addr == 0x80 ==> spi_rom(addr) == Some(SPI_ROM_80@),
{
}

/// A button counts with its whole weight while it is down and not at all
/// otherwise.
pub proof fn law_weight(down: bool, weight: int)
    ensures
        down ==> weight_if(down, weight) == weight,
        !down ==> weight_if(down, weight) == 0,
{
}

} // verus!
