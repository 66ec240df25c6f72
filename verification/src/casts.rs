//! Bitcasts between core-wasm slots, and the numeric meaning of the scalar
//! conversion instructions.
//!
//! A bitcast reinterprets raw bits when the core slot and the component-level
//! scalar disagree (an `f32` carried in an `i32` slot): it is rendered through
//! a union-typed reinterpretation helper, never a numeric conversion. The
//! `lift_*`/`lower_*` functions state what the casts emitted for the integer
//! conversion instructions compute: widening is value-preserving, narrowing
//! truncates via two's-complement wraparound. The proof functions state the
//! round-trip laws.

use vstd::prelude::*;

verus! {

/// A reinterpretation between core-wasm slot types. `L` is a length slot, `P`
/// a pointer slot, `P64` a pointer-or-64-bit slot.
pub enum Bitcast {
    F32ToI32,
    F64ToI64,
    I32ToI64,
    F32ToI64,
    I32ToF32,
    I64ToF64,
    I64ToI32,
    I64ToF32,
    P64ToI64,
    I64ToP64,
    P64ToP,
    I32ToP,
    PToP64,
    PToI32,
    I32ToL,
    LToI32,
    LToI64,
    I64ToL,
    LToP,
    PToL,
    /// No conversion.
    NoCast,
    /// Two casts applied left to right.
    Sequence(Box<(Bitcast, Bitcast)>),
}

/// Which union-typed reinterpretation helpers the emitted code relies on;
/// each is declared once, the first time a cast needs it.
#[derive(Clone, Copy, PartialEq, Eq, Structural)]
pub struct UnionNeeds {
    pub int32_float: bool,
    pub float_int32: bool,
    pub int64_double: bool,
    pub double_int64: bool,
}

/// The expression that performs `cast` on the expression `op`.
pub open spec fn spec_cast_text(op: Seq<char>, cast: Bitcast) -> Seq<char>
    decreases cast,
{
    match cast {
        Bitcast::I32ToF32 | Bitcast::I64ToF32 => "((union int32_float){ (int32_t) "@ + op
            + " }).b"@,
        Bitcast::F32ToI32 | Bitcast::F32ToI64 => "((union float_int32){ "@ + op + " }).b"@,
        Bitcast::I64ToF64 => "((union int64_double){ (int64_t) "@ + op + " }).b"@,
        Bitcast::F64ToI64 => "((union double_int64){ "@ + op + " }).b"@,
        Bitcast::I32ToI64 | Bitcast::LToI64 | Bitcast::PToP64 => "int64("@ + op + ")"@,
        Bitcast::I64ToI32 | Bitcast::I64ToL => "int32("@ + op + ")"@,
        Bitcast::I64ToP64 | Bitcast::P64ToI64 => op,
        Bitcast::P64ToP | Bitcast::I32ToP | Bitcast::LToP => "(uint8_t *) "@ + op,
        Bitcast::PToI32 | Bitcast::PToL => "(uintptr_t) "@ + op,
        Bitcast::I32ToL | Bitcast::LToI32 | Bitcast::NoCast => op,
        Bitcast::Sequence(pair) => spec_cast_text(spec_cast_text(op, pair.0), pair.1),
    }
}

/// The union helpers needed after performing `cast`, given those needed
/// before.
pub open spec fn spec_cast_needs(n: UnionNeeds, cast: Bitcast) -> UnionNeeds
    decreases cast,
{
    match cast {
        Bitcast::I32ToF32 | Bitcast::I64ToF32 => UnionNeeds { int32_float: true, ..n },
        Bitcast::F32ToI32 | Bitcast::F32ToI64 => UnionNeeds { float_int32: true, ..n },
        Bitcast::I64ToF64 => UnionNeeds { int64_double: true, ..n },
        Bitcast::F64ToI64 => UnionNeeds { double_int64: true, ..n },
        Bitcast::Sequence(pair) => spec_cast_needs(spec_cast_needs(n, pair.0), pair.1),
        _ => n,
    }
}

/// Render `cast` applied to the expression `op`, recording which union
/// helpers the output relies on.
pub fn perform_cast(op: &Vec<char>, cast: &Bitcast, needs: &mut UnionNeeds) -> (r: Vec<char>)
    ensures
        r@ == spec_cast_text(op@, *cast),
        *final(needs) == spec_cast_needs(*old(needs), *cast),
    decreases cast,
{
    match cast {
        Bitcast::I32ToF32 | Bitcast::I64ToF32 => {
            needs.int32_float = true;
            let mut r = crate::text::str_chars("((union int32_float){ (int32_t) ");
            crate::text::push_chars(&mut r, op);
            crate::text::push_str(&mut r, " }).b");
            r
        },
        Bitcast::F32ToI32 | Bitcast::F32ToI64 => {
            needs.float_int32 = true;
            let mut r = crate::text::str_chars("((union float_int32){ ");
            crate::text::push_chars(&mut r, op);
            crate::text::push_str(&mut r, " }).b");
            r
        },
        Bitcast::I64ToF64 => {
            needs.int64_double = true;
            let mut r = crate::text::str_chars("((union int64_double){ (int64_t) ");
            crate::text::push_chars(&mut r, op);
            crate::text::push_str(&mut r, " }).b");
            r
        },
        Bitcast::F64ToI64 => {
            needs.double_int64 = true;
            let mut r = crate::text::str_chars("((union double_int64){ ");
            crate::text::push_chars(&mut r, op);
            crate::text::push_str(&mut r, " }).b");
            r
        },
        Bitcast::I32ToI64 | Bitcast::LToI64 | Bitcast::PToP64 => {
            let mut r = crate::text::str_chars("int64(");
            crate::text::push_chars(&mut r, op);
            crate::text::push_str(&mut r, ")");
            r
        },
        Bitcast::I64ToI32 | Bitcast::I64ToL => {
            let mut r = crate::text::str_chars("int32(");
            crate::text::push_chars(&mut r, op);
            crate::text::push_str(&mut r, ")");
            r
        },
        Bitcast::I64ToP64 | Bitcast::P64ToI64 => {
            let mut r: Vec<char> = Vec::new();
            crate::text::push_chars(&mut r, op);
            r
        },
        Bitcast::P64ToP | Bitcast::I32ToP | Bitcast::LToP => {
            let mut r = crate::text::str_chars("(uint8_t *) ");
            crate::text::push_chars(&mut r, op);
            r
        },
        Bitcast::PToI32 | Bitcast::PToL => {
            let mut r = crate::text::str_chars("(uintptr_t) ");
            crate::text::push_chars(&mut r, op);
            r
        },
        Bitcast::I32ToL | Bitcast::LToI32 | Bitcast::NoCast => {
            let mut r: Vec<char> = Vec::new();
            crate::text::push_chars(&mut r, op);
            r
        },
        Bitcast::Sequence(pair) => {
            let inner = perform_cast(op, &pair.0, needs);
            perform_cast(&inner, &pair.1, needs)
        },
    }
}

// What the emitted conversion casts compute.
//
// Lowering widens a component-level integer into its core slot and is the
// identity on the value; lifting narrows the slot back, truncating to the
// target width via two's-complement wraparound.

/// The value of the emitted `byte(...)` cast that lifts a `u8` out of an
/// `i32` slot.
pub fn lift_u8(i: i32) -> (r: u8)
    ensures
        r == i as u8,
{
    i as u8
}

/// The value of the emitted widening of a `u8` into an `i32` slot.
pub fn lower_u8(x: u8) -> (r: i32)
    ensures
        r == x as i32,
{
    x as i32
}

/// The value of the emitted `int8(...)` cast that lifts an `s8` out of an
/// `i32` slot.
pub fn lift_s8(i: i32) -> (r: i8)
    ensures
        r == i as i8,
{
    i as i8
}

/// The value of the emitted widening of an `s8` into an `i32` slot.
pub fn lower_s8(x: i8) -> (r: i32)
    ensures
        r == x as i32,
{
    x as i32
}

/// The value of the emitted `uint16(...)` cast that lifts a `u16` out of an
/// `i32` slot.
pub fn lift_u16(i: i32) -> (r: u16)
    ensures
        r == i as u16,
{
    i as u16
}

/// The value of the emitted widening of a `u16` into an `i32` slot.
pub fn lower_u16(x: u16) -> (r: i32)
    ensures
        r == x as i32,
{
    x as i32
}

/// The value of the emitted `int16(...)` cast that lifts an `s16` out of an
/// `i32` slot.
pub fn lift_s16(i: i32) -> (r: i16)
    ensures
        r == i as i16,
{
    i as i16
}

/// The value of the emitted widening of an `s16` into an `i32` slot.
pub fn lower_s16(x: i16) -> (r: i32)
    ensures
        r == x as i32,
{
    x as i32
}

/// The value of the emitted `uint32(...)` cast that lifts a `u32` out of an
/// `i32` slot.
pub fn lift_u32(i: i32) -> (r: u32)
    ensures
        r == i as u32,
{
    i as u32
}

/// The value of the emitted reinterpretation of a `u32` into an `i32` slot.
pub fn lower_u32(x: u32) -> (r: i32)
    ensures
        r == x as i32,
{
    x as i32
}

/// The value of the emitted `uint64(...)` cast that lifts a `u64` out of an
/// `i64` slot.
pub fn lift_u64(i: i64) -> (r: u64)
    ensures
        r == i as u64,
{
    i as u64
}

/// The value of the emitted reinterpretation of a `u64` into an `i64` slot.
pub fn lower_u64(x: u64) -> (r: i64)
    ensures
        r == x as i64,
{
    x as i64
}

/// The value of the emitted `(... <> 0)` test that lifts a `bool` out of an
/// `i32` slot.
pub fn lift_bool(i: i32) -> (r: bool)
    ensures
        r == (i != 0),
{
    i != 0
}

/// The value of the emitted `int32(ord(...))` that lowers a `bool` into an
/// `i32` slot.
pub fn lower_bool(b: bool) -> (r: i32)
    ensures
        r == (if b {
            1int
        } else {
            0int
        }) as i32,
{
    if b {
        1
    } else {
        0
    }
}

// Round-trip laws: lowering a representable value and lifting it back
// reproduces it exactly, and lifting an out-of-range slot truncates via
// two's-complement wraparound rather than saturating.

/// Lower-then-lift is the identity on `u8`, and lifting an out-of-range slot
/// truncates: the result is the slot value modulo 256, through the unsigned
/// two's-complement reinterpretation, never a saturation.
pub proof fn lemma_u8_round_trip(x: u8, i: i32)
    ensures
        (x as i32) as u8 == x,
        i as u8 == ((i as u32) % 256) as u8,
{
    assert((x as i32) as u8 == x) by (bit_vector);
    assert(i as u8 == ((i as u32) % 256) as u8) by (bit_vector);
}

/// Lower-then-lift is the identity on `s8`, and lifting truncates modulo 256.
pub proof fn lemma_s8_round_trip(x: i8, i: i32)
    ensures
        (x as i32) as i8 == x,
        i as i8 == (((i as u32) % 256) as u8) as i8,
{
    assert((x as i32) as i8 == x) by (bit_vector);
    assert(i as i8 == (((i as u32) % 256) as u8) as i8) by (bit_vector);
}

/// Lower-then-lift is the identity on `u16`, and lifting truncates modulo
/// 2^16.
pub proof fn lemma_u16_round_trip(x: u16, i: i32)
    ensures
        (x as i32) as u16 == x,
        i as u16 == ((i as u32) % 0x10000) as u16,
{
    assert((x as i32) as u16 == x) by (bit_vector);
    assert(i as u16 == ((i as u32) % 0x10000) as u16) by (bit_vector);
}

/// Lower-then-lift is the identity on `s16`, and lifting truncates modulo
/// 2^16.
pub proof fn lemma_s16_round_trip(x: i16, i: i32)
    ensures
        (x as i32) as i16 == x,
        i as i16 == (((i as u32) % 0x10000) as u16) as i16,
{
    assert((x as i32) as i16 == x) by (bit_vector);
    assert(i as i16 == (((i as u32) % 0x10000) as u16) as i16) by (bit_vector);
}

/// Lower-then-lift is the identity on `u32`: the slot reinterpretation is a
/// bijection.
pub proof fn lemma_u32_round_trip(x: u32, i: i32)
    ensures
        (x as i32) as u32 == x,
        (i as u32) as i32 == i,
{
    assert((x as i32) as u32 == x) by (bit_vector);
    assert((i as u32) as i32 == i) by (bit_vector);
}

/// Lower-then-lift is the identity on `u64`: the slot reinterpretation is a
/// bijection.
pub proof fn lemma_u64_round_trip(x: u64, i: i64)
    ensures
        (x as i64) as u64 == x,
        (i as u64) as i64 == i,
{
    assert((x as i64) as u64 == x) by (bit_vector);
    assert((i as u64) as i64 == i) by (bit_vector);
}

/// Lower-then-lift is the identity on `bool`.
pub proof fn lemma_bool_round_trip(b: bool)
    ensures
        ((if b {
            1int
        } else {
            0int
        }) as i32 != 0) == b,
{
}

// The two-word flags split: flags with more than 32 members travel as two
// 32-bit halves, low bits first.

/// The low half the emitted `flags & 0xffffffff` computes.
pub fn flags_low_half(mask: u64) -> (r: u64)
    ensures
        r == mask & 0xffffffff,
{
    mask & 0xffffffff
}

/// The high half the emitted `(flags >> 32) & 0xffffffff` computes.
pub fn flags_high_half(mask: u64) -> (r: u64)
    ensures
        r == (mask >> 32) & 0xffffffff,
{
    (mask >> 32) & 0xffffffff
}

/// The full-width mask the emitted lift reconstructs: the low half OR-ed with
/// the high half shifted left 32.
pub fn flags_join_halves(lo: u64, hi: u64) -> (r: u64)
    ensures
        r == lo | (hi << 32),
{
    lo | (hi << 32)
}

/// Splitting a flags mask into its two 32-bit halves and joining them again
/// reproduces the mask bit for bit; in particular every 40-bit mask survives
/// the two-word split.
pub proof fn lemma_flags_round_trip(mask: u64)
    ensures
        (mask & 0xffffffff) | (((mask >> 32) & 0xffffffff) << 32) == mask,
{
    assert((mask & 0xffffffff) | (((mask >> 32) & 0xffffffff) << 32) == mask) by (bit_vector);
}

} // verus!
