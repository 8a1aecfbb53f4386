//! Addressing modes and the text of memory operands.
use crate::text::{digits, push_digits, push_signed, signed_text};
use vstd::prelude::*;

verus! {

/// The addressing mode held in the top two bits of a ModRM byte.
#[derive(Debug, Clone, Copy, PartialEq, Eq, Structural)]
pub enum ModField {
    MemoryNoDisplacement,
    MemoryDisplacement8bit,
    MemoryDisplacement16bit,
    RegisterNoDisplacement,
}

/// The mode that the two-bit pattern `bits` (taken modulo 4) stands for.
pub open spec fn mode_of(bits: u8) -> ModField {
    let m = bits % 4;
    if m == 0 {
        ModField::MemoryNoDisplacement
    } else if m == 1 {
        ModField::MemoryDisplacement8bit
    } else if m == 2 {
        ModField::MemoryDisplacement16bit
    } else {
        ModField::RegisterNoDisplacement
    }
}

impl ModField {
    /// Total mapping from the low two bits of `bits` to a mode.
    pub fn from_bits(bits: u8) -> (r: ModField)
        ensures
            r == mode_of(bits),
    {
        let m = bits & 3;
        assert(bits & 3 == bits % 4) by (bit_vector);
        match m {
            0 => ModField::MemoryNoDisplacement,
            1 => ModField::MemoryDisplacement8bit,
            2 => ModField::MemoryDisplacement16bit,
            _ => ModField::RegisterNoDisplacement,
        }
    }
}

/// The base/index registers that r/m selector `rm` names.
pub open spec fn base_text(rm: u8) -> Seq<char> {
    if rm == 0 { "bx + si"@ }
    else if rm == 1 { "bx + di"@ }
    else if rm == 2 { "bp + si"@ }
    else if rm == 3 { "bp + di"@ }
    else if rm == 4 { "si"@ }
    else if rm == 5 { "di"@ }
    else if rm == 6 { "bp"@ }
    else { "bx"@ }
}

/// A signed displacement as a suffix: `+ N` or `- N`, with `N` its magnitude.
pub open spec fn offset_text(v: int) -> Seq<char> {
    if v >= 0 {
        "+ "@ + digits(v as nat)
    } else {
        "- "@ + digits((-v) as nat)
    }
}

/// The text of the memory operand with mode `mode`, r/m selector `rm` and
/// displacement (or, for the direct address, address) `v`.
pub open spec fn memory_text(mode: ModField, rm: u8, v: int) -> Seq<char> {
    match mode {
        ModField::MemoryNoDisplacement => if rm == 6 {
            "["@ + signed_text(v) + "]"@
        } else {
            "["@ + base_text(rm) + "]"@
        },
        _ => if rm == 6 && v == 0 {
            "[bp]"@
        } else {
            "["@ + base_text(rm) + " "@ + offset_text(v) + "]"@
        },
    }
}

fn base_str(rm: u8) -> (r: &'static str)
    ensures
        r@ == base_text(rm),
{
    if rm == 0 { "bx + si" }
    else if rm == 1 { "bx + di" }
    else if rm == 2 { "bp + si" }
    else if rm == 3 { "bp + di" }
    else if rm == 4 { "si" }
    else if rm == 5 { "di" }
    else if rm == 6 { "bp" }
    else { "bx" }
}

/// The text of a memory operand. Under no-displacement mode selector 110 is
/// the direct address `[value]`; under the displacement modes `value` is a
/// signed offset after the base, left out only for `[bp]` with offset zero.
pub fn get_displacement(mode: ModField, rm: u8, value: i16) -> (r: String)
    requires
        mode != ModField::RegisterNoDisplacement,
        rm < 8,
    ensures
        r@ == memory_text(mode, rm, value as int),
{
    let mut s = String::new();
    match mode {
        ModField::MemoryNoDisplacement => {
            s.append("[");
            if rm == 6 {
                push_signed(&mut s, value as i32);
            } else {
                s.append(base_str(rm));
            }
            s.append("]");
        },
        _ => {
            if rm == 6 && value == 0 {
                s.append("[bp]");
            } else {
                s.append("[");
                s.append(base_str(rm));
                s.append(" ");
                if value >= 0 {
                    s.append("+ ");
                    push_digits(&mut s, value as u32);
                } else {
                    s.append("- ");
                    let m: i32 = -(value as i32);
                    push_digits(&mut s, m as u32);
                }
                s.append("]");
            }
        },
    }
    assert(s@ =~= memory_text(mode, rm, value as int));
    s
}

} // verus!
