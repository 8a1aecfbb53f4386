//! Classification and decoding of `mov` instructions, one at a time or over
//! a whole stream.
use crate::addressing::{get_displacement, memory_text, mode_of, ModField};
use crate::cursor::{le_i16, sign8, ByteCursor};
use crate::register::{reg_name, Register};
use crate::text::{push_signed, signed_text};
use vstd::prelude::*;

verus! {

/// The instruction form that an opcode byte announces.
#[derive(Debug, Clone, Copy, PartialEq, Eq, Structural)]
pub enum Form {
    /// `100010dw`: register/memory to or from register.
    RegMemWithReg,
    /// `1100011w`: immediate to register/memory.
    ImmediateToRegMem,
    /// `1011wreg`: immediate to register.
    ImmediateToReg,
    /// `1010000w`: memory to accumulator (recognised, not decoded).
    MemoryToAccumulator,
    /// `1010001w`: accumulator to memory (recognised, not decoded).
    AccumulatorToMemory,
    /// `10001110`: register/memory to segment register (recognised, not decoded).
    RegMemToSegment,
    /// `10001100`: segment register to register/memory (recognised, not decoded).
    SegmentToRegMem,
    /// Any other opcode: one byte is skipped. Operand bytes that such an
    /// instruction may have are then read as opcodes of their own.
    Unknown,
}

/// The form of opcode `op`, by the first matching pattern in a fixed order.
pub open spec fn form_of(op: u8) -> Form {
    if op / 4 == 0x22 {
        Form::RegMemWithReg
    } else if op / 2 == 0x63 {
        Form::ImmediateToRegMem
    } else if op / 16 == 0xb {
        Form::ImmediateToReg
    } else if op / 2 == 0x50 {
        Form::MemoryToAccumulator
    } else if op / 2 == 0x51 {
        Form::AccumulatorToMemory
    } else if op == 0x8e {
        Form::RegMemToSegment
    } else if op == 0x8c {
        Form::SegmentToRegMem
    } else {
        Form::Unknown
    }
}

/// The outcome of decoding at one position of a stream.
pub enum Decoded {
    /// No byte is left for an opcode.
    End,
    /// The opcode is unknown; decoding goes on at `next`.
    Skipped { next: int },
    /// A whole instruction gave `line`; the next one starts at `next`.
    Emitted { line: Seq<char>, next: int },
    /// The stream ends inside an instruction.
    Truncated,
}

/// The addressing mode of ModRM byte `m`.
pub open spec fn modrm_mode(m: u8) -> ModField {
    mode_of((m / 64) as u8)
}

/// The register selector of ModRM byte `m`.
pub open spec fn modrm_reg(m: u8) -> u8 {
    ((m / 8) % 8) as u8
}

/// The r/m selector of ModRM byte `m`.
pub open spec fn modrm_rm(m: u8) -> u8 {
    (m % 8) as u8
}

/// How many displacement bytes follow a ModRM byte of this mode and selector.
pub open spec fn disp_len(mode: ModField, rm: u8) -> int {
    match mode {
        ModField::MemoryDisplacement8bit => 1,
        ModField::MemoryDisplacement16bit => 2,
        ModField::MemoryNoDisplacement => if rm == 6 { 2 } else { 0 },
        ModField::RegisterNoDisplacement => 0,
    }
}

/// The displacement read at `at`: one byte sign-extended, two bytes little
/// endian, or zero when none follows.
pub open spec fn disp_value(b: Seq<u8>, at: int, mode: ModField, rm: u8) -> int {
    if disp_len(mode, rm) == 1 {
        sign8(b[at])
    } else if disp_len(mode, rm) == 2 {
        le_i16(b[at], b[at + 1])
    } else {
        0
    }
}

/// How many bytes an immediate of this width takes.
pub open spec fn imm_len(wide: bool) -> int {
    if wide { 2 } else { 1 }
}

/// The signed immediate of this width read at `at`.
pub open spec fn imm_value(b: Seq<u8>, at: int, wide: bool) -> int {
    if wide { le_i16(b[at], b[at + 1]) } else { sign8(b[at]) }
}

/// The text of the operand that `mode` and `rm` select.
pub open spec fn rm_operand(mode: ModField, rm: u8, wide: bool, v: int) -> Seq<char> {
    if mode == ModField::RegisterNoDisplacement {
        reg_name(wide, rm)
    } else {
        memory_text(mode, rm, v)
    }
}

/// A `mov` line with destination `dst` and source `src`.
pub open spec fn mov_text(dst: Seq<char>, src: Seq<char>) -> Seq<char> {
    "mov "@ + dst + ", "@ + src
}

/// An immediate with its width keyword.
pub open spec fn sized_imm_text(wide: bool, v: int) -> Seq<char> {
    (if wide { "word "@ } else { "byte "@ }) + signed_text(v)
}

/// The line that stands for a recognised form that is not decoded.
pub open spec fn placeholder_text(f: Form) -> Seq<char> {
    match f {
        Form::MemoryToAccumulator => "mov ;Memory to accumulator"@,
        Form::AccumulatorToMemory => "mov ;Accumulator to memory"@,
        Form::RegMemToSegment => "mov ;Register/memory to segment register"@,
        _ => "mov ;Segment register to register/memory"@,
    }
}

/// Decoding of the register/memory with register form at `pos`.
pub open spec fn decode_reg_mem(b: Seq<u8>, pos: int) -> Decoded {
    let op = b[pos];
    let wide = op % 2 == 1;
    let to_reg = (op / 2) % 2 == 1;
    if pos + 2 > b.len() {
        Decoded::Truncated
    } else {
        let m = b[pos + 1];
        let mode = modrm_mode(m);
        let rm = modrm_rm(m);
        let next = pos + 2 + disp_len(mode, rm);
        if next > b.len() {
            Decoded::Truncated
        } else {
            let reg = reg_name(wide, modrm_reg(m));
            let other = rm_operand(mode, rm, wide, disp_value(b, pos + 2, mode, rm));
            let line = if to_reg { mov_text(reg, other) } else { mov_text(other, reg) };
            Decoded::Emitted { line, next }
        }
    }
}

/// Decoding of the immediate to register/memory form at `pos`: the
/// displacement first, then the immediate data.
pub open spec fn decode_imm_reg_mem(b: Seq<u8>, pos: int) -> Decoded {
    let wide = b[pos] % 2 == 1;
    if pos + 2 > b.len() {
        Decoded::Truncated
    } else {
        let m = b[pos + 1];
        let mode = modrm_mode(m);
        let rm = modrm_rm(m);
        let at = pos + 2 + disp_len(mode, rm);
        let next = at + imm_len(wide);
        if next > b.len() {
            Decoded::Truncated
        } else {
            let dst = rm_operand(mode, rm, wide, disp_value(b, pos + 2, mode, rm));
            let line = mov_text(dst, sized_imm_text(wide, imm_value(b, at, wide)));
            Decoded::Emitted { line, next }
        }
    }
}

/// Decoding of the immediate to register form at `pos`.
pub open spec fn decode_imm_reg(b: Seq<u8>, pos: int) -> Decoded {
    let op = b[pos];
    let wide = (op / 8) % 2 == 1;
    let next = pos + 1 + imm_len(wide);
    if next > b.len() {
        Decoded::Truncated
    } else {
        let line = mov_text(reg_name(wide, (op % 8) as u8), signed_text(imm_value(b, pos + 1, wide)));
        Decoded::Emitted { line, next }
    }
}

/// Decoding of the instruction that starts at `pos` of `b`.
#[verifier::opaque]
pub open spec fn decode_at(b: Seq<u8>, pos: int) -> Decoded {
    if pos < 0 || pos >= b.len() {
        Decoded::End
    } else {
        match form_of(b[pos]) {
            Form::RegMemWithReg => decode_reg_mem(b, pos),
            Form::ImmediateToRegMem => decode_imm_reg_mem(b, pos),
            Form::ImmediateToReg => decode_imm_reg(b, pos),
            Form::Unknown => Decoded::Skipped { next: pos + 1 },
            f => Decoded::Emitted { line: placeholder_text(f), next: pos + 1 },
        }
    }
}

/// The form of opcode `op`.
pub fn classify(op: u8) -> (r: Form)
    ensures
        r == form_of(op),
{
    assert(op >> 2 == op / 4 && op >> 1 == op / 2 && op >> 4 == op / 16) by (bit_vector);
    if op >> 2 == 0b100010 {
        Form::RegMemWithReg
    } else if op >> 1 == 0b1100011 {
        Form::ImmediateToRegMem
    } else if op >> 4 == 0b1011 {
        Form::ImmediateToReg
    } else if op >> 1 == 0b1010000 {
        Form::MemoryToAccumulator
    } else if op >> 1 == 0b1010001 {
        Form::AccumulatorToMemory
    } else if op == 0b10001110 {
        Form::RegMemToSegment
    } else if op == 0b10001100 {
        Form::SegmentToRegMem
    } else {
        Form::Unknown
    }
}

/// One decoding step, as handed to the caller.
pub enum Step {
    /// No byte is left for an opcode.
    End,
    /// An unknown opcode was passed over.
    Skipped,
    /// A whole instruction was decoded into this line.
    Line(String),
    /// The stream ends inside an instruction.
    Truncated,
}

/// Reads the displacement that follows a ModRM byte of this mode and selector.
fn read_disp(cur: &mut ByteCursor, mode: ModField, rm: u8) -> (r: Option<i16>)
    requires
        old(cur).wf(),
    ensures
        final(cur).wf(),
        final(cur).bytes == old(cur).bytes,
        old(cur).pos + disp_len(mode, rm) <= old(cur).bytes@.len() ==> (r matches Some(v)
            && v as int == disp_value(old(cur).bytes@, old(cur).pos as int, mode, rm)
            && final(cur).pos == old(cur).pos + disp_len(mode, rm)),
        old(cur).pos + disp_len(mode, rm) > old(cur).bytes@.len() ==> r is None,
{
    match mode {
        ModField::MemoryDisplacement8bit => match cur.read_i8() {
            Some(v) => Some(v as i16),
            None => None,
        },
        ModField::MemoryDisplacement16bit => cur.read_i16_le(),
        ModField::MemoryNoDisplacement => if rm == 6 {
            cur.read_i16_le()
        } else {
            Some(0)
        },
        ModField::RegisterNoDisplacement => Some(0),
    }
}

/// Reads a signed immediate of this width.
fn read_imm(cur: &mut ByteCursor, wide: bool) -> (r: Option<i16>)
    requires
        old(cur).wf(),
    ensures
        final(cur).wf(),
        final(cur).bytes == old(cur).bytes,
        old(cur).pos + imm_len(wide) <= old(cur).bytes@.len() ==> (r matches Some(v)
            && v as int == imm_value(old(cur).bytes@, old(cur).pos as int, wide)
            && final(cur).pos == old(cur).pos + imm_len(wide)),
        old(cur).pos + imm_len(wide) > old(cur).bytes@.len() ==> r is None,
{
    if wide {
        cur.read_i16_le()
    } else {
        match cur.read_i8() {
            Some(v) => Some(v as i16),
            None => None,
        }
    }
}

/// The line `mov dst, src`.
fn mov_line(dst: &str, src: &str) -> (r: String)
    ensures
        r@ == mov_text(dst@, src@),
{
    let mut s = String::from_str("mov ");
    s.append(dst);
    s.append(", ");
    s.append(src);
    s
}

/// The text of the operand that `mode` and `rm` select.
fn rm_operand_string(mode: ModField, rm: u8, wide: bool, value: i16) -> (r: String)
    requires
        rm < 8,
    ensures
        r@ == rm_operand(mode, rm, wide, value as int),
{
    match mode {
        ModField::RegisterNoDisplacement => {
            let reg = Register::from_fields(wide, rm);
            String::from_str(reg.name())
        },
        _ => get_displacement(mode, rm, value),
    }
}

/// The immediate with its width keyword.
fn sized_imm_string(wide: bool, v: i16) -> (r: String)
    ensures
        r@ == sized_imm_text(wide, v as int),
{
    let mut s = if wide {
        String::from_str("word ")
    } else {
        String::from_str("byte ")
    };
    push_signed(&mut s, v as i32);
    s
}

/// Decodes the instruction at the cursor and moves the cursor past it.
pub fn decode_next(cur: &mut ByteCursor) -> (r: Step)
    requires
        old(cur).wf(),
    ensures
        final(cur).wf(),
        final(cur).bytes == old(cur).bytes,
        match decode_at(old(cur).bytes@, old(cur).pos as int) {
            Decoded::End => r is End && final(cur).pos == old(cur).pos,
            Decoded::Skipped { next } => r is Skipped && final(cur).pos == next,
            Decoded::Emitted { line, next } => (r matches Step::Line(t) && t@ == line
                && final(cur).pos == next),
            Decoded::Truncated => r is Truncated,
        },
{
    proof {
        reveal(decode_at);
    }
    let op = match cur.read_u8() {
        Some(op) => op,
        None => return Step::End,
    };
    match classify(op) {
        Form::RegMemWithReg => {
            let wide = op & 1 == 1;
            let to_reg = (op >> 1) & 1 == 1;
            assert(op & 1 == op % 2 && (op >> 1) & 1 == (op / 2) % 2) by (bit_vector);
            let m = match cur.read_u8() {
                Some(m) => m,
                None => return Step::Truncated,
            };
            assert(m >> 6 == m / 64 && (m >> 3) & 7 == (m / 8) % 8 && m & 7 == m % 8) by (bit_vector);
            let mode = ModField::from_bits(m >> 6);
            let rm = m & 7;
            let reg = Register::from_fields(wide, (m >> 3) & 7);
            let value = match read_disp(cur, mode, rm) {
                Some(v) => v,
                None => return Step::Truncated,
            };
            let other = rm_operand_string(mode, rm, wide, value);
            let line = if to_reg {
                mov_line(reg.name(), other.as_str())
            } else {
                mov_line(other.as_str(), reg.name())
            };
            Step::Line(line)
        },
        Form::ImmediateToRegMem => {
            let wide = op & 1 == 1;
            assert(op & 1 == op % 2) by (bit_vector);
            let m = match cur.read_u8() {
                Some(m) => m,
                None => return Step::Truncated,
            };
            assert(m >> 6 == m / 64 && m & 7 == m % 8) by (bit_vector);
            let mode = ModField::from_bits(m >> 6);
            let rm = m & 7;
            let value = match read_disp(cur, mode, rm) {
                Some(v) => v,
                None => return Step::Truncated,
            };
            let data = match read_imm(cur, wide) {
                Some(v) => v,
                None => return Step::Truncated,
            };
            let dst = rm_operand_string(mode, rm, wide, value);
            let src = sized_imm_string(wide, data);
            Step::Line(mov_line(dst.as_str(), src.as_str()))
        },
        Form::ImmediateToReg => {
            let wide = (op >> 3) & 1 == 1;
            assert((op >> 3) & 1 == (op / 8) % 2 && op & 7 == op % 8) by (bit_vector);
            let reg = Register::from_fields(wide, op & 7);
            let data = match read_imm(cur, wide) {
                Some(v) => v,
                None => return Step::Truncated,
            };
            let mut src = String::new();
            push_signed(&mut src, data as i32);
            Step::Line(mov_line(reg.name(), src.as_str()))
        },
        Form::MemoryToAccumulator => Step::Line(String::from_str("mov ;Memory to accumulator")),
        Form::AccumulatorToMemory => Step::Line(String::from_str("mov ;Accumulator to memory")),
        Form::RegMemToSegment => Step::Line(
            String::from_str("mov ;Register/memory to segment register"),
        ),
        Form::SegmentToRegMem => Step::Line(
            String::from_str("mov ;Segment register to register/memory"),
        ),
        Form::Unknown => Step::Skipped,
    }
}

/// The lines decoded from `pos` of `b` on, in stream order, and whether the
/// stream ends inside an instruction (after the lines listed).
pub open spec fn listing_from(b: Seq<u8>, pos: int) -> (Seq<Seq<char>>, bool)
    decreases b.len() - pos via listing_from_decreases
{
    match decode_at(b, pos) {
        Decoded::End => (Seq::empty(), false),
        Decoded::Truncated => (Seq::empty(), true),
        Decoded::Skipped { next } => listing_from(b, next),
        Decoded::Emitted { line, next } => {
            let rest = listing_from(b, next);
            (seq![line] + rest.0, rest.1)
        },
    }
}

/// Decoding ends exactly at the end of the stream, and every other step that
/// does not fail moves forward without passing the end.
pub proof fn lemma_decode_advances(b: Seq<u8>, pos: int)
    ensures
        decode_at(b, pos) is End <==> (pos < 0 || pos >= b.len()),
        decode_at(b, pos) matches Decoded::Skipped { next } ==> pos < next <= b.len(),
        decode_at(b, pos) matches Decoded::Emitted { next, .. } ==> pos < next <= b.len(),
{
    reveal(decode_at);
}

#[via_fn]
proof fn listing_from_decreases(b: Seq<u8>, pos: int) {
    lemma_decode_advances(b, pos);
}

/// The lines decoded from a whole stream, and whether it ends inside an
/// instruction. Lines before such an end are kept; no partial line is.
pub struct Listing {
    pub lines: Vec<String>,
    pub truncated: bool,
}

/// The texts of a vector of strings.
pub open spec fn texts(v: Seq<String>) -> Seq<Seq<char>> {
    v.map_values(|s: String| s@)
}

/// Decodes `bytes` from the start until the stream ends or an instruction is
/// cut off.
pub fn disassemble(bytes: &[u8]) -> (r: Listing)
    ensures
        texts(r.lines@) == listing_from(bytes@, 0).0,
        r.truncated == listing_from(bytes@, 0).1,
{
    let mut cur = ByteCursor::new(bytes);
    let mut lines: Vec<String> = Vec::new();
    let ghost b = bytes@;
    loop
        invariant
            b == bytes@,
            cur.bytes@ == b,
            cur.pos <= b.len(),
            texts(lines@) + listing_from(b, cur.pos as int).0 == listing_from(b, 0).0,
            listing_from(b, cur.pos as int).1 == listing_from(b, 0).1,
        decreases b.len() - cur.pos,
    {
        let ghost pos = cur.pos as int;
        let ghost before = lines@;
        proof {
            lemma_decode_advances(b, pos);
        }
        match decode_next(&mut cur) {
            Step::End => {
                assert(decode_at(b, pos) is End);
                assert(listing_from(b, pos).0 =~= Seq::<Seq<char>>::empty());
                assert(texts(lines@) =~= listing_from(b, 0).0);
                return Listing { lines, truncated: false };
            },
            Step::Truncated => {
                assert(texts(lines@) =~= listing_from(b, 0).0);
                return Listing { lines, truncated: true };
            },
            Step::Skipped => {},
            Step::Line(t) => {
                lines.push(t);
                let ghost rest = listing_from(b, cur.pos as int).0;
                assert(texts(lines@) =~= texts(before).push(t@));
                assert(texts(lines@) + rest =~= texts(before) + (seq![t@] + rest));
            },
        }
    }
}

} // verus!
