//! Properties of decoding that relate several steps or hold of all inputs.
use crate::addressing::{base_text, memory_text, ModField};
use crate::decoder::{
    decode_at, disp_len, disp_value, form_of, listing_from, lemma_decode_advances, modrm_mode,
    modrm_reg, modrm_rm, mov_text, rm_operand, Decoded, Form,
};
use crate::register::reg_name;
use vstd::prelude::*;

verus! {

/// In a whole register/memory with register instruction, the direction bit
/// orders the operands: when set, the register field is the destination and
/// the r/m operand the source; when clear, the other way round.
pub proof fn direction_orders_operands(b: Seq<u8>, pos: int)
    requires
        0 <= pos,
        pos + 2 <= b.len(),
        form_of(b[pos]) == Form::RegMemWithReg,
        pos + 2 + disp_len(modrm_mode(b[pos + 1]), modrm_rm(b[pos + 1])) <= b.len(),
    ensures
        ({
            let op = b[pos];
            let m = b[pos + 1];
            let wide = op % 2 == 1;
            let mode = modrm_mode(m);
            let rm = modrm_rm(m);
            let reg = reg_name(wide, modrm_reg(m));
            let other = rm_operand(mode, rm, wide, disp_value(b, pos + 2, mode, rm));
            decode_at(b, pos) matches Decoded::Emitted { line, next }
                && next == pos + 2 + disp_len(mode, rm)
                && ((op / 2) % 2 == 1 ==> line == mov_text(reg, other))
                && ((op / 2) % 2 == 0 ==> line == mov_text(other, reg))
        }),
{
    reveal(decode_at);
}

/// Under no-displacement mode each selector but the direct-address one names
/// its fixed base/index registers, whatever the displacement value.
pub proof fn no_displacement_table(rm: u8, v: int)
    requires
        rm < 8,
        rm != 6,
    ensures
        memory_text(ModField::MemoryNoDisplacement, rm, v) == "["@ + base_text(rm) + "]"@,
        rm == 0 ==> memory_text(ModField::MemoryNoDisplacement, rm, v) == "[bx + si]"@,
        rm == 1 ==> memory_text(ModField::MemoryNoDisplacement, rm, v) == "[bx + di]"@,
        rm == 2 ==> memory_text(ModField::MemoryNoDisplacement, rm, v) == "[bp + si]"@,
        rm == 3 ==> memory_text(ModField::MemoryNoDisplacement, rm, v) == "[bp + di]"@,
        rm == 4 ==> memory_text(ModField::MemoryNoDisplacement, rm, v) == "[si]"@,
        rm == 5 ==> memory_text(ModField::MemoryNoDisplacement, rm, v) == "[di]"@,
        rm == 7 ==> memory_text(ModField::MemoryNoDisplacement, rm, v) == "[bx]"@,
{
    reveal_strlit("[");
    reveal_strlit("]");
    reveal_strlit("bx + si");
    reveal_strlit("bx + di");
    reveal_strlit("bp + si");
    reveal_strlit("bp + di");
    reveal_strlit("si");
    reveal_strlit("di");
    reveal_strlit("bx");
    reveal_strlit("[bx + si]");
    reveal_strlit("[bx + di]");
    reveal_strlit("[bp + si]");
    reveal_strlit("[bp + di]");
    reveal_strlit("[si]");
    reveal_strlit("[di]");
    reveal_strlit("[bx]");
    let t = memory_text(ModField::MemoryNoDisplacement, rm, v);
    if rm == 0 {
        assert(t =~= "[bx + si]"@);
    } else if rm == 1 {
        assert(t =~= "[bx + di]"@);
    } else if rm == 2 {
        assert(t =~= "[bp + si]"@);
    } else if rm == 3 {
        assert(t =~= "[bp + di]"@);
    } else if rm == 4 {
        assert(t =~= "[si]"@);
    } else if rm == 5 {
        assert(t =~= "[di]"@);
    } else {
        assert(t =~= "[bx]"@);
    }
}

/// The end of the stream right after a whole instruction ends decoding
/// without error, after that instruction's line; an end inside an
/// instruction is an error, and no line stands for that instruction.
pub proof fn end_of_stream(b: Seq<u8>, pos: int)
    requires
        0 <= pos <= b.len(),
    ensures
        listing_from(b, b.len() as int) == (Seq::<Seq<char>>::empty(), false),
        decode_at(b, pos) matches Decoded::Emitted { line: t, next } ==> (next == b.len()
            ==> listing_from(b, pos) == (seq![t], false)),
        decode_at(b, pos) is Truncated ==> listing_from(b, pos) == (Seq::<Seq<char>>::empty(), true),
{
    lemma_decode_advances(b, b.len() as int);
    assert(decode_at(b, b.len() as int) is End);
    assert(listing_from(b, b.len() as int).0 =~= Seq::<Seq<char>>::empty());
    if let Decoded::Emitted { line: t, next } = decode_at(b, pos) {
        if next == b.len() {
            lemma_decode_advances(b, next);
            assert(seq![t] + Seq::<Seq<char>>::empty() =~= seq![t]);
        }
    }
}

/// An opcode that matches no known pattern takes exactly one byte and adds
/// no line: decoding goes on from the byte after it.
pub proof fn unknown_opcode_skipped(b: Seq<u8>, pos: int)
    requires
        0 <= pos < b.len(),
        form_of(b[pos]) == Form::Unknown,
    ensures
        decode_at(b, pos) == (Decoded::Skipped { next: pos + 1 }),
        listing_from(b, pos) == listing_from(b, pos + 1),
{
    reveal(decode_at);
}

} // verus!
