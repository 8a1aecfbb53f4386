use mov_decoder::addressing::{get_displacement, ModField};
use mov_decoder::cursor::ByteCursor;
use mov_decoder::decoder::{classify, decode_next, disassemble, Form, Step};
use mov_decoder::emit::render_listing;
use mov_decoder::register::Register;
use mov_decoder::text::signed_string;

fn lines_of(bytes: &[u8]) -> (Vec<String>, bool) {
    let l = disassemble(bytes);
    (l.lines, l.truncated)
}

#[test]
fn register_to_register_word() {
    assert_eq!(lines_of(&[0x89, 0xD8]), (vec!["mov ax, bx".to_string()], false));
}

#[test]
fn direction_bit_set_puts_register_first() {
    assert_eq!(lines_of(&[0x8B, 0xD8]), (vec!["mov bx, ax".to_string()], false));
    assert_eq!(lines_of(&[0x8A, 0x47, 0xFE]), (vec!["mov al, [bx - 2]".to_string()], false));
}

#[test]
fn direction_bit_clear_puts_register_last() {
    assert_eq!(lines_of(&[0x88, 0x47, 0xFE]), (vec!["mov [bx - 2], al".to_string()], false));
    assert_eq!(lines_of(&[0x88, 0xE5]), (vec!["mov ch, ah".to_string()], false));
}

#[test]
fn immediate_to_register_word() {
    assert_eq!(lines_of(&[0xB8, 0x05, 0x00]), (vec!["mov ax, 5".to_string()], false));
    assert_eq!(lines_of(&[0xBA, 0x6C, 0x0F]), (vec!["mov dx, 3948".to_string()], false));
}

#[test]
fn immediate_to_register_byte_negative() {
    assert_eq!(lines_of(&[0xB1, 0xF4]), (vec!["mov cl, -12".to_string()], false));
}

#[test]
fn direct_address_operand() {
    assert_eq!(lines_of(&[0x8B, 0x1E, 0xE8, 0x03]), (vec!["mov bx, [1000]".to_string()], false));
    assert_eq!(get_displacement(ModField::MemoryNoDisplacement, 6, 1000), "[1000]");
}

#[test]
fn zero_displacement_asymmetry() {
    assert_eq!(get_displacement(ModField::MemoryDisplacement8bit, 6, 0), "[bp]");
    assert_eq!(get_displacement(ModField::MemoryDisplacement8bit, 0, 0), "[bx + si + 0]");
    assert_eq!(lines_of(&[0x8A, 0x46, 0x00]), (vec!["mov al, [bp]".to_string()], false));
}

#[test]
fn no_displacement_table_selectors() {
    let m = ModField::MemoryNoDisplacement;
    assert_eq!(get_displacement(m, 0, 0), "[bx + si]");
    assert_eq!(get_displacement(m, 1, 0), "[bx + di]");
    assert_eq!(get_displacement(m, 2, 0), "[bp + si]");
    assert_eq!(get_displacement(m, 3, 0), "[bp + di]");
    assert_eq!(get_displacement(m, 4, 0), "[si]");
    assert_eq!(get_displacement(m, 5, 0), "[di]");
    assert_eq!(get_displacement(m, 7, 0), "[bx]");
}

#[test]
fn displacement_modes_render_sign_and_magnitude() {
    assert_eq!(get_displacement(ModField::MemoryDisplacement16bit, 6, 75), "[bp + 75]");
    assert_eq!(get_displacement(ModField::MemoryDisplacement8bit, 4, -37), "[si - 37]");
    assert_eq!(lines_of(&[0x89, 0x8F, 0xD4, 0x00]), (vec!["mov [bx + 212], cx".to_string()], false));
    assert_eq!(
        lines_of(&[0x8B, 0x86, 0x00, 0x80]),
        (vec!["mov ax, [bp - 32768]".to_string()], false)
    );
}

#[test]
fn immediate_to_memory_reads_displacement_then_data() {
    assert_eq!(lines_of(&[0xC6, 0x03, 0x07]), (vec!["mov [bp + di], byte 7".to_string()], false));
    assert_eq!(
        lines_of(&[0xC7, 0x85, 0x85, 0x03, 0x5B, 0x01]),
        (vec!["mov [di + 901], word 347".to_string()], false)
    );
    assert_eq!(lines_of(&[0xC7, 0xC0, 0x34, 0x12]), (vec!["mov ax, word 4660".to_string()], false));
}

#[test]
fn end_of_stream_after_whole_instruction() {
    assert_eq!(lines_of(&[]), (vec![], false));
    assert_eq!(lines_of(&[0x89, 0xD8]), (vec!["mov ax, bx".to_string()], false));
}

#[test]
fn end_of_stream_inside_instruction() {
    assert_eq!(lines_of(&[0x89]), (vec![], true));
    assert_eq!(lines_of(&[0x89, 0xD8, 0x8B, 0x1E, 0xE8]), (vec!["mov ax, bx".to_string()], true));
    assert_eq!(lines_of(&[0xC7, 0x85, 0x85, 0x03, 0x5B]), (vec![], true));
}

#[test]
fn unknown_opcode_takes_one_byte() {
    let bytes = [0x0F, 0x89, 0xD8];
    let mut cur = ByteCursor::new(&bytes);
    assert!(matches!(decode_next(&mut cur), Step::Skipped));
    assert_eq!(cur.pos, 1);
    assert_eq!(lines_of(&bytes), (vec!["mov ax, bx".to_string()], false));
}

#[test]
fn placeholder_forms_take_one_byte() {
    assert_eq!(
        lines_of(&[0xA0, 0xA2, 0x8E, 0x8C]),
        (
            vec![
                "mov ;Memory to accumulator".to_string(),
                "mov ;Accumulator to memory".to_string(),
                "mov ;Register/memory to segment register".to_string(),
                "mov ;Segment register to register/memory".to_string(),
            ],
            false
        )
    );
}

#[test]
fn classify_patterns() {
    assert_eq!(classify(0x89), Form::RegMemWithReg);
    assert_eq!(classify(0xC7), Form::ImmediateToRegMem);
    assert_eq!(classify(0xB3), Form::ImmediateToReg);
    assert_eq!(classify(0xA1), Form::MemoryToAccumulator);
    assert_eq!(classify(0xA3), Form::AccumulatorToMemory);
    assert_eq!(classify(0x8E), Form::RegMemToSegment);
    assert_eq!(classify(0x8C), Form::SegmentToRegMem);
    assert_eq!(classify(0x90), Form::Unknown);
}

#[test]
fn decode_next_moves_cursor_past_instruction() {
    let bytes = [0xC7, 0x85, 0x85, 0x03, 0x5B, 0x01, 0xB1];
    let mut cur = ByteCursor::new(&bytes);
    match decode_next(&mut cur) {
        Step::Line(t) => assert_eq!(t, "mov [di + 901], word 347"),
        _ => panic!("expected a line"),
    }
    assert_eq!(cur.pos, 6);
    assert!(matches!(decode_next(&mut cur), Step::Truncated));
}

#[test]
fn cursor_reads_little_endian_signed() {
    let bytes = [0x34, 0x12, 0xFF, 0xFF, 0x80];
    let mut cur = ByteCursor::new(&bytes);
    assert_eq!(cur.read_i16_le(), Some(4660));
    assert_eq!(cur.read_i16_le(), Some(-1));
    assert_eq!(cur.read_i16_le(), None);
    assert_eq!(cur.pos, 4);
    assert_eq!(cur.read_i8(), Some(-128));
    assert_eq!(cur.read_u8(), None);
}

#[test]
fn register_names_by_width_and_selector() {
    assert_eq!(Register::from_fields(false, 0).name(), "al");
    assert_eq!(Register::from_fields(false, 4).name(), "ah");
    assert_eq!(Register::from_fields(true, 4).name(), "sp");
    assert_eq!(Register::from_fields(true, 7).name(), "di");
    assert_eq!(Register::from_fields(true, 0b1011), Register::Bx);
}

#[test]
fn mode_bits_map_totally() {
    assert_eq!(ModField::from_bits(0), ModField::MemoryNoDisplacement);
    assert_eq!(ModField::from_bits(1), ModField::MemoryDisplacement8bit);
    assert_eq!(ModField::from_bits(2), ModField::MemoryDisplacement16bit);
    assert_eq!(ModField::from_bits(3), ModField::RegisterNoDisplacement);
}

#[test]
fn signed_decimal_text() {
    assert_eq!(signed_string(0), "0");
    assert_eq!(signed_string(-1), "-1");
    assert_eq!(signed_string(32767), "32767");
    assert_eq!(signed_string(-32768), "-32768");
}

#[test]
fn listing_text_layout() {
    assert_eq!(render_listing(&vec![]), "bits 16\n");
    let lines = vec!["mov ax, bx".to_string(), "mov cl, -12".to_string()];
    assert_eq!(render_listing(&lines), "bits 16\n\nmov ax, bx\n\nmov cl, -12\n");
}
