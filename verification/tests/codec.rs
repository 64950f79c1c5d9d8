use repac_save::save_data_info::{get_save_slot_base_add, SaveDataIntType};
use repac_save::save_file_parser::{
    get_figure_info_from_save_data, get_int_array_from_save_data, get_int_value_from_save_data,
    get_text_value_from_save_data, modify_save_data,
};
use repac_save::EXPECTED_SAVE_FILE_SIZE;

fn full_buffer() -> Vec<u8> {
    vec![0u8; EXPECTED_SAVE_FILE_SIZE]
}

#[test]
fn slot_bases_distinct_and_fallback() {
    let bases = [
        get_save_slot_base_add(1),
        get_save_slot_base_add(2),
        get_save_slot_base_add(3),
        get_save_slot_base_add(4),
    ];
    assert_eq!(bases, [0x298, 0x7BC8, 0xF4F8, 0x16E28]);
    for i in 0..4 {
        for j in 0..4 {
            if i != j {
                assert_ne!(bases[i], bases[j]);
            }
        }
    }
    assert_eq!(get_save_slot_base_add(5), get_save_slot_base_add(1));
    assert_eq!(get_save_slot_base_add(0), 0x298);
}

#[test]
fn decode_scalar_empty_buffer_returns_zero() {
    let empty: Vec<u8> = Vec::new();
    assert_eq!(get_int_value_from_save_data(empty.clone(), 0x298, 0, &SaveDataIntType::Bool), 0);
    assert_eq!(get_int_value_from_save_data(empty.clone(), 0x298, 0, &SaveDataIntType::U32), 0);
    assert_eq!(get_int_value_from_save_data(empty.clone(), 0x298, 0, &SaveDataIntType::I32), 0);
    assert_eq!(
        get_int_value_from_save_data(empty, 0x298, 0, &SaveDataIntType::Arrayi32(4)),
        0
    );
}

#[test]
fn decode_signed_int_one() {
    let mut buffer = full_buffer();
    let base = get_save_slot_base_add(1);
    let offset = 0x46C;
    let pos = (base + offset) as usize;
    buffer[pos] = 0x01;
    buffer[pos + 1] = 0x00;
    buffer[pos + 2] = 0x00;
    buffer[pos + 3] = 0x00;
    assert_eq!(
        get_int_value_from_save_data(buffer, base, offset, &SaveDataIntType::I32),
        1
    );
}

#[test]
fn decode_signed_int_negative() {
    let mut buffer = full_buffer();
    let base = get_save_slot_base_add(2);
    let offset = 0x28;
    let pos = (base + offset) as usize;
    for i in 0..4 {
        buffer[pos + i] = 0xFF;
    }
    assert_eq!(
        get_int_value_from_save_data(buffer.clone(), base, offset, &SaveDataIntType::I32),
        -1
    );
    assert_eq!(
        get_int_value_from_save_data(buffer, base, offset, &SaveDataIntType::U32),
        4294967295
    );
}

#[test]
fn decode_scalar_rejects_array_shapes() {
    let buffer = full_buffer();
    assert_eq!(
        get_int_value_from_save_data(buffer.clone(), 0x298, 0x80, &SaveDataIntType::Arrayi32(40)),
        0
    );
    assert_eq!(
        get_int_value_from_save_data(buffer, 0x298, 0x18, &SaveDataIntType::ArrayText(16)),
        0
    );
}

#[test]
fn decode_byte_array() {
    let mut buffer = full_buffer();
    let base = get_save_slot_base_add(1);
    let offset = 0x34;
    let pos = (base + offset) as usize;
    buffer[pos] = 2;
    buffer[pos + 1] = 5;
    buffer[pos + 2] = 9;
    let decoded =
        get_int_array_from_save_data(buffer, base, offset, &SaveDataIntType::Arrayu8(3));
    assert_eq!(decoded, vec![2, 5, 9]);
}

#[test]
fn decode_int_array_values_and_length() {
    let mut buffer = full_buffer();
    let base = get_save_slot_base_add(1);
    let offset = 0x80;
    let pos = (base + offset) as usize;
    // element 0 = 0x01020304, element 1 = -1
    buffer[pos] = 0x04;
    buffer[pos + 1] = 0x03;
    buffer[pos + 2] = 0x02;
    buffer[pos + 3] = 0x01;
    for i in 4..8 {
        buffer[pos + i] = 0xFF;
    }
    let decoded =
        get_int_array_from_save_data(buffer, base, offset, &SaveDataIntType::Arrayi32(40));
    assert_eq!(decoded.len(), 40);
    assert_eq!(decoded[0], 0x01020304);
    assert_eq!(decoded[1], -1);
    assert_eq!(decoded[2], 0);
}

#[test]
fn decode_array_length_matches_count_for_declared_shapes() {
    let buffer = full_buffer();
    let base = get_save_slot_base_add(4);
    let a = get_int_array_from_save_data(
        buffer.clone(),
        base,
        0x2F04,
        &SaveDataIntType::Arrayi32(672),
    );
    assert_eq!(a.len(), 672);
    let b = get_int_array_from_save_data(buffer.clone(), base, 0x450, &SaveDataIntType::Arrayu8(15));
    assert_eq!(b.len(), 15);
    let c = get_int_array_from_save_data(buffer, base, 0x5C2, &SaveDataIntType::Arrayu8(83));
    assert_eq!(c.len(), 83);
}

#[test]
fn decode_array_degrades_on_undersized_buffer() {
    let short = vec![0u8; 16];
    let decoded =
        get_int_array_from_save_data(short, 0x298, 0x80, &SaveDataIntType::Arrayi32(40));
    assert!(decoded.is_empty());
}

#[test]
fn decode_array_rejects_scalar_and_text_shapes() {
    let buffer = full_buffer();
    assert!(get_int_array_from_save_data(buffer.clone(), 0x298, 0, &SaveDataIntType::I32)
        .is_empty());
    assert!(
        get_int_array_from_save_data(buffer, 0x298, 0x18, &SaveDataIntType::ArrayText(16))
            .is_empty()
    );
}

#[test]
fn decode_text_ascii() {
    let mut buffer = full_buffer();
    let base = get_save_slot_base_add(1);
    let offset = 0x18;
    let pos = (base + offset) as usize;
    for (i, b) in b"ABCDE".iter().enumerate() {
        buffer[pos + i] = *b;
    }
    let text = get_text_value_from_save_data(buffer, base, offset, &SaveDataIntType::ArrayText(5));
    assert_eq!(text, "ABCDE");
}

#[test]
fn decode_text_reads_exactly_length_bytes() {
    let mut buffer = full_buffer();
    let base = get_save_slot_base_add(1);
    let offset = 0x18;
    let pos = (base + offset) as usize;
    for (i, b) in b"ABCDE".iter().enumerate() {
        buffer[pos + i] = *b;
    }
    // The byte just past the requested range is invalid UTF-8; it must not
    // be read, so decoding still succeeds with exactly five characters.
    buffer[pos + 5] = 0xFF;
    let text = get_text_value_from_save_data(
        buffer.clone(),
        base,
        offset,
        &SaveDataIntType::ArrayText(5),
    );
    assert_eq!(text, "ABCDE");
    // Shortening the requested range by one drops exactly one character.
    let text4 =
        get_text_value_from_save_data(buffer, base, offset, &SaveDataIntType::ArrayText(4));
    assert_eq!(text4, "ABCD");
}

#[test]
fn decode_text_multibyte_utf8() {
    let mut buffer = full_buffer();
    let base = get_save_slot_base_add(3);
    let offset = 0x18;
    let pos = (base + offset) as usize;
    // "é" encodes as two bytes; the decoded string must hold one character.
    buffer[pos] = 0xC3;
    buffer[pos + 1] = 0xA9;
    let text = get_text_value_from_save_data(buffer, base, offset, &SaveDataIntType::ArrayText(2));
    assert_eq!(text, "é");
    assert_eq!(text.chars().count(), 1);
}

#[test]
fn decode_text_invalid_utf8_returns_sentinel() {
    let mut buffer = full_buffer();
    let base = get_save_slot_base_add(1);
    let offset = 0x18;
    let pos = (base + offset) as usize;
    buffer[pos] = 0xFF;
    buffer[pos + 1] = 0xFE;
    let text = get_text_value_from_save_data(buffer, base, offset, &SaveDataIntType::ArrayText(5));
    assert_eq!(text, "Error");
}

#[test]
fn decode_text_wrong_shape_returns_sentinel() {
    let buffer = full_buffer();
    let text = get_text_value_from_save_data(buffer, 0x298, 0x28, &SaveDataIntType::I32);
    assert_eq!(text, "Error");
}

#[test]
fn decode_text_undersized_buffer_returns_empty() {
    let short: Vec<u8> = Vec::new();
    let text = get_text_value_from_save_data(short, 0x298, 0x18, &SaveDataIntType::ArrayText(16));
    assert_eq!(text, "");
}

#[test]
fn decode_record_array_single_record() {
    let mut buffer = full_buffer();
    let base = get_save_slot_base_add(1);
    let offset = 0x2BE8;
    let pos = (base + offset) as usize;
    let record = [0x05u8, 0x00, 0x00, 0x00, 0x00, 0x00, 0x00, 0x00];
    for (i, b) in record.iter().enumerate() {
        buffer[pos + i] = *b;
    }
    let decoded = get_figure_info_from_save_data(buffer, base, offset, 1);
    assert_eq!(decoded.len(), 1);
    assert_eq!(decoded[0].figure_id, 5);
    assert_eq!(f32::from_bits(decoded[0].angle_bits), 0.0);
}

#[test]
fn decode_record_array_stride_and_count() {
    let mut buffer = full_buffer();
    let base = get_save_slot_base_add(2);
    let offset = 0x2BE8;
    let pos = (base + offset) as usize;
    // Second record: id = 7, angle = 90.0.
    buffer[pos + 8] = 7;
    let angle_bytes = 90.0f32.to_le_bytes();
    for (i, b) in angle_bytes.iter().enumerate() {
        buffer[pos + 12 + i] = *b;
    }
    let decoded = get_figure_info_from_save_data(buffer, base, offset, 50);
    assert_eq!(decoded.len(), 50);
    assert_eq!(decoded[0].figure_id, 0);
    assert_eq!(decoded[1].figure_id, 7);
    assert_eq!(f32::from_bits(decoded[1].angle_bits), 90.0);
}

#[test]
fn decode_record_array_undersized_buffer_is_empty() {
    let short = vec![0u8; 100];
    let decoded = get_figure_info_from_save_data(short, 0x298, 0x2BE8, 50);
    assert!(decoded.is_empty());
}

#[test]
fn encode_bool_clamps_positive_values() {
    let mut buffer = full_buffer();
    let base = get_save_slot_base_add(1);
    let offset = 0x58C;
    modify_save_data(&mut buffer, base, offset, SaveDataIntType::Bool, 7);
    let pos = (base + offset) as usize;
    assert_eq!(buffer[pos], 0x01);
    assert_eq!(
        get_int_value_from_save_data(buffer.clone(), base, offset, &SaveDataIntType::Bool),
        1
    );
    modify_save_data(&mut buffer, base, offset, SaveDataIntType::Bool, -3);
    assert_eq!(buffer[pos], 0x00);
    modify_save_data(&mut buffer, base, offset, SaveDataIntType::Bool, 0);
    assert_eq!(buffer[pos], 0x00);
}

#[test]
fn encode_decode_round_trip_scalars() {
    let mut buffer = full_buffer();
    let base = get_save_slot_base_add(1);
    let offset = 0x46C;
    modify_save_data(&mut buffer, base, offset, SaveDataIntType::I32, -12345);
    assert_eq!(
        get_int_value_from_save_data(buffer.clone(), base, offset, &SaveDataIntType::I32),
        -12345
    );
    modify_save_data(&mut buffer, base, offset, SaveDataIntType::U32, 3000000000);
    assert_eq!(
        get_int_value_from_save_data(buffer.clone(), base, offset, &SaveDataIntType::U32),
        3000000000
    );
    // Truncation rule: only the low 32 bits survive the U32 shape.
    modify_save_data(&mut buffer, base, offset, SaveDataIntType::U32, 0x1_0000_0002);
    assert_eq!(
        get_int_value_from_save_data(buffer.clone(), base, offset, &SaveDataIntType::U32),
        2
    );
}

#[test]
fn encode_writes_little_endian_bytes() {
    let mut buffer = full_buffer();
    let base = get_save_slot_base_add(1);
    let offset = 0x28;
    modify_save_data(&mut buffer, base, offset, SaveDataIntType::I32, 0x01020304);
    let pos = (base + offset) as usize;
    assert_eq!(&buffer[pos..pos + 4], &[0x04, 0x03, 0x02, 0x01]);
}

#[test]
fn encode_array_element_byte_truncates() {
    let mut buffer = full_buffer();
    let base = get_save_slot_base_add(1);
    let offset = 0x34;
    modify_save_data(&mut buffer, base, offset, SaveDataIntType::Arrayu8(40), 0x1FF);
    let pos = (base + offset) as usize;
    assert_eq!(buffer[pos], 0xFF);
    assert_eq!(buffer[pos + 1], 0x00);
}

#[test]
fn encode_text_shape_leaves_buffer_unchanged() {
    let mut buffer = full_buffer();
    let before = buffer.clone();
    modify_save_data(&mut buffer, 0x298, 0x18, SaveDataIntType::ArrayText(16), 65);
    assert_eq!(buffer, before);
}

#[test]
fn encode_undersized_buffer_leaves_it_unchanged() {
    let mut short = vec![0u8; 32];
    let before = short.clone();
    modify_save_data(&mut short, 0x298, 0x0, SaveDataIntType::Bool, 1);
    assert_eq!(short, before);
}
