//! The schema registry and the byte-level codec of the save format.
//!
//! The registry maps every [`SaveDataVar`] and slot ordinal to a
//! [`SaveFileData`] descriptor: a fixed offset relative to the slot's base
//! and a [`SaveDataIntType`] shape. The codec decodes and encodes values at
//! those offsets in the in-memory copy of the file. Every decode and encode
//! entry point first checks that the buffer reaches
//! [`EXPECTED_SAVE_FILE_SIZE`] and degrades to a default result otherwise,
//! so a not-yet-loaded or truncated buffer is never read out of range.

use vstd::prelude::*;
use vstd::slice::slice_subrange;
use vstd::string::StringExecFns;
use vstd::utf8::{decode_utf8, valid_utf8};
use crate::EXPECTED_SAVE_FILE_SIZE;
use crate::save_data_info::{SaveDataIntType, SaveDataVar, SaveFileData, get_save_slot_base_add, spec_slot_base};

verus! {

/// One entry of a record array: a figure identifier and the IEEE-754 bit
/// pattern of its display angle, both read little-endian from the file.
#[derive(Debug, Clone, Copy, PartialEq, Eq, Structural)]
pub struct SFigureDisplayInfo {
    pub figure_id: i32,
    pub angle_bits: u32,
}

/// Whether a shape is decoded by the scalar path.
pub open spec fn spec_is_scalar(t: SaveDataIntType) -> bool {
    t is Bool || t is U32 || t is I32
}

/// How many bytes the scalar path reads or writes for a shape; 0 for the
/// shapes it rejects.
pub open spec fn spec_scalar_width(t: SaveDataIntType) -> int {
    match t {
        SaveDataIntType::Bool => 1,
        SaveDataIntType::U32 => 4,
        SaveDataIntType::I32 => 4,
        _ => 0,
    }
}

/// The unsigned 32-bit value that four little-endian bytes represent.
pub open spec fn spec_le_bytes_to_u32(b0: u8, b1: u8, b2: u8, b3: u8) -> u32 {
    (b0 as u32) | (b1 as u32) << 8 | (b2 as u32) << 16 | (b3 as u32) << 24
}

/// The unsigned 32-bit value stored little-endian at `pos`.
pub open spec fn spec_le_u32_at(data: Seq<u8>, pos: int) -> u32 {
    spec_le_bytes_to_u32(data[pos], data[pos + 1], data[pos + 2], data[pos + 3])
}

/// Byte `k` (0..=3) of the little-endian encoding of `x`.
pub open spec fn spec_u32_le_byte(x: u32, k: int) -> u8 {
    if k == 0 {
        (x & 0xff) as u8
    } else if k == 1 {
        ((x >> 8) & 0xff) as u8
    } else if k == 2 {
        ((x >> 16) & 0xff) as u8
    } else {
        ((x >> 24) & 0xff) as u8
    }
}

/// `data` with the four little-endian bytes of `x` written at `pos`.
pub open spec fn spec_write_u32_at(data: Seq<u8>, pos: int, x: u32) -> Seq<u8> {
    data.update(pos, spec_u32_le_byte(x, 0)).update(pos + 1, spec_u32_le_byte(x, 1)).update(
        pos + 2,
        spec_u32_le_byte(x, 2),
    ).update(pos + 3, spec_u32_le_byte(x, 3))
}

/// Writing a 32-bit value little-endian and reading it back at the same
/// position yields the value again.
pub proof fn lemma_le_u32_round_trip(data: Seq<u8>, pos: int, x: u32)
    requires
        0 <= pos,
        pos + 4 <= data.len(),
    ensures
        spec_le_u32_at(spec_write_u32_at(data, pos, x), pos) == x,
{
    let b0 = (x & 0xff) as u8;
    let b1 = ((x >> 8) & 0xff) as u8;
    let b2 = ((x >> 16) & 0xff) as u8;
    let b3 = ((x >> 24) & 0xff) as u8;
    assert((b0 as u32) | ((b1 as u32) << 8) | ((b2 as u32) << 16) | ((b3 as u32) << 24) == x) by {
        assert(((((x & 0xff) as u8) as u32) | ((((x >> 8) & 0xff) as u8) as u32) << 8 | ((((x >> 16)
            & 0xff) as u8) as u32) << 16 | ((((x >> 24) & 0xff) as u8) as u32) << 24) == x)
            by (bit_vector);
    }
}

/// The value the scalar decode path returns: 0 for an undersized buffer and
/// for non-scalar shapes, otherwise the widened value read at
/// `slot_base + offset`.
pub open spec fn spec_int_value(data: Seq<u8>, slot_base: u32, offset: u32, t: SaveDataIntType) -> i64 {
    if data.len() < EXPECTED_SAVE_FILE_SIZE {
        0i64
    } else {
        let pos = slot_base + offset;
        match t {
            SaveDataIntType::Bool => data[pos] as i64,
            SaveDataIntType::U32 => spec_le_u32_at(data, pos) as i64,
            SaveDataIntType::I32 => (spec_le_u32_at(data, pos) as i32) as i64,
            _ => 0i64,
        }
    }
}

/// Reads the little-endian u32 at `pos`.
fn read_u32_le(data: &Vec<u8>, pos: usize) -> (x: u32)
    requires
        pos + 4 <= data.len(),
    ensures
        x == spec_le_u32_at(data@, pos as int),
{
    let b0 = data[pos];
    let b1 = data[pos + 1];
    let b2 = data[pos + 2];
    let b3 = data[pos + 3];
    (b0 as u32) | (b1 as u32) << 8u32 | (b2 as u32) << 16u32 | (b3 as u32) << 24u32
}

/// Decodes the scalar variable of shape `int_type` at `slot_base + offset`.
/// Bool returns the raw byte widened; U32 and I32 read four little-endian
/// bytes and widen. An undersized buffer, and a call with an array or text
/// shape, return 0 instead of failing.
pub fn get_int_value_from_save_data(
    save_file_raw: Vec<u8>,
    slot_base: u32,
    offset: u32,
    int_type: &SaveDataIntType,
) -> (value: i64)
    requires
        save_file_raw.len() >= EXPECTED_SAVE_FILE_SIZE && spec_is_scalar(*int_type)
            ==> slot_base + offset + spec_scalar_width(*int_type) <= save_file_raw.len(),
    ensures
        value == spec_int_value(save_file_raw@, slot_base, offset, *int_type),
{
    if save_file_raw.len() < EXPECTED_SAVE_FILE_SIZE {
        return 0;
    }
    match int_type {
        SaveDataIntType::Bool => save_file_raw[slot_base as usize + offset as usize] as i64,
        SaveDataIntType::U32 => {
            let v = read_u32_le(&save_file_raw, slot_base as usize + offset as usize);
            v as i64
        }
        SaveDataIntType::I32 => {
            let v = read_u32_le(&save_file_raw, slot_base as usize + offset as usize);
            (#[verifier::truncate] (v as i32)) as i64
        }
        SaveDataIntType::Arrayi32(_)
        | SaveDataIntType::ArrayText(_)
        | SaveDataIntType::Arrayu8(_)
        | SaveDataIntType::SFigureDisplayInfoArray(_) => 0,
    }
}

/// How many bytes the integer-array decode path reads for a shape; 0 for
/// the shapes it rejects.
pub open spec fn spec_array_byte_len(t: SaveDataIntType) -> int {
    match t {
        SaveDataIntType::Arrayi32(len) => 4 * len,
        SaveDataIntType::Arrayu8(len) => len as int,
        _ => 0,
    }
}

/// The sequence the integer-array decode path returns: empty for an
/// undersized buffer and for non-array shapes; otherwise exactly `len`
/// elements read contiguously from `slot_base + offset` with the shape's
/// stride, each widened.
pub open spec fn spec_int_array_value(data: Seq<u8>, slot_base: u32, offset: u32, t: SaveDataIntType) -> Seq<i64> {
    if data.len() < EXPECTED_SAVE_FILE_SIZE {
        Seq::<i64>::empty()
    } else {
        let pos = slot_base + offset;
        match t {
            SaveDataIntType::Arrayi32(len) => Seq::new(
                len as nat,
                |i: int| (spec_le_u32_at(data, pos + 4 * i) as i32) as i64,
            ),
            SaveDataIntType::Arrayu8(len) => Seq::new(len as nat, |i: int| data[pos + i] as i64),
            _ => Seq::<i64>::empty(),
        }
    }
}

/// Decodes the array variable of shape `int_type` at `slot_base + offset`:
/// `len` elements of 4-byte little-endian signed integers or single bytes,
/// each widened. The result holds exactly the declared count of elements.
/// An undersized buffer, the text shape, and the non-array shapes return an
/// empty sequence instead of failing.
pub fn get_int_array_from_save_data(
    save_file_raw: Vec<u8>,
    slot_base: u32,
    offset: u32,
    int_type: &SaveDataIntType,
) -> (value: Vec<i64>)
    requires
        save_file_raw.len() >= EXPECTED_SAVE_FILE_SIZE && spec_array_byte_len(*int_type) > 0
            ==> slot_base + offset + spec_array_byte_len(*int_type) <= save_file_raw.len(),
    ensures
        value@ == spec_int_array_value(save_file_raw@, slot_base, offset, *int_type),
        save_file_raw.len() >= EXPECTED_SAVE_FILE_SIZE ==> match *int_type {
            SaveDataIntType::Arrayi32(len) => value@.len() == len,
            SaveDataIntType::Arrayu8(len) => value@.len() == len,
            _ => value@.len() == 0,
        },
{
    if save_file_raw.len() < EXPECTED_SAVE_FILE_SIZE {
        return Vec::new();
    }
    match int_type {
        SaveDataIntType::Arrayi32(len) => {
            let count = *len as usize;
            let mut final_vec: Vec<i64> = Vec::new();
            for i in 0..count
                invariant
                    count == spec_array_byte_len(*int_type) / 4,
                    save_file_raw.len() >= EXPECTED_SAVE_FILE_SIZE,
                    count > 0 ==> slot_base + offset + 4 * count <= save_file_raw.len(),
                    final_vec@.len() == i,
                    forall|j: int| 0 <= j < i ==> final_vec@[j] == (spec_le_u32_at(
                        save_file_raw@,
                        slot_base + offset + 4 * j,
                    ) as i32) as i64,
            {
                let p = slot_base as usize + offset as usize + 4 * i;
                let raw = read_u32_le(&save_file_raw, p);
                final_vec.push((#[verifier::truncate] (raw as i32)) as i64);
            }
            proof {
                assert(final_vec@ =~= spec_int_array_value(
                    save_file_raw@,
                    slot_base,
                    offset,
                    *int_type,
                ));
            }
            final_vec
        }
        SaveDataIntType::Arrayu8(len) => {
            let count = *len as usize;
            let mut final_vec: Vec<i64> = Vec::new();
            for i in 0..count
                invariant
                    count == spec_array_byte_len(*int_type),
                    save_file_raw.len() >= EXPECTED_SAVE_FILE_SIZE,
                    count > 0 ==> slot_base + offset + count <= save_file_raw.len(),
                    final_vec@.len() == i,
                    forall|j: int| 0 <= j < i ==> final_vec@[j] == save_file_raw@[slot_base + offset
                        + j] as i64,
            {
                let byte_found: u8 = save_file_raw[slot_base as usize + offset as usize + i];
                final_vec.push(byte_found as i64);
            }
            proof {
                assert(final_vec@ =~= spec_int_array_value(
                    save_file_raw@,
                    slot_base,
                    offset,
                    *int_type,
                ));
            }
            final_vec
        }
        SaveDataIntType::ArrayText(_) => Vec::new(),
        SaveDataIntType::Bool
        | SaveDataIntType::U32
        | SaveDataIntType::I32
        | SaveDataIntType::SFigureDisplayInfoArray(_) => Vec::new(),
    }
}

/// The sequence the record-array decode path returns: empty for an
/// undersized buffer, otherwise `len` records of 8 bytes each, a 4-byte
/// little-endian signed id followed by the 4-byte little-endian bit pattern
/// of the angle, read contiguously and never overlapping.
pub open spec fn spec_figure_info(data: Seq<u8>, slot_base: u32, offset: u32, len: u32) -> Seq<SFigureDisplayInfo> {
    if data.len() < EXPECTED_SAVE_FILE_SIZE {
        Seq::<SFigureDisplayInfo>::empty()
    } else {
        let pos = slot_base + offset;
        Seq::new(
            len as nat,
            |i: int| SFigureDisplayInfo {
                figure_id: spec_le_u32_at(data, pos + 8 * i) as i32,
                angle_bits: spec_le_u32_at(data, pos + 8 * i + 4),
            },
        )
    }
}

/// Decodes `len` 8-byte records at `slot_base + offset`: each holds a
/// 4-byte little-endian signed figure id and then the 4-byte little-endian
/// bit pattern of its display angle. An undersized buffer returns an empty
/// sequence instead of failing.
pub fn get_figure_info_from_save_data(
    save_file_raw: Vec<u8>,
    slot_base: u32,
    offset: u32,
    len: u32,
) -> (value: Vec<SFigureDisplayInfo>)
    requires
        save_file_raw.len() >= EXPECTED_SAVE_FILE_SIZE && len > 0 ==> slot_base + offset + 8 * len
            <= save_file_raw.len(),
    ensures
        value@ == spec_figure_info(save_file_raw@, slot_base, offset, len),
        save_file_raw.len() >= EXPECTED_SAVE_FILE_SIZE ==> value@.len() == len,
{
    if save_file_raw.len() < EXPECTED_SAVE_FILE_SIZE {
        return Vec::new();
    }
    let count = len as usize;
    let mut final_vec: Vec<SFigureDisplayInfo> = Vec::new();
    for i in 0..count
        invariant
            count == len,
            save_file_raw.len() >= EXPECTED_SAVE_FILE_SIZE,
            count > 0 ==> slot_base + offset + 8 * count <= save_file_raw.len(),
            final_vec@.len() == i,
            forall|j: int| 0 <= j < i ==> final_vec@[j] == (SFigureDisplayInfo {
                figure_id: spec_le_u32_at(save_file_raw@, slot_base + offset + 8 * j) as i32,
                angle_bits: spec_le_u32_at(save_file_raw@, slot_base + offset + 8 * j + 4),
            }),
    {
        let p = slot_base as usize + offset as usize + 8 * i;
        let figure_id = #[verifier::truncate] (read_u32_le(&save_file_raw, p) as i32);
        let angle_bits = read_u32_le(&save_file_raw, p + 4);
        final_vec.push(SFigureDisplayInfo { figure_id, angle_bits });
    }
    proof {
        assert(final_vec@ =~= spec_figure_info(save_file_raw@, slot_base, offset, len));
    }
    final_vec
}

/// The string the text decode path returns for shape `t`: for the text
/// shape over a full-size buffer, the UTF-8 decoding of exactly the `len`
/// bytes at `slot_base + offset` — the sentinel "Error" if they are not
/// valid UTF-8; the empty string for an undersized buffer; "Error" for
/// every non-text shape.
pub open spec fn spec_text_value(data: Seq<u8>, slot_base: u32, offset: u32, t: SaveDataIntType) -> Seq<char> {
    match t {
        SaveDataIntType::ArrayText(len) => if data.len() < EXPECTED_SAVE_FILE_SIZE {
            Seq::<char>::empty()
        } else {
            let bytes = data.subrange(slot_base + offset, slot_base + offset + len);
            if valid_utf8(bytes) {
                decode_utf8(bytes)
            } else {
                "Error"@
            }
        },
        _ => "Error"@,
    }
}

/// The text decode reads exactly the declared number of bytes: two
/// full-size buffers that agree on the `len` bytes at `slot_base + offset`
/// decode to the same string, however the rest of their contents differ.
pub proof fn lemma_text_value_reads_exactly_length(
    data1: Seq<u8>,
    data2: Seq<u8>,
    slot_base: u32,
    offset: u32,
    len: u32,
)
    requires
        data1.len() >= EXPECTED_SAVE_FILE_SIZE,
        data2.len() >= EXPECTED_SAVE_FILE_SIZE,
        slot_base + offset + len <= data1.len(),
        slot_base + offset + len <= data2.len(),
        data1.subrange(slot_base + offset, slot_base + offset + len) == data2.subrange(
            slot_base + offset,
            slot_base + offset + len,
        ),
    ensures
        spec_text_value(data1, slot_base, offset, SaveDataIntType::ArrayText(len))
            == spec_text_value(data2, slot_base, offset, SaveDataIntType::ArrayText(len)),
{
}

/// Relies on str::from_utf8: it returns Ok exactly when the bytes are valid
/// UTF-8, and the returned string is their decoding.
#[verifier::external_body]
fn utf8_to_string(bytes: &[u8]) -> (r: Option<String>)
    ensures
        r is Some <==> valid_utf8(bytes@),
        r matches Some(s) ==> s@ == decode_utf8(bytes@),
{
    match core::str::from_utf8(bytes) {
        Ok(s) => Some(s.to_string()),
        Err(_) => None,
    }
}

/// Decodes the fixed-length text variable at `slot_base + offset`: reads
/// exactly the declared number of bytes and UTF-8-decodes them. Invalid
/// UTF-8 and a call with a non-text shape return the sentinel "Error"; an
/// undersized buffer returns the empty string.
pub fn get_text_value_from_save_data(
    save_file_raw: Vec<u8>,
    slot_base: u32,
    offset: u32,
    int_type: &SaveDataIntType,
) -> (value: String)
    requires
        save_file_raw.len() >= EXPECTED_SAVE_FILE_SIZE ==> (*int_type matches
            SaveDataIntType::ArrayText(len) ==> slot_base + offset + len <= save_file_raw.len()),
    ensures
        value@ == spec_text_value(save_file_raw@, slot_base, offset, *int_type),
{
    match int_type {
        SaveDataIntType::ArrayText(len) => {
            if save_file_raw.len() < EXPECTED_SAVE_FILE_SIZE {
                return String::new();
            }
            let pos = slot_base as usize + offset as usize;
            let bytes = slice_subrange(save_file_raw.as_slice(), pos, pos + *len as usize);
            match utf8_to_string(bytes) {
                Some(text) => text,
                None => String::from_str("Error"),
            }
        }
        _ => String::from_str("Error"),
    }
}

/// How many bytes the encode path writes for a shape.
pub open spec fn spec_modify_width(t: SaveDataIntType) -> int {
    match t {
        SaveDataIntType::Bool => 1,
        SaveDataIntType::U32 => 4,
        SaveDataIntType::I32 => 4,
        SaveDataIntType::Arrayi32(_) => 4,
        SaveDataIntType::Arrayu8(_) => 1,
        SaveDataIntType::ArrayText(_) => 0,
        SaveDataIntType::SFigureDisplayInfoArray(_) => 4,
    }
}

/// The buffer after encoding `v` with shape `t` at `slot_base + offset`:
/// unchanged for an undersized buffer and for the text shape; otherwise only
/// the written bytes differ. Bool clamps any positive value to 1; the 4-byte
/// shapes write the truncated 32-bit value little-endian; the byte-array
/// shape writes the truncated low byte.
pub open spec fn spec_modify(data: Seq<u8>, slot_base: u32, offset: u32, t: SaveDataIntType, v: i64) -> Seq<u8> {
    if data.len() < EXPECTED_SAVE_FILE_SIZE {
        data
    } else {
        let pos = slot_base + offset;
        match t {
            SaveDataIntType::Bool => data.update(pos, if v > 0 { 1u8 } else { 0u8 }),
            SaveDataIntType::U32 => spec_write_u32_at(data, pos, v as u32),
            SaveDataIntType::I32 | SaveDataIntType::Arrayi32(_)
            | SaveDataIntType::SFigureDisplayInfoArray(_) => spec_write_u32_at(
                data,
                pos,
                (v as i32) as u32,
            ),
            SaveDataIntType::Arrayu8(_) => data.update(pos, v as u8),
            SaveDataIntType::ArrayText(_) => data,
        }
    }
}

/// Writes the four little-endian bytes of `x` at `pos`.
fn write_u32_le(data: &mut Vec<u8>, pos: usize, x: u32)
    requires
        pos + 4 <= old(data).len(),
    ensures
        final(data)@ == spec_write_u32_at(old(data)@, pos as int, x),
{
    proof {
        assert(x & 0xff < 256 && (x >> 8) & 0xff < 256 && (x >> 16) & 0xff < 256 && (x >> 24)
            & 0xff < 256) by (bit_vector);
    }
    data[pos] = (x & 0xff) as u8;
    data[pos + 1] = ((x >> 8) & 0xff) as u8;
    data[pos + 2] = ((x >> 16) & 0xff) as u8;
    data[pos + 3] = ((x >> 24) & 0xff) as u8;
}

/// Encodes `value_to_write` in place at `slot_base_add + offset` using the
/// width and endianness of `int_type`. Bool clamps any positive value to 1;
/// the 4-byte shapes write the truncated 32-bit representation; the
/// byte-array shape writes the truncated low byte; the text shape is not
/// editable and leaves the buffer unchanged, as does an undersized buffer.
pub fn modify_save_data(
    save_data: &mut Vec<u8>,
    slot_base_add: u32,
    offset: u32,
    int_type: SaveDataIntType,
    value_to_write: i64,
)
    requires
        old(save_data).len() >= EXPECTED_SAVE_FILE_SIZE ==> slot_base_add + offset
            + spec_modify_width(int_type) <= old(save_data).len(),
    ensures
        final(save_data)@ == spec_modify(
            old(save_data)@,
            slot_base_add,
            offset,
            int_type,
            value_to_write,
        ),
{
    if save_data.len() < EXPECTED_SAVE_FILE_SIZE {
        return;
    }
    let pos_to_write = slot_base_add as usize + offset as usize;
    match int_type {
        SaveDataIntType::Bool => {
            let value_to_bool: u8 = if value_to_write > 0 { 1 } else { 0 };
            save_data[pos_to_write] = value_to_bool;
        }
        SaveDataIntType::U32 => {
            write_u32_le(save_data, pos_to_write, #[verifier::truncate] (value_to_write as u32));
        }
        SaveDataIntType::I32 | SaveDataIntType::Arrayi32(_)
        | SaveDataIntType::SFigureDisplayInfoArray(_) => {
            let value_as_i32 = #[verifier::truncate] (value_to_write as i32);
            write_u32_le(save_data, pos_to_write, #[verifier::truncate] (value_as_i32 as u32));
        }
        SaveDataIntType::Arrayu8(_) => {
            save_data[pos_to_write] = #[verifier::truncate] (value_to_write as u8);
        }
        SaveDataIntType::ArrayText(_) => {}
    }
}

/// What a scalar decode returns after a scalar encode of `v` with the same
/// shape: the truncation or clamping that the shape applies to `v`.
pub open spec fn spec_scalar_round(t: SaveDataIntType, v: i64) -> i64 {
    match t {
        SaveDataIntType::Bool => if v > 0 { 1i64 } else { 0i64 },
        SaveDataIntType::U32 => (v as u32) as i64,
        SaveDataIntType::I32 => (v as i32) as i64,
        _ => 0i64,
    }
}

/// Round trip: encoding any value `v` with a scalar shape at an in-bounds
/// offset of a full-size buffer and decoding the same location with the same
/// shape yields `v` again, up to that shape's truncation or clamping rule
/// (Bool clamps positive values to 1, the integer shapes truncate to 32
/// bits).
pub proof fn lemma_scalar_round_trip(data: Seq<u8>, slot_base: u32, offset: u32, t: SaveDataIntType, v: i64)
    requires
        data.len() >= EXPECTED_SAVE_FILE_SIZE,
        spec_is_scalar(t),
        slot_base + offset + spec_scalar_width(t) <= data.len(),
    ensures
        spec_int_value(spec_modify(data, slot_base, offset, t, v), slot_base, offset, t)
            == spec_scalar_round(t, v),
{
    let pos = slot_base + offset;
    match t {
        SaveDataIntType::U32 => {
            lemma_le_u32_round_trip(data, pos as int, v as u32);
        }
        SaveDataIntType::I32 => {
            let w = v as i32;
            lemma_le_u32_round_trip(data, pos as int, w as u32);
            assert(((w as u32) as i32) == w) by (bit_vector);
        }
        _ => {}
    }
}

/// Number of stages tracked by the per-stage lists.
pub const LEVELS_COUNT: u32 = 40;

/// Number of mazes tracked by the per-maze lists.
pub const MAZES_COUNT: u32 = 15;

/// The schema table, location half: the offset of each variable relative to
/// its slot's base, and its binary shape. This table is the file format
/// contract and is fixed by the externally defined save layout.
pub open spec fn spec_var_layout(v: SaveDataVar) -> (u32, SaveDataIntType) {
    match v {
        SaveDataVar::FileExists => (0x0u32, SaveDataIntType::Bool),
        SaveDataVar::SaveDate => (0x18u32, SaveDataIntType::ArrayText(16)),
        SaveDataVar::PlayTimeHours => (0x28u32, SaveDataIntType::I32),
        SaveDataVar::PlayTimeMinutes => (0x2Cu32, SaveDataIntType::I32),
        SaveDataVar::PlayTimeSeconds => (0x30u32, SaveDataIntType::I32),
        SaveDataVar::StageFlagList => (0x34u32, SaveDataIntType::Arrayu8(LEVELS_COUNT)),
        SaveDataVar::ScoreList => (0x80u32, SaveDataIntType::Arrayi32(LEVELS_COUNT)),
        SaveDataVar::TimeTrialList => (0x1ACu32, SaveDataIntType::Arrayi32(LEVELS_COUNT)),
        SaveDataVar::TimeTrialCoopList => (0x210u32, SaveDataIntType::Arrayi32(LEVELS_COUNT)),
        SaveDataVar::FriendsFlagList => (0x404u32, SaveDataIntType::Arrayu8(9)),
        SaveDataVar::FriendsTalkList => (0x414u32, SaveDataIntType::Arrayi32(34)),
        SaveDataVar::StageMazeFlagList => (0x450u32, SaveDataIntType::Arrayu8(MAZES_COUNT)),
        SaveDataVar::LastStageId => (0x464u32, SaveDataIntType::I32),
        SaveDataVar::LastGameModeId => (0x468u32, SaveDataIntType::I32),
        SaveDataVar::Lives => (0x46Cu32, SaveDataIntType::I32),
        SaveDataVar::MazeFlagList => (0x470u32, SaveDataIntType::Arrayu8(MAZES_COUNT)),
        SaveDataVar::MazesScoreList => (0x4A4u32, SaveDataIntType::Arrayi32(MAZES_COUNT)),
        SaveDataVar::FruitsGetNum => (0x56Cu32, SaveDataIntType::I32),
        SaveDataVar::CapsuleGetNum => (0x570u32, SaveDataIntType::I32),
        SaveDataVar::MedalGetNum => (0x574u32, SaveDataIntType::I32),
        SaveDataVar::BombDotKillNum => (0x578u32, SaveDataIntType::I32),
        SaveDataVar::DotKillNum => (0x57Cu32, SaveDataIntType::I32),
        SaveDataVar::RevRollKillNum => (0x580u32, SaveDataIntType::I32),
        SaveDataVar::ButtBounceKillNum => (0x584u32, SaveDataIntType::I32),
        SaveDataVar::GhostKillNum => (0x588u32, SaveDataIntType::I32),
        SaveDataVar::MagicKeyUnlocked => (0x58Cu32, SaveDataIntType::Bool),
        SaveDataVar::TrueEnding => (0x590u32, SaveDataIntType::Bool),
        SaveDataVar::MarathonUnlocked => (0x594u32, SaveDataIntType::Bool),
        SaveDataVar::MarathonHighScore => (0x598u32, SaveDataIntType::I32),
        SaveDataVar::MarathonClear => (0x59Cu32, SaveDataIntType::I32),
        SaveDataVar::LastGISaveArea => (0x5A0u32, SaveDataIntType::I32),
        SaveDataVar::LoadInitScene => (0x5A4u32, SaveDataIntType::I32),
        SaveDataVar::DLCApplyFlag => (0x5A8u32, SaveDataIntType::I32),
        SaveDataVar::JukeBoxBGM => (0x5ACu32, SaveDataIntType::I32),
        SaveDataVar::JukeBoxMode => (0x5B0u32, SaveDataIntType::I32),
        SaveDataVar::JukeBoxLoop => (0x5B4u32, SaveDataIntType::I32),
        SaveDataVar::JukeBoxOrder => (0x5B8u32, SaveDataIntType::I32),
        SaveDataVar::JukeBoxFlag => (0x5BCu32, SaveDataIntType::I32),
        SaveDataVar::JukeBoxUnlockFlagList => (0x5C2u32, SaveDataIntType::Arrayu8(83)),
        SaveDataVar::MedalNum => (0x640u32, SaveDataIntType::I32),
        SaveDataVar::StageCherryFlag => (0x89Cu32, SaveDataIntType::Arrayi32(35)),
        SaveDataVar::StageStrawberryFlag => (0x9C8u32, SaveDataIntType::Arrayi32(35)),
        SaveDataVar::StageOrangeFlag => (0xAF4u32, SaveDataIntType::Arrayi32(35)),
        SaveDataVar::StageAppleFlag => (0xC20u32, SaveDataIntType::Arrayi32(35)),
        SaveDataVar::StageMelonFlag => (0xD4Cu32, SaveDataIntType::Arrayi32(35)),
        SaveDataVar::StageCherryNum => (0xE78u32, SaveDataIntType::Arrayi32(35)),
        SaveDataVar::StageStrawberryNum => (0xFA4u32, SaveDataIntType::Arrayi32(35)),
        SaveDataVar::StageOrangeNum => (0x10D0u32, SaveDataIntType::Arrayi32(35)),
        SaveDataVar::StageAppleNum => (0x1FFCu32, SaveDataIntType::Arrayi32(35)),
        SaveDataVar::StageMelonNum => (0x1328u32, SaveDataIntType::Arrayi32(35)),
        SaveDataVar::VillageCherryFlag => (0x1454u32, SaveDataIntType::Arrayi32(26)),
        SaveDataVar::VillageStrawberryFlag => (0x01610u32, SaveDataIntType::Arrayi32(29)),
        SaveDataVar::VillageOrangeFlag => (0x17CCu32, SaveDataIntType::Arrayi32(17)),
        SaveDataVar::VillageAppleFlag => (0x1988u32, SaveDataIntType::Arrayi32(22)),
        SaveDataVar::VillageMelonFlag => (0x1B44u32, SaveDataIntType::Arrayi32(32)),
        SaveDataVar::VillageCherryGetNum => (0x1D00u32, SaveDataIntType::I32),
        SaveDataVar::VillageStrawberryGetNum => (0x1D04u32, SaveDataIntType::I32),
        SaveDataVar::VillageOrangeGetNum => (0x1D08u32, SaveDataIntType::I32),
        SaveDataVar::VillageAppleGetNum => (0x1D0Cu32, SaveDataIntType::I32),
        SaveDataVar::VillageMelonGetNum => (0x1D10u32, SaveDataIntType::I32),
        SaveDataVar::VillageGFFlag => (0x1D14u32, SaveDataIntType::U32),
        SaveDataVar::CameraMode => (0x1D18u32, SaveDataIntType::I32),
        SaveDataVar::CameraSpeedY => (0x1D1Cu32, SaveDataIntType::I32),
        SaveDataVar::CameraSpeedX => (0x1D20u32, SaveDataIntType::I32),
        SaveDataVar::CameraControlY => (0x1D24u32, SaveDataIntType::Bool),
        SaveDataVar::CameraControlX => (0x1D28u32, SaveDataIntType::Bool),
        SaveDataVar::CameraAssistFlag => (0x1D2Cu32, SaveDataIntType::Bool),
        SaveDataVar::CameraYAutoRotateFlag => (0x1D30u32, SaveDataIntType::Bool),
        SaveDataVar::SwimControlY => (0x1D34u32, SaveDataIntType::Arrayi32(2)),
        SaveDataVar::MissionRewardFlag => (0x21ECu32, SaveDataIntType::Arrayi32((LEVELS_COUNT + 1) as u32)),
        SaveDataVar::PlayerSkinId => (0x23E0u32, SaveDataIntType::I32),
        SaveDataVar::PlayerSkinId2 => (0x23E4u32, SaveDataIntType::I32),
        SaveDataVar::FigureInfo => (0x23E8u32, SaveDataIntType::Arrayi32(20)),
        SaveDataVar::FigureDisplayInfo => (0x2BE8u32, SaveDataIntType::SFigureDisplayInfoArray(50)),
        SaveDataVar::GashaFlag => (0x2D78u32, SaveDataIntType::Arrayi32(100)),
        SaveDataVar::GashaLotteryNum => (0x2DA8u32, SaveDataIntType::I32),
        SaveDataVar::FlipKillNum => (0x2DACu32, SaveDataIntType::I32),
        SaveDataVar::SupperHipStunNum => (0x2DB0u32, SaveDataIntType::I32),
        SaveDataVar::SuperDolphinKillNum => (0x2DB4u32, SaveDataIntType::I32),
        SaveDataVar::UnlockStageSelectFlag => (0x2DB8u32, SaveDataIntType::I32),
        SaveDataVar::GameLevel => (0x2DBCu32, SaveDataIntType::I32),
        SaveDataVar::EnterPast => (0x2DC0u32, SaveDataIntType::Bool),
        SaveDataVar::OriginalFlag => (0x2DC0u32, SaveDataIntType::Arrayi32(3)),
        SaveDataVar::OriginalStageNum => (0x2DD0u32, SaveDataIntType::I32),
        SaveDataVar::OriginalHighScore => (0x2DD4u32, SaveDataIntType::I32),
        SaveDataVar::PacManiaStageNum => (0x2DD8u32, SaveDataIntType::I32),
        SaveDataVar::PacmaniaHighScore => (0x2DDCu32, SaveDataIntType::I32),
        SaveDataVar::PacAttackLevelNum => (0x2DE0u32, SaveDataIntType::Arrayi32(4)),
        SaveDataVar::PacAttackHighScore => (0x2DF0u32, SaveDataIntType::Arrayi32(4)),
        SaveDataVar::HelpFlag => (0x2E00u32, SaveDataIntType::Arrayi32(4)),
        SaveDataVar::DroneReticleSpeed => (0x2EF4u32, SaveDataIntType::I32),
        SaveDataVar::DroneReticleColor => (0x2EF8u32, SaveDataIntType::I32),
        SaveDataVar::DroneVacuumRangeFlag => (0x2EFCu32, SaveDataIntType::I32),
        SaveDataVar::EarlyBonusFigureFlag => (0x2F00u32, SaveDataIntType::I32),
        SaveDataVar::KeyConfigP1 => (0x2F04u32, SaveDataIntType::Arrayi32(672)),
        SaveDataVar::KeyConfigP2 => (0x3984u32, SaveDataIntType::Arrayi32(672)),
        SaveDataVar::GashaDLCFlag => (0x4404u32, SaveDataIntType::Arrayi32(4)),
        SaveDataVar::FigureInfoDLC => (0x4414u32, SaveDataIntType::Arrayi32(10)),
        SaveDataVar::EnterSonic => (0x4454u32, SaveDataIntType::Bool),
        SaveDataVar::VillageSonicFlag => (0x4458u32, SaveDataIntType::U32),
        SaveDataVar::LoadInitSceneCollab => (0x445Cu32, SaveDataIntType::I32),
        SaveDataVar::LoadInitSceneKind => (0x4560u32, SaveDataIntType::I32),
        SaveDataVar::LastStageIdCollab => (0x4564u32, SaveDataIntType::I32),
        SaveDataVar::LastStageIdKindCollab => (0x4568u32, SaveDataIntType::I32),
        SaveDataVar::PlayerSkinIdCollab => (0x456Cu32, SaveDataIntType::I32),
        SaveDataVar::FigureDisplayInfoCollab => (0x4570u32, SaveDataIntType::Arrayi32(114)),
        SaveDataVar::JukeBoxBGMCollab => (0x4638u32, SaveDataIntType::I32),
        SaveDataVar::JukeBoxModeCollab => (0x463Cu32, SaveDataIntType::I32),
    }
}

/// The schema table, naming half: the in-code name and the human display
/// name of each variable.
pub open spec fn spec_var_names(v: SaveDataVar) -> (Seq<char>, Seq<char>) {
    match v {
        SaveDataVar::FileExists => ("m_bExist"@, "File Exists"@),
        SaveDataVar::SaveDate => ("m_bDateList"@, "Last Save Date"@),
        SaveDataVar::PlayTimeHours => ("m_iPlayHours"@, "File Hours"@),
        SaveDataVar::PlayTimeMinutes => ("m_iPlayMinutes"@, "File Minutes"@),
        SaveDataVar::PlayTimeSeconds => ("m_iPlaySeconds"@, "File Seconds"@),
        SaveDataVar::StageFlagList => ("m_bStageFlagList"@, "Stage Flags"@),
        SaveDataVar::ScoreList => ("m_iStageScoreList"@, "Scores List"@),
        SaveDataVar::TimeTrialList => ("m_iStageTimeList"@, "Time Trials List"@),
        SaveDataVar::TimeTrialCoopList => ("m_iStageTimeListCoop"@, "Time Trials Coop List"@),
        SaveDataVar::FriendsFlagList => ("m_bFriendFlagList"@, "Friends Flag List"@),
        SaveDataVar::FriendsTalkList => ("m_uFriendTalkList"@, "Friends Talk List"@),
        SaveDataVar::StageMazeFlagList => ("m_bStageMazeFlagList"@, "Maze Unlocked Flags"@),
        SaveDataVar::LastStageId => ("m_iLastStageId"@, "Last Stage Id"@),
        SaveDataVar::LastGameModeId => ("m_iLastGameModeId"@, "Last Game Mode Id"@),
        SaveDataVar::Lives => ("m_iStockNum"@, "Lives"@),
        SaveDataVar::MazeFlagList => ("m_bMazeFlagList"@, "Maze Flag List"@),
        SaveDataVar::MazesScoreList => ("m_iMazeScoreList"@, "Mazes Score List"@),
        SaveDataVar::FruitsGetNum => ("m_iFruitsGetNum"@, "Fruits Get Number"@),
        SaveDataVar::CapsuleGetNum => ("m_iCapsuleGetNum"@, "Capsule Get Number"@),
        SaveDataVar::MedalGetNum => ("m_iMedalGetNum"@, "Medal Get Number"@),
        SaveDataVar::BombDotKillNum => ("m_iBombDotKillNum"@, "Bomb Dot Kill Number"@),
        SaveDataVar::DotKillNum => ("m_iPacDotKillNum"@, "PacDot Kill Number"@),
        SaveDataVar::RevRollKillNum => ("m_iPacDashKillNum"@, "Rev Roll Kill Number"@),
        SaveDataVar::ButtBounceKillNum => ("m_iHipKillNum"@, "Butt Bounce Kill Number"@),
        SaveDataVar::GhostKillNum => ("m_iGhostKillNum"@, "Ghost Kill Number"@),
        SaveDataVar::MagicKeyUnlocked => ("m_bGetMagicKey"@, "Magic Key Unlocked"@),
        SaveDataVar::TrueEnding => ("m_bAllTrueEnding"@, "True Ending (unused?)"@),
        SaveDataVar::MarathonUnlocked => ("m_bUnlockMarathon"@, "Marathon Unlocked (unused?)"@),
        SaveDataVar::MarathonHighScore => ("m_iMarathonHighScore"@, "Marathon High Score (unused?)"@),
        SaveDataVar::MarathonClear => ("m_iMarathonClearFlag"@, "Marathon Cleared (unused?)"@),
        SaveDataVar::LastGISaveArea => ("m_iLastGISaveArea"@, "Last GI Save Area (unused?)"@),
        SaveDataVar::LoadInitScene => ("m_iLoadInitScene"@, "Load Init Scene"@),
        SaveDataVar::DLCApplyFlag => ("m_iDLCApplyFlag"@, "DLC Apply Flag"@),
        SaveDataVar::JukeBoxBGM => ("m_iJukeBoxBGMKind"@, "Jukebox Music"@),
        SaveDataVar::JukeBoxMode => ("m_iJukeBoxMode"@, "Jukebox Mode"@),
        SaveDataVar::JukeBoxLoop => ("m_iJukeBoxLoop"@, "Jukebox Loop"@),
        SaveDataVar::JukeBoxOrder => ("m_iJukeBoxOrder"@, "Jukebox Order"@),
        SaveDataVar::JukeBoxFlag => ("m_iJukeBoxFlag"@, "Jukebox Flag"@),
        SaveDataVar::JukeBoxUnlockFlagList => ("m_bJukeBoxUnlockFlagList"@, "Jukebox Flag"@),
        SaveDataVar::MedalNum => ("m_iMedalNum"@, "Medals"@),
        SaveDataVar::StageCherryFlag => ("m_iStageCherryFlag"@, "Cherries Obtained Bitfield"@),
        SaveDataVar::StageStrawberryFlag => ("m_iStageStrawberryFlag"@, "Strawberries Obtained Bitfield"@),
        SaveDataVar::StageOrangeFlag => ("m_iStageOrangeFlag"@, "Oranges Obtained Bitfield"@),
        SaveDataVar::StageAppleFlag => ("m_iStageAppleFlag"@, "Apples Obtained Bitfield"@),
        SaveDataVar::StageMelonFlag => ("m_iStageMelonFlag"@, "Melons Obtained Bitfield"@),
        SaveDataVar::StageCherryNum => ("m_iStageCherryGetNum"@, "Cherry Per Level"@),
        SaveDataVar::StageStrawberryNum => ("m_iStageStrawberryGetNum"@, "Strawberry Per Level"@),
        SaveDataVar::StageOrangeNum => ("m_iStageOrangeGetNum"@, "Orange Per Level"@),
        SaveDataVar::StageAppleNum => ("m_iStageAppleGetNum"@, "Apple Per Level"@),
        SaveDataVar::StageMelonNum => ("m_iStageMelonGetNum"@, "Melon Per Level"@),
        SaveDataVar::VillageCherryFlag => ("m_iVillageCherryFlag"@, "Village Cherry Flags"@),
        SaveDataVar::VillageStrawberryFlag => ("m_iVillageStrawberryFlag"@, "Village Strawberry Flags"@),
        SaveDataVar::VillageOrangeFlag => ("m_iVillageOrangeFlag"@, "Village Orange Flags"@),
        SaveDataVar::VillageAppleFlag => ("m_iVillageAppleFlag"@, "Village Apple Flags"@),
        SaveDataVar::VillageMelonFlag => ("m_iVillageMelonFlag"@, "Village Melon Flags"@),
        SaveDataVar::VillageCherryGetNum => ("m_iVillageCherryGetNum"@, "Village Cherries"@),
        SaveDataVar::VillageStrawberryGetNum => ("m_iVillageStrawberryGetNum"@, "Village Strawberry"@),
        SaveDataVar::VillageOrangeGetNum => ("m_iVillageOrangeGetNum"@, "Village Oranges"@),
        SaveDataVar::VillageAppleGetNum => ("m_iVillageAppleGetNum"@, "Village Apples"@),
        SaveDataVar::VillageMelonGetNum => ("m_iVillageMelonGetNum"@, "Village Melons"@),
        SaveDataVar::VillageGFFlag => ("m_iVillageGFFlag"@, "Village GF Bitfield"@),
        SaveDataVar::CameraMode => ("m_iCameraMode"@, "Camera Mode"@),
        SaveDataVar::CameraSpeedY => ("m_iCameraSpeedUD"@, "Camera Sensitivity Y"@),
        SaveDataVar::CameraSpeedX => ("m_iCameraSpeedLR"@, "Camera Sensitivity X"@),
        SaveDataVar::CameraControlY => ("m_iCameraControlUD"@, "Reverse Vertical Camera"@),
        SaveDataVar::CameraControlX => ("m_iCameraControlLR"@, "Reverse Horizontal Camera"@),
        SaveDataVar::CameraAssistFlag => ("m_iCameraAssistFlag"@, "Disable Camera Assist"@),
        SaveDataVar::CameraYAutoRotateFlag => ("m_iCameraYAutoRotFlag"@, "Disable Player Tracking Camera"@),
        SaveDataVar::SwimControlY => ("m_iSwimControlUD"@, "Reverse Vertical Swim Control (?)"@),
        SaveDataVar::MissionRewardFlag => ("m_iMissionRewardFlag"@, "Mission Reward Flags"@),
        SaveDataVar::PlayerSkinId => ("m_iPlayerSkinId"@, "Player Skin"@),
        SaveDataVar::PlayerSkinId2 => ("m_iPlayerSkinId"@, "Player Skin P2"@),
        SaveDataVar::FigureInfo => ("m_sFigureInfo"@, "Figure Info"@),
        SaveDataVar::FigureDisplayInfo => ("m_sFigureDisplayInfo"@, "Figure Display Info"@),
        SaveDataVar::GashaFlag => ("m_iGashaFlag"@, "Gasha Flag List"@),
        SaveDataVar::GashaLotteryNum => ("m_iGashaLotteryNum"@, "Gasha Lottery Number"@),
        SaveDataVar::FlipKillNum => ("m_iFlipKillNum"@, "Flip Kill Number"@),
        SaveDataVar::SupperHipStunNum => ("m_iSuperHipStunNum"@, "Super Butt Bounce Stun Number"@),
        SaveDataVar::SuperDolphinKillNum => ("m_iSuperDolphinKillNum"@, "Super Dolphin Kick Kill Number"@),
        SaveDataVar::UnlockStageSelectFlag => ("m_uUnlockStageSelectFlag"@, "Unlock Stage Select Bitfield"@),
        SaveDataVar::GameLevel => ("m_iGameLevel"@, "Game Level"@),
        SaveDataVar::EnterPast => ("m_bEnterPast"@, "Enter Past"@),
        SaveDataVar::OriginalFlag => ("m_iOriginalFlag"@, "Pac-Man Flags"@),
        SaveDataVar::OriginalStageNum => ("m_iOriginalStageNum"@, "Pac-Man Best Stage"@),
        SaveDataVar::OriginalHighScore => ("m_iOriginalHighScore"@, "Pac-Man High Score"@),
        SaveDataVar::PacManiaStageNum => ("m_iPacManiaStageNum"@, "Pac-Mania Best Stage"@),
        SaveDataVar::PacmaniaHighScore => ("m_iPacManiaHighScore"@, "Pac-Mania High Score"@),
        SaveDataVar::PacAttackLevelNum => ("m_iPacAttackLevelNum"@, "Pac-Attack Best Level"@),
        SaveDataVar::PacAttackHighScore => ("m_iPacAttackHighScore"@, "Pac-Attack High Score"@),
        SaveDataVar::HelpFlag => ("m_iHelpFlag"@, "Help Flags"@),
        SaveDataVar::DroneReticleSpeed => ("m_iDroneReticleSpeed"@, "Drone Reticle Speed"@),
        SaveDataVar::DroneReticleColor => ("m_iDroneReticleColor"@, "Drone Reticle Color"@),
        SaveDataVar::DroneVacuumRangeFlag => ("m_iDroneVacuumRangeFlag"@, "Drone Vacuum Range Flag"@),
        SaveDataVar::EarlyBonusFigureFlag => ("m_iEarlyBonusFigureFlag"@, "Early Access Bonus Figure"@),
        SaveDataVar::KeyConfigP1 => ("m_keyconfigSave1P"@, "Inputs Config"@),
        SaveDataVar::KeyConfigP2 => ("m_keyconfigSave2P"@, "Inputs Config Player 2"@),
        SaveDataVar::GashaDLCFlag => ("m_iGashaDLCFlag"@, "Gasha DLC Flag"@),
        SaveDataVar::FigureInfoDLC => ("m_sFigureInfoDLC"@, "Figure Info DLC"@),
        SaveDataVar::EnterSonic => ("m_bEnterSonic"@, "Enter Sonic"@),
        SaveDataVar::VillageSonicFlag => ("m_uVillageSonicFlag"@, "Village Sonic Flag"@),
        SaveDataVar::LoadInitSceneCollab => ("m_iLoadInitSceneCollabo"@, "Load Init Scene (Sonic)"@),
        SaveDataVar::LoadInitSceneKind => ("m_iLoadInitSceneKind"@, "Load Init Scene Kind"@),
        SaveDataVar::LastStageIdCollab => ("m_iLastStageIdCollabo"@, "Last Stage ID (Sonic)"@),
        SaveDataVar::LastStageIdKindCollab => ("m_iLastStageIdKind"@, "Last Stage ID Kind (Sonic)"@),
        SaveDataVar::PlayerSkinIdCollab => ("m_iPlayerSkinIdCollabo"@, "Player Skin (Sonic)"@),
        SaveDataVar::FigureDisplayInfoCollab => ("m_iFigureDisplayInfoCollabo"@, "Figure Display Info (Sonic)"@),
        SaveDataVar::JukeBoxBGMCollab => ("m_iJukeBoxBGMKindCollabo"@, "Jukebox Music (Sonic)"@),
        SaveDataVar::JukeBoxModeCollab => ("m_iJukeBoxModeCollabo"@, "Jukebox Mode (Sonic)"@),
    }
}

/// What it means for `d` to be the descriptor of variable `v` in `slot`:
/// every field agrees with the schema table and the slot resolver.
pub open spec fn spec_is_descriptor(d: SaveFileData, v: SaveDataVar, slot: u8) -> bool {
    &&& d.var == v
    &&& d.slot_base_add == spec_slot_base(slot)
    &&& d.offset == spec_var_layout(v).0
    &&& d.int_type == spec_var_layout(v).1
    &&& d.variable_name@ == spec_var_names(v).0
    &&& d.variable_name_simple@ == spec_var_names(v).1
}

/// Resolves the descriptor of `req_data` in `slot`: its fixed offset
/// relative to the slot's base, its shape, and its display metadata. Total
/// over the closed variable enumeration: every identifier yields exactly one
/// descriptor for every slot.
pub fn get_save_file_variable(req_data: SaveDataVar, slot: u8) -> (data: SaveFileData)
    ensures
        spec_is_descriptor(data, req_data, slot),
{
    let slot_base_add: u32 = get_save_slot_base_add(slot);
    match req_data {
        SaveDataVar::FileExists => SaveFileData {
            variable_name: String::from_str("m_bExist"),
            variable_name_simple: String::from_str("File Exists"),
            offset: 0x0,
            int_type: SaveDataIntType::Bool,
            slot_base_add,
            var: req_data,
        },
        SaveDataVar::SaveDate => SaveFileData {
            variable_name: String::from_str("m_bDateList"),
            variable_name_simple: String::from_str("Last Save Date"),
            offset: 0x18,
            int_type: SaveDataIntType::ArrayText(16),
            slot_base_add,
            var: req_data,
        },
        SaveDataVar::PlayTimeHours => SaveFileData {
            variable_name: String::from_str("m_iPlayHours"),
            variable_name_simple: String::from_str("File Hours"),
            offset: 0x28,
            int_type: SaveDataIntType::I32,
            slot_base_add,
            var: req_data,
        },
        SaveDataVar::PlayTimeMinutes => SaveFileData {
            variable_name: String::from_str("m_iPlayMinutes"),
            variable_name_simple: String::from_str("File Minutes"),
            offset: 0x2C,
            int_type: SaveDataIntType::I32,
            slot_base_add,
            var: req_data,
        },
        SaveDataVar::PlayTimeSeconds => SaveFileData {
            variable_name: String::from_str("m_iPlaySeconds"),
            variable_name_simple: String::from_str("File Seconds"),
            offset: 0x30,
            int_type: SaveDataIntType::I32,
            slot_base_add,
            var: req_data,
        },
        SaveDataVar::StageFlagList => SaveFileData {
            variable_name: String::from_str("m_bStageFlagList"),
            variable_name_simple: String::from_str("Stage Flags"),
            offset: 0x34,
            int_type: SaveDataIntType::Arrayu8(LEVELS_COUNT),
            slot_base_add,
            var: req_data,
        },
        SaveDataVar::ScoreList => SaveFileData {
            variable_name: String::from_str("m_iStageScoreList"),
            variable_name_simple: String::from_str("Scores List"),
            offset: 0x80,
            int_type: SaveDataIntType::Arrayi32(LEVELS_COUNT),
            slot_base_add,
            var: req_data,
        },
        SaveDataVar::TimeTrialList => SaveFileData {
            variable_name: String::from_str("m_iStageTimeList"),
            variable_name_simple: String::from_str("Time Trials List"),
            offset: 0x1AC,
            int_type: SaveDataIntType::Arrayi32(LEVELS_COUNT),
            slot_base_add,
            var: req_data,
        },
        SaveDataVar::TimeTrialCoopList => SaveFileData {
            variable_name: String::from_str("m_iStageTimeListCoop"),
            variable_name_simple: String::from_str("Time Trials Coop List"),
            offset: 0x210,
            int_type: SaveDataIntType::Arrayi32(LEVELS_COUNT),
            slot_base_add,
            var: req_data,
        },
        SaveDataVar::FriendsFlagList => SaveFileData {
            variable_name: String::from_str("m_bFriendFlagList"),
            variable_name_simple: String::from_str("Friends Flag List"),
            offset: 0x404,
            int_type: SaveDataIntType::Arrayu8(9),
            slot_base_add,
            var: req_data,
        },
        SaveDataVar::FriendsTalkList => SaveFileData {
            variable_name: String::from_str("m_uFriendTalkList"),
            variable_name_simple: String::from_str("Friends Talk List"),
            offset: 0x414,
            int_type: SaveDataIntType::Arrayi32(34),
            slot_base_add,
            var: req_data,
        },
        SaveDataVar::StageMazeFlagList => SaveFileData {
            variable_name: String::from_str("m_bStageMazeFlagList"),
            variable_name_simple: String::from_str("Maze Unlocked Flags"),
            offset: 0x450,
            int_type: SaveDataIntType::Arrayu8(MAZES_COUNT),
            slot_base_add,
            var: req_data,
        },
        SaveDataVar::LastStageId => SaveFileData {
            variable_name: String::from_str("m_iLastStageId"),
            variable_name_simple: String::from_str("Last Stage Id"),
            offset: 0x464,
            int_type: SaveDataIntType::I32,
            slot_base_add,
            var: req_data,
        },
        SaveDataVar::LastGameModeId => SaveFileData {
            variable_name: String::from_str("m_iLastGameModeId"),
            variable_name_simple: String::from_str("Last Game Mode Id"),
            offset: 0x468,
            int_type: SaveDataIntType::I32,
            slot_base_add,
            var: req_data,
        },
        SaveDataVar::Lives => SaveFileData {
            variable_name: String::from_str("m_iStockNum"),
            variable_name_simple: String::from_str("Lives"),
            offset: 0x46C,
            int_type: SaveDataIntType::I32,
            slot_base_add,
            var: req_data,
        },
        SaveDataVar::MazeFlagList => SaveFileData {
            variable_name: String::from_str("m_bMazeFlagList"),
            variable_name_simple: String::from_str("Maze Flag List"),
            offset: 0x470,
            int_type: SaveDataIntType::Arrayu8(MAZES_COUNT),
            slot_base_add,
            var: req_data,
        },
        SaveDataVar::MazesScoreList => SaveFileData {
            variable_name: String::from_str("m_iMazeScoreList"),
            variable_name_simple: String::from_str("Mazes Score List"),
            offset: 0x4A4,
            int_type: SaveDataIntType::Arrayi32(MAZES_COUNT),
            slot_base_add,
            var: req_data,
        },
        SaveDataVar::FruitsGetNum => SaveFileData {
            variable_name: String::from_str("m_iFruitsGetNum"),
            variable_name_simple: String::from_str("Fruits Get Number"),
            offset: 0x56C,
            int_type: SaveDataIntType::I32,
            slot_base_add,
            var: req_data,
        },
        SaveDataVar::CapsuleGetNum => SaveFileData {
            variable_name: String::from_str("m_iCapsuleGetNum"),
            variable_name_simple: String::from_str("Capsule Get Number"),
            offset: 0x570,
            int_type: SaveDataIntType::I32,
            slot_base_add,
            var: req_data,
        },
        SaveDataVar::MedalGetNum => SaveFileData {
            variable_name: String::from_str("m_iMedalGetNum"),
            variable_name_simple: String::from_str("Medal Get Number"),
            offset: 0x574,
            int_type: SaveDataIntType::I32,
            slot_base_add,
            var: req_data,
        },
        SaveDataVar::BombDotKillNum => SaveFileData {
            variable_name: String::from_str("m_iBombDotKillNum"),
            variable_name_simple: String::from_str("Bomb Dot Kill Number"),
            offset: 0x578,
            int_type: SaveDataIntType::I32,
            slot_base_add,
            var: req_data,
        },
        SaveDataVar::DotKillNum => SaveFileData {
            variable_name: String::from_str("m_iPacDotKillNum"),
            variable_name_simple: String::from_str("PacDot Kill Number"),
            offset: 0x57C,
            int_type: SaveDataIntType::I32,
            slot_base_add,
            var: req_data,
        },
        SaveDataVar::RevRollKillNum => SaveFileData {
            variable_name: String::from_str("m_iPacDashKillNum"),
            variable_name_simple: String::from_str("Rev Roll Kill Number"),
            offset: 0x580,
            int_type: SaveDataIntType::I32,
            slot_base_add,
            var: req_data,
        },
        SaveDataVar::ButtBounceKillNum => SaveFileData {
            variable_name: String::from_str("m_iHipKillNum"),
            variable_name_simple: String::from_str("Butt Bounce Kill Number"),
            offset: 0x584,
            int_type: SaveDataIntType::I32,
            slot_base_add,
            var: req_data,
        },
        SaveDataVar::GhostKillNum => SaveFileData {
            variable_name: String::from_str("m_iGhostKillNum"),
            variable_name_simple: String::from_str("Ghost Kill Number"),
            offset: 0x588,
            int_type: SaveDataIntType::I32,
            slot_base_add,
            var: req_data,
        },
        SaveDataVar::MagicKeyUnlocked => SaveFileData {
            variable_name: String::from_str("m_bGetMagicKey"),
            variable_name_simple: String::from_str("Magic Key Unlocked"),
            offset: 0x58C,
            int_type: SaveDataIntType::Bool,
            slot_base_add,
            var: req_data,
        },
        SaveDataVar::TrueEnding => SaveFileData {
            variable_name: String::from_str("m_bAllTrueEnding"),
            variable_name_simple: String::from_str("True Ending (unused?)"),
            offset: 0x590,
            int_type: SaveDataIntType::Bool,
            slot_base_add,
            var: req_data,
        },
        SaveDataVar::MarathonUnlocked => SaveFileData {
            variable_name: String::from_str("m_bUnlockMarathon"),
            variable_name_simple: String::from_str("Marathon Unlocked (unused?)"),
            offset: 0x594,
            int_type: SaveDataIntType::Bool,
            slot_base_add,
            var: req_data,
        },
        SaveDataVar::MarathonHighScore => SaveFileData {
            variable_name: String::from_str("m_iMarathonHighScore"),
            variable_name_simple: String::from_str("Marathon High Score (unused?)"),
            offset: 0x598,
            int_type: SaveDataIntType::I32,
            slot_base_add,
            var: req_data,
        },
        SaveDataVar::MarathonClear => SaveFileData {
            variable_name: String::from_str("m_iMarathonClearFlag"),
            variable_name_simple: String::from_str("Marathon Cleared (unused?)"),
            offset: 0x59C,
            int_type: SaveDataIntType::I32,
            slot_base_add,
            var: req_data,
        },
        SaveDataVar::LastGISaveArea => SaveFileData {
            variable_name: String::from_str("m_iLastGISaveArea"),
            variable_name_simple: String::from_str("Last GI Save Area (unused?)"),
            offset: 0x5A0,
            int_type: SaveDataIntType::I32,
            slot_base_add,
            var: req_data,
        },
        SaveDataVar::LoadInitScene => SaveFileData {
            variable_name: String::from_str("m_iLoadInitScene"),
            variable_name_simple: String::from_str("Load Init Scene"),
            offset: 0x5A4,
            int_type: SaveDataIntType::I32,
            slot_base_add,
            var: req_data,
        },
        SaveDataVar::DLCApplyFlag => SaveFileData {
            variable_name: String::from_str("m_iDLCApplyFlag"),
            variable_name_simple: String::from_str("DLC Apply Flag"),
            offset: 0x5A8,
            int_type: SaveDataIntType::I32,
            slot_base_add,
            var: req_data,
        },
        SaveDataVar::JukeBoxBGM => SaveFileData {
            variable_name: String::from_str("m_iJukeBoxBGMKind"),
            variable_name_simple: String::from_str("Jukebox Music"),
            offset: 0x5AC,
            int_type: SaveDataIntType::I32,
            slot_base_add,
            var: req_data,
        },
        SaveDataVar::JukeBoxMode => SaveFileData {
            variable_name: String::from_str("m_iJukeBoxMode"),
            variable_name_simple: String::from_str("Jukebox Mode"),
            offset: 0x5B0,
            int_type: SaveDataIntType::I32,
            slot_base_add,
            var: req_data,
        },
        SaveDataVar::JukeBoxLoop => SaveFileData {
            variable_name: String::from_str("m_iJukeBoxLoop"),
            variable_name_simple: String::from_str("Jukebox Loop"),
            offset: 0x5B4,
            int_type: SaveDataIntType::I32,
            slot_base_add,
            var: req_data,
        },
        SaveDataVar::JukeBoxOrder => SaveFileData {
            variable_name: String::from_str("m_iJukeBoxOrder"),
            variable_name_simple: String::from_str("Jukebox Order"),
            offset: 0x5B8,
            int_type: SaveDataIntType::I32,
            slot_base_add,
            var: req_data,
        },
        SaveDataVar::JukeBoxFlag => SaveFileData {
            variable_name: String::from_str("m_iJukeBoxFlag"),
            variable_name_simple: String::from_str("Jukebox Flag"),
            offset: 0x5BC,
            int_type: SaveDataIntType::I32,
            slot_base_add,
            var: req_data,
        },
        SaveDataVar::JukeBoxUnlockFlagList => SaveFileData {
            variable_name: String::from_str("m_bJukeBoxUnlockFlagList"),
            variable_name_simple: String::from_str("Jukebox Flag"),
            offset: 0x5C2,
            int_type: SaveDataIntType::Arrayu8(83),
            slot_base_add,
            var: req_data,
        },
        SaveDataVar::MedalNum => SaveFileData {
            variable_name: String::from_str("m_iMedalNum"),
            variable_name_simple: String::from_str("Medals"),
            offset: 0x640,
            int_type: SaveDataIntType::I32,
            slot_base_add,
            var: req_data,
        },
        SaveDataVar::StageCherryFlag => SaveFileData {
            variable_name: String::from_str("m_iStageCherryFlag"),
            variable_name_simple: String::from_str("Cherries Obtained Bitfield"),
            offset: 0x89C,
            int_type: SaveDataIntType::Arrayi32(35),
            slot_base_add,
            var: req_data,
        },
        SaveDataVar::StageStrawberryFlag => SaveFileData {
            variable_name: String::from_str("m_iStageStrawberryFlag"),
            variable_name_simple: String::from_str("Strawberries Obtained Bitfield"),
            offset: 0x9C8,
            int_type: SaveDataIntType::Arrayi32(35),
            slot_base_add,
            var: req_data,
        },
        SaveDataVar::StageOrangeFlag => SaveFileData {
            variable_name: String::from_str("m_iStageOrangeFlag"),
            variable_name_simple: String::from_str("Oranges Obtained Bitfield"),
            offset: 0xAF4,
            int_type: SaveDataIntType::Arrayi32(35),
            slot_base_add,
            var: req_data,
        },
        SaveDataVar::StageAppleFlag => SaveFileData {
            variable_name: String::from_str("m_iStageAppleFlag"),
            variable_name_simple: String::from_str("Apples Obtained Bitfield"),
            offset: 0xC20,
            int_type: SaveDataIntType::Arrayi32(35),
            slot_base_add,
            var: req_data,
        },
        SaveDataVar::StageMelonFlag => SaveFileData {
            variable_name: String::from_str("m_iStageMelonFlag"),
            variable_name_simple: String::from_str("Melons Obtained Bitfield"),
            offset: 0xD4C,
            int_type: SaveDataIntType::Arrayi32(35),
            slot_base_add,
            var: req_data,
        },
        SaveDataVar::StageCherryNum => SaveFileData {
            variable_name: String::from_str("m_iStageCherryGetNum"),
            variable_name_simple: String::from_str("Cherry Per Level"),
            offset: 0xE78,
            int_type: SaveDataIntType::Arrayi32(35),
            slot_base_add,
            var: req_data,
        },
        SaveDataVar::StageStrawberryNum => SaveFileData {
            variable_name: String::from_str("m_iStageStrawberryGetNum"),
            variable_name_simple: String::from_str("Strawberry Per Level"),
            offset: 0xFA4,
            int_type: SaveDataIntType::Arrayi32(35),
            slot_base_add,
            var: req_data,
        },
        SaveDataVar::StageOrangeNum => SaveFileData {
            variable_name: String::from_str("m_iStageOrangeGetNum"),
            variable_name_simple: String::from_str("Orange Per Level"),
            offset: 0x10D0,
            int_type: SaveDataIntType::Arrayi32(35),
            slot_base_add,
            var: req_data,
        },
        SaveDataVar::StageAppleNum => SaveFileData {
            variable_name: String::from_str("m_iStageAppleGetNum"),
            variable_name_simple: String::from_str("Apple Per Level"),
            offset: 0x1FFC,
            int_type: SaveDataIntType::Arrayi32(35),
            slot_base_add,
            var: req_data,
        },
        SaveDataVar::StageMelonNum => SaveFileData {
            variable_name: String::from_str("m_iStageMelonGetNum"),
            variable_name_simple: String::from_str("Melon Per Level"),
            offset: 0x1328,
            int_type: SaveDataIntType::Arrayi32(35),
            slot_base_add,
            var: req_data,
        },
        SaveDataVar::VillageCherryFlag => SaveFileData {
            variable_name: String::from_str("m_iVillageCherryFlag"),
            variable_name_simple: String::from_str("Village Cherry Flags"),
            offset: 0x1454,
            int_type: SaveDataIntType::Arrayi32(26),
            slot_base_add,
            var: req_data,
        },
        SaveDataVar::VillageStrawberryFlag => SaveFileData {
            variable_name: String::from_str("m_iVillageStrawberryFlag"),
            variable_name_simple: String::from_str("Village Strawberry Flags"),
            offset: 0x01610,
            int_type: SaveDataIntType::Arrayi32(29),
            slot_base_add,
            var: req_data,
        },
        SaveDataVar::VillageOrangeFlag => SaveFileData {
            variable_name: String::from_str("m_iVillageOrangeFlag"),
            variable_name_simple: String::from_str("Village Orange Flags"),
            offset: 0x17CC,
            int_type: SaveDataIntType::Arrayi32(17),
            slot_base_add,
            var: req_data,
        },
        SaveDataVar::VillageAppleFlag => SaveFileData {
            variable_name: String::from_str("m_iVillageAppleFlag"),
            variable_name_simple: String::from_str("Village Apple Flags"),
            offset: 0x1988,
            int_type: SaveDataIntType::Arrayi32(22),
            slot_base_add,
            var: req_data,
        },
        SaveDataVar::VillageMelonFlag => SaveFileData {
            variable_name: String::from_str("m_iVillageMelonFlag"),
            variable_name_simple: String::from_str("Village Melon Flags"),
            offset: 0x1B44,
            int_type: SaveDataIntType::Arrayi32(32),
            slot_base_add,
            var: req_data,
        },
        SaveDataVar::VillageCherryGetNum => SaveFileData {
            variable_name: String::from_str("m_iVillageCherryGetNum"),
            variable_name_simple: String::from_str("Village Cherries"),
            offset: 0x1D00,
            int_type: SaveDataIntType::I32,
            slot_base_add,
            var: req_data,
        },
        SaveDataVar::VillageStrawberryGetNum => SaveFileData {
            variable_name: String::from_str("m_iVillageStrawberryGetNum"),
            variable_name_simple: String::from_str("Village Strawberry"),
            offset: 0x1D04,
            int_type: SaveDataIntType::I32,
            slot_base_add,
            var: req_data,
        },
        SaveDataVar::VillageOrangeGetNum => SaveFileData {
            variable_name: String::from_str("m_iVillageOrangeGetNum"),
            variable_name_simple: String::from_str("Village Oranges"),
            offset: 0x1D08,
            int_type: SaveDataIntType::I32,
            slot_base_add,
            var: req_data,
        },
        SaveDataVar::VillageAppleGetNum => SaveFileData {
            variable_name: String::from_str("m_iVillageAppleGetNum"),
            variable_name_simple: String::from_str("Village Apples"),
            offset: 0x1D0C,
            int_type: SaveDataIntType::I32,
            slot_base_add,
            var: req_data,
        },
        SaveDataVar::VillageMelonGetNum => SaveFileData {
            variable_name: String::from_str("m_iVillageMelonGetNum"),
            variable_name_simple: String::from_str("Village Melons"),
            offset: 0x1D10,
            int_type: SaveDataIntType::I32,
            slot_base_add,
            var: req_data,
        },
        SaveDataVar::VillageGFFlag => SaveFileData {
            variable_name: String::from_str("m_iVillageGFFlag"),
            variable_name_simple: String::from_str("Village GF Bitfield"),
            offset: 0x1D14,
            int_type: SaveDataIntType::U32,
            slot_base_add,
            var: req_data,
        },
        SaveDataVar::CameraMode => SaveFileData {
            variable_name: String::from_str("m_iCameraMode"),
            variable_name_simple: String::from_str("Camera Mode"),
            offset: 0x1D18,
            int_type: SaveDataIntType::I32,
            slot_base_add,
            var: req_data,
        },
        SaveDataVar::CameraSpeedY => SaveFileData {
            variable_name: String::from_str("m_iCameraSpeedUD"),
            variable_name_simple: String::from_str("Camera Sensitivity Y"),
            offset: 0x1D1C,
            int_type: SaveDataIntType::I32,
            slot_base_add,
            var: req_data,
        },
        SaveDataVar::CameraSpeedX => SaveFileData {
            variable_name: String::from_str("m_iCameraSpeedLR"),
            variable_name_simple: String::from_str("Camera Sensitivity X"),
            offset: 0x1D20,
            int_type: SaveDataIntType::I32,
            slot_base_add,
            var: req_data,
        },
        SaveDataVar::CameraControlY => SaveFileData {
            variable_name: String::from_str("m_iCameraControlUD"),
            variable_name_simple: String::from_str("Reverse Vertical Camera"),
            offset: 0x1D24,
            int_type: SaveDataIntType::Bool,
            slot_base_add,
            var: req_data,
        },
        SaveDataVar::CameraControlX => SaveFileData {
            variable_name: String::from_str("m_iCameraControlLR"),
            variable_name_simple: String::from_str("Reverse Horizontal Camera"),
            offset: 0x1D28,
            int_type: SaveDataIntType::Bool,
            slot_base_add,
            var: req_data,
        },
        SaveDataVar::CameraAssistFlag => SaveFileData {
            variable_name: String::from_str("m_iCameraAssistFlag"),
            variable_name_simple: String::from_str("Disable Camera Assist"),
            offset: 0x1D2C,
            int_type: SaveDataIntType::Bool,
            slot_base_add,
            var: req_data,
        },
        SaveDataVar::CameraYAutoRotateFlag => SaveFileData {
            variable_name: String::from_str("m_iCameraYAutoRotFlag"),
            variable_name_simple: String::from_str("Disable Player Tracking Camera"),
            offset: 0x1D30,
            int_type: SaveDataIntType::Bool,
            slot_base_add,
            var: req_data,
        },
        SaveDataVar::SwimControlY => SaveFileData {
            variable_name: String::from_str("m_iSwimControlUD"),
            variable_name_simple: String::from_str("Reverse Vertical Swim Control (?)"),
            offset: 0x1D34,
            int_type: SaveDataIntType::Arrayi32(2),
            slot_base_add,
            var: req_data,
        },
        SaveDataVar::MissionRewardFlag => SaveFileData {
            variable_name: String::from_str("m_iMissionRewardFlag"),
            variable_name_simple: String::from_str("Mission Reward Flags"),
            offset: 0x21EC,
            int_type: SaveDataIntType::Arrayi32(LEVELS_COUNT + 1),
            slot_base_add,
            var: req_data,
        },
        SaveDataVar::PlayerSkinId => SaveFileData {
            variable_name: String::from_str("m_iPlayerSkinId"),
            variable_name_simple: String::from_str("Player Skin"),
            offset: 0x23E0,
            int_type: SaveDataIntType::I32,
            slot_base_add,
            var: req_data,
        },
        SaveDataVar::PlayerSkinId2 => SaveFileData {
            variable_name: String::from_str("m_iPlayerSkinId"),
            variable_name_simple: String::from_str("Player Skin P2"),
            offset: 0x23E4,
            int_type: SaveDataIntType::I32,
            slot_base_add,
            var: req_data,
        },
        SaveDataVar::FigureInfo => SaveFileData {
            variable_name: String::from_str("m_sFigureInfo"),
            variable_name_simple: String::from_str("Figure Info"),
            offset: 0x23E8,
            int_type: SaveDataIntType::Arrayi32(20),
            slot_base_add,
            var: req_data,
        },
        SaveDataVar::FigureDisplayInfo => SaveFileData {
            variable_name: String::from_str("m_sFigureDisplayInfo"),
            variable_name_simple: String::from_str("Figure Display Info"),
            offset: 0x2BE8,
            int_type: SaveDataIntType::SFigureDisplayInfoArray(50),
            slot_base_add,
            var: req_data,
        },
        SaveDataVar::GashaFlag => SaveFileData {
            variable_name: String::from_str("m_iGashaFlag"),
            variable_name_simple: String::from_str("Gasha Flag List"),
            offset: 0x2D78,
            int_type: SaveDataIntType::Arrayi32(100),
            slot_base_add,
            var: req_data,
        },
        SaveDataVar::GashaLotteryNum => SaveFileData {
            variable_name: String::from_str("m_iGashaLotteryNum"),
            variable_name_simple: String::from_str("Gasha Lottery Number"),
            offset: 0x2DA8,
            int_type: SaveDataIntType::I32,
            slot_base_add,
            var: req_data,
        },
        SaveDataVar::FlipKillNum => SaveFileData {
            variable_name: String::from_str("m_iFlipKillNum"),
            variable_name_simple: String::from_str("Flip Kill Number"),
            offset: 0x2DAC,
            int_type: SaveDataIntType::I32,
            slot_base_add,
            var: req_data,
        },
        SaveDataVar::SupperHipStunNum => SaveFileData {
            variable_name: String::from_str("m_iSuperHipStunNum"),
            variable_name_simple: String::from_str("Super Butt Bounce Stun Number"),
            offset: 0x2DB0,
            int_type: SaveDataIntType::I32,
            slot_base_add,
            var: req_data,
        },
        SaveDataVar::SuperDolphinKillNum => SaveFileData {
            variable_name: String::from_str("m_iSuperDolphinKillNum"),
            variable_name_simple: String::from_str("Super Dolphin Kick Kill Number"),
            offset: 0x2DB4,
            int_type: SaveDataIntType::I32,
            slot_base_add,
            var: req_data,
        },
        SaveDataVar::UnlockStageSelectFlag => SaveFileData {
            variable_name: String::from_str("m_uUnlockStageSelectFlag"),
            variable_name_simple: String::from_str("Unlock Stage Select Bitfield"),
            offset: 0x2DB8,
            int_type: SaveDataIntType::I32,
            slot_base_add,
            var: req_data,
        },
        SaveDataVar::GameLevel => SaveFileData {
            variable_name: String::from_str("m_iGameLevel"),
            variable_name_simple: String::from_str("Game Level"),
            offset: 0x2DBC,
            int_type: SaveDataIntType::I32,
            slot_base_add,
            var: req_data,
        },
        SaveDataVar::EnterPast => SaveFileData {
            variable_name: String::from_str("m_bEnterPast"),
            variable_name_simple: String::from_str("Enter Past"),
            offset: 0x2DC0,
            int_type: SaveDataIntType::Bool,
            slot_base_add,
            var: req_data,
        },
        SaveDataVar::OriginalFlag => SaveFileData {
            variable_name: String::from_str("m_iOriginalFlag"),
            variable_name_simple: String::from_str("Pac-Man Flags"),
            offset: 0x2DC0,
            int_type: SaveDataIntType::Arrayi32(3),
            slot_base_add,
            var: req_data,
        },
        SaveDataVar::OriginalStageNum => SaveFileData {
            variable_name: String::from_str("m_iOriginalStageNum"),
            variable_name_simple: String::from_str("Pac-Man Best Stage"),
            offset: 0x2DD0,
            int_type: SaveDataIntType::I32,
            slot_base_add,
            var: req_data,
        },
        SaveDataVar::OriginalHighScore => SaveFileData {
            variable_name: String::from_str("m_iOriginalHighScore"),
            variable_name_simple: String::from_str("Pac-Man High Score"),
            offset: 0x2DD4,
            int_type: SaveDataIntType::I32,
            slot_base_add,
            var: req_data,
        },
        SaveDataVar::PacManiaStageNum => SaveFileData {
            variable_name: String::from_str("m_iPacManiaStageNum"),
            variable_name_simple: String::from_str("Pac-Mania Best Stage"),
            offset: 0x2DD8,
            int_type: SaveDataIntType::I32,
            slot_base_add,
            var: req_data,
        },
        SaveDataVar::PacmaniaHighScore => SaveFileData {
            variable_name: String::from_str("m_iPacManiaHighScore"),
            variable_name_simple: String::from_str("Pac-Mania High Score"),
            offset: 0x2DDC,
            int_type: SaveDataIntType::I32,
            slot_base_add,
            var: req_data,
        },
        SaveDataVar::PacAttackLevelNum => SaveFileData {
            variable_name: String::from_str("m_iPacAttackLevelNum"),
            variable_name_simple: String::from_str("Pac-Attack Best Level"),
            offset: 0x2DE0,
            int_type: SaveDataIntType::Arrayi32(4),
            slot_base_add,
            var: req_data,
        },
        SaveDataVar::PacAttackHighScore => SaveFileData {
            variable_name: String::from_str("m_iPacAttackHighScore"),
            variable_name_simple: String::from_str("Pac-Attack High Score"),
            offset: 0x2DF0,
            int_type: SaveDataIntType::Arrayi32(4),
            slot_base_add,
            var: req_data,
        },
        SaveDataVar::HelpFlag => SaveFileData {
            variable_name: String::from_str("m_iHelpFlag"),
            variable_name_simple: String::from_str("Help Flags"),
            offset: 0x2E00,
            int_type: SaveDataIntType::Arrayi32(4),
            slot_base_add,
            var: req_data,
        },
        SaveDataVar::DroneReticleSpeed => SaveFileData {
            variable_name: String::from_str("m_iDroneReticleSpeed"),
            variable_name_simple: String::from_str("Drone Reticle Speed"),
            offset: 0x2EF4,
            int_type: SaveDataIntType::I32,
            slot_base_add,
            var: req_data,
        },
        SaveDataVar::DroneReticleColor => SaveFileData {
            variable_name: String::from_str("m_iDroneReticleColor"),
            variable_name_simple: String::from_str("Drone Reticle Color"),
            offset: 0x2EF8,
            int_type: SaveDataIntType::I32,
            slot_base_add,
            var: req_data,
        },
        SaveDataVar::DroneVacuumRangeFlag => SaveFileData {
            variable_name: String::from_str("m_iDroneVacuumRangeFlag"),
            variable_name_simple: String::from_str("Drone Vacuum Range Flag"),
            offset: 0x2EFC,
            int_type: SaveDataIntType::I32,
            slot_base_add,
            var: req_data,
        },
        SaveDataVar::EarlyBonusFigureFlag => SaveFileData {
            variable_name: String::from_str("m_iEarlyBonusFigureFlag"),
            variable_name_simple: String::from_str("Early Access Bonus Figure"),
            offset: 0x2F00,
            int_type: SaveDataIntType::I32,
            slot_base_add,
            var: req_data,
        },
        SaveDataVar::KeyConfigP1 => SaveFileData {
            variable_name: String::from_str("m_keyconfigSave1P"),
            variable_name_simple: String::from_str("Inputs Config"),
            offset: 0x2F04,
            int_type: SaveDataIntType::Arrayi32(672),
            slot_base_add,
            var: req_data,
        },
        SaveDataVar::KeyConfigP2 => SaveFileData {
            variable_name: String::from_str("m_keyconfigSave2P"),
            variable_name_simple: String::from_str("Inputs Config Player 2"),
            offset: 0x3984,
            int_type: SaveDataIntType::Arrayi32(672),
            slot_base_add,
            var: req_data,
        },
        SaveDataVar::GashaDLCFlag => SaveFileData {
            variable_name: String::from_str("m_iGashaDLCFlag"),
            variable_name_simple: String::from_str("Gasha DLC Flag"),
            offset: 0x4404,
            int_type: SaveDataIntType::Arrayi32(4),
            slot_base_add,
            var: req_data,
        },
        SaveDataVar::FigureInfoDLC => SaveFileData {
            variable_name: String::from_str("m_sFigureInfoDLC"),
            variable_name_simple: String::from_str("Figure Info DLC"),
            offset: 0x4414,
            int_type: SaveDataIntType::Arrayi32(10),
            slot_base_add,
            var: req_data,
        },
        SaveDataVar::EnterSonic => SaveFileData {
            variable_name: String::from_str("m_bEnterSonic"),
            variable_name_simple: String::from_str("Enter Sonic"),
            offset: 0x4454,
            int_type: SaveDataIntType::Bool,
            slot_base_add,
            var: req_data,
        },
        SaveDataVar::VillageSonicFlag => SaveFileData {
            variable_name: String::from_str("m_uVillageSonicFlag"),
            variable_name_simple: String::from_str("Village Sonic Flag"),
            offset: 0x4458,
            int_type: SaveDataIntType::U32,
            slot_base_add,
            var: req_data,
        },
        SaveDataVar::LoadInitSceneCollab => SaveFileData {
            variable_name: String::from_str("m_iLoadInitSceneCollabo"),
            variable_name_simple: String::from_str("Load Init Scene (Sonic)"),
            offset: 0x445C,
            int_type: SaveDataIntType::I32,
            slot_base_add,
            var: req_data,
        },
        SaveDataVar::LoadInitSceneKind => SaveFileData {
            variable_name: String::from_str("m_iLoadInitSceneKind"),
            variable_name_simple: String::from_str("Load Init Scene Kind"),
            offset: 0x4560,
            int_type: SaveDataIntType::I32,
            slot_base_add,
            var: req_data,
        },
        SaveDataVar::LastStageIdCollab => SaveFileData {
            variable_name: String::from_str("m_iLastStageIdCollabo"),
            variable_name_simple: String::from_str("Last Stage ID (Sonic)"),
            offset: 0x4564,
            int_type: SaveDataIntType::I32,
            slot_base_add,
            var: req_data,
        },
        SaveDataVar::LastStageIdKindCollab => SaveFileData {
            variable_name: String::from_str("m_iLastStageIdKind"),
            variable_name_simple: String::from_str("Last Stage ID Kind (Sonic)"),
            offset: 0x4568,
            int_type: SaveDataIntType::I32,
            slot_base_add,
            var: req_data,
        },
        SaveDataVar::PlayerSkinIdCollab => SaveFileData {
            variable_name: String::from_str("m_iPlayerSkinIdCollabo"),
            variable_name_simple: String::from_str("Player Skin (Sonic)"),
            offset: 0x456C,
            int_type: SaveDataIntType::I32,
            slot_base_add,
            var: req_data,
        },
        SaveDataVar::FigureDisplayInfoCollab => SaveFileData {
            variable_name: String::from_str("m_iFigureDisplayInfoCollabo"),
            variable_name_simple: String::from_str("Figure Display Info (Sonic)"),
            offset: 0x4570,
            int_type: SaveDataIntType::Arrayi32(114),
            slot_base_add,
            var: req_data,
        },
        SaveDataVar::JukeBoxBGMCollab => SaveFileData {
            variable_name: String::from_str("m_iJukeBoxBGMKindCollabo"),
            variable_name_simple: String::from_str("Jukebox Music (Sonic)"),
            offset: 0x4638,
            int_type: SaveDataIntType::I32,
            slot_base_add,
            var: req_data,
        },
        SaveDataVar::JukeBoxModeCollab => SaveFileData {
            variable_name: String::from_str("m_iJukeBoxModeCollabo"),
            variable_name_simple: String::from_str("Jukebox Mode (Sonic)"),
            offset: 0x463C,
            int_type: SaveDataIntType::I32,
            slot_base_add,
            var: req_data,
        },
    }
}

/// One quarter of the declaration-order variable list; the list is split
/// only to keep each proof obligation small.
pub open spec fn spec_all_vars_a() -> Seq<SaveDataVar> {
    seq![
        SaveDataVar::FileExists,
        SaveDataVar::SaveDate,
        SaveDataVar::PlayTimeHours,
        SaveDataVar::PlayTimeMinutes,
        SaveDataVar::PlayTimeSeconds,
        SaveDataVar::StageFlagList,
        SaveDataVar::ScoreList,
        SaveDataVar::TimeTrialList,
        SaveDataVar::TimeTrialCoopList,
        SaveDataVar::FriendsFlagList,
        SaveDataVar::FriendsTalkList,
        SaveDataVar::StageMazeFlagList,
        SaveDataVar::LastStageId,
        SaveDataVar::LastGameModeId,
        SaveDataVar::Lives,
        SaveDataVar::MazeFlagList,
        SaveDataVar::MazesScoreList,
        SaveDataVar::FruitsGetNum,
        SaveDataVar::CapsuleGetNum,
        SaveDataVar::MedalGetNum,
        SaveDataVar::BombDotKillNum,
        SaveDataVar::DotKillNum,
        SaveDataVar::RevRollKillNum,
        SaveDataVar::ButtBounceKillNum,
        SaveDataVar::GhostKillNum,
        SaveDataVar::MagicKeyUnlocked,
        SaveDataVar::TrueEnding,
    ]
}

/// One quarter of the declaration-order variable list; the list is split
/// only to keep each proof obligation small.
pub open spec fn spec_all_vars_b() -> Seq<SaveDataVar> {
    seq![
        SaveDataVar::MarathonUnlocked,
        SaveDataVar::MarathonHighScore,
        SaveDataVar::MarathonClear,
        SaveDataVar::LastGISaveArea,
        SaveDataVar::LoadInitScene,
        SaveDataVar::DLCApplyFlag,
        SaveDataVar::JukeBoxBGM,
        SaveDataVar::JukeBoxMode,
        SaveDataVar::JukeBoxLoop,
        SaveDataVar::JukeBoxOrder,
        SaveDataVar::JukeBoxFlag,
        SaveDataVar::JukeBoxUnlockFlagList,
        SaveDataVar::MedalNum,
        SaveDataVar::StageCherryFlag,
        SaveDataVar::StageStrawberryFlag,
        SaveDataVar::StageOrangeFlag,
        SaveDataVar::StageAppleFlag,
        SaveDataVar::StageMelonFlag,
        SaveDataVar::StageCherryNum,
        SaveDataVar::StageStrawberryNum,
        SaveDataVar::StageOrangeNum,
        SaveDataVar::StageAppleNum,
        SaveDataVar::StageMelonNum,
        SaveDataVar::VillageCherryFlag,
        SaveDataVar::VillageStrawberryFlag,
        SaveDataVar::VillageOrangeFlag,
        SaveDataVar::VillageAppleFlag,
    ]
}

/// One quarter of the declaration-order variable list; the list is split
/// only to keep each proof obligation small.
pub open spec fn spec_all_vars_c() -> Seq<SaveDataVar> {
    seq![
        SaveDataVar::VillageMelonFlag,
        SaveDataVar::VillageCherryGetNum,
        SaveDataVar::VillageStrawberryGetNum,
        SaveDataVar::VillageOrangeGetNum,
        SaveDataVar::VillageAppleGetNum,
        SaveDataVar::VillageMelonGetNum,
        SaveDataVar::VillageGFFlag,
        SaveDataVar::CameraMode,
        SaveDataVar::CameraSpeedY,
        SaveDataVar::CameraSpeedX,
        SaveDataVar::CameraControlY,
        SaveDataVar::CameraControlX,
        SaveDataVar::CameraAssistFlag,
        SaveDataVar::CameraYAutoRotateFlag,
        SaveDataVar::SwimControlY,
        SaveDataVar::MissionRewardFlag,
        SaveDataVar::PlayerSkinId,
        SaveDataVar::PlayerSkinId2,
        SaveDataVar::FigureInfo,
        SaveDataVar::FigureDisplayInfo,
        SaveDataVar::GashaFlag,
        SaveDataVar::GashaLotteryNum,
        SaveDataVar::FlipKillNum,
        SaveDataVar::SupperHipStunNum,
        SaveDataVar::SuperDolphinKillNum,
        SaveDataVar::UnlockStageSelectFlag,
        SaveDataVar::GameLevel,
    ]
}

/// One quarter of the declaration-order variable list; the list is split
/// only to keep each proof obligation small.
pub open spec fn spec_all_vars_d() -> Seq<SaveDataVar> {
    seq![
        SaveDataVar::EnterPast,
        SaveDataVar::OriginalFlag,
        SaveDataVar::OriginalStageNum,
        SaveDataVar::OriginalHighScore,
        SaveDataVar::PacManiaStageNum,
        SaveDataVar::PacmaniaHighScore,
        SaveDataVar::PacAttackLevelNum,
        SaveDataVar::PacAttackHighScore,
        SaveDataVar::HelpFlag,
        SaveDataVar::DroneReticleSpeed,
        SaveDataVar::DroneReticleColor,
        SaveDataVar::DroneVacuumRangeFlag,
        SaveDataVar::EarlyBonusFigureFlag,
        SaveDataVar::KeyConfigP1,
        SaveDataVar::KeyConfigP2,
        SaveDataVar::GashaDLCFlag,
        SaveDataVar::FigureInfoDLC,
        SaveDataVar::EnterSonic,
        SaveDataVar::VillageSonicFlag,
        SaveDataVar::LoadInitSceneCollab,
        SaveDataVar::LoadInitSceneKind,
        SaveDataVar::LastStageIdCollab,
        SaveDataVar::LastStageIdKindCollab,
        SaveDataVar::PlayerSkinIdCollab,
        SaveDataVar::FigureDisplayInfoCollab,
        SaveDataVar::JukeBoxBGMCollab,
        SaveDataVar::JukeBoxModeCollab,
    ]
}

/// Every declared variable, in declaration order.
pub open spec fn spec_all_vars() -> Seq<SaveDataVar> {
    spec_all_vars_a() + spec_all_vars_b() + spec_all_vars_c() + spec_all_vars_d()
}

fn push_all_vars_a(vars: &mut Vec<SaveDataVar>)
    ensures
        final(vars)@ == old(vars)@ + spec_all_vars_a(),
{
    let ghost prefix = vars@;
    vars.push(SaveDataVar::FileExists);
    vars.push(SaveDataVar::SaveDate);
    vars.push(SaveDataVar::PlayTimeHours);
    vars.push(SaveDataVar::PlayTimeMinutes);
    vars.push(SaveDataVar::PlayTimeSeconds);
    vars.push(SaveDataVar::StageFlagList);
    vars.push(SaveDataVar::ScoreList);
    vars.push(SaveDataVar::TimeTrialList);
    vars.push(SaveDataVar::TimeTrialCoopList);
    vars.push(SaveDataVar::FriendsFlagList);
    vars.push(SaveDataVar::FriendsTalkList);
    vars.push(SaveDataVar::StageMazeFlagList);
    vars.push(SaveDataVar::LastStageId);
    vars.push(SaveDataVar::LastGameModeId);
    vars.push(SaveDataVar::Lives);
    vars.push(SaveDataVar::MazeFlagList);
    vars.push(SaveDataVar::MazesScoreList);
    vars.push(SaveDataVar::FruitsGetNum);
    vars.push(SaveDataVar::CapsuleGetNum);
    vars.push(SaveDataVar::MedalGetNum);
    vars.push(SaveDataVar::BombDotKillNum);
    vars.push(SaveDataVar::DotKillNum);
    vars.push(SaveDataVar::RevRollKillNum);
    vars.push(SaveDataVar::ButtBounceKillNum);
    vars.push(SaveDataVar::GhostKillNum);
    vars.push(SaveDataVar::MagicKeyUnlocked);
    vars.push(SaveDataVar::TrueEnding);
    proof {
        assert(vars@ =~= prefix + spec_all_vars_a());
    }
}

fn push_all_vars_b(vars: &mut Vec<SaveDataVar>)
    ensures
        final(vars)@ == old(vars)@ + spec_all_vars_b(),
{
    let ghost prefix = vars@;
    vars.push(SaveDataVar::MarathonUnlocked);
    vars.push(SaveDataVar::MarathonHighScore);
    vars.push(SaveDataVar::MarathonClear);
    vars.push(SaveDataVar::LastGISaveArea);
    vars.push(SaveDataVar::LoadInitScene);
    vars.push(SaveDataVar::DLCApplyFlag);
    vars.push(SaveDataVar::JukeBoxBGM);
    vars.push(SaveDataVar::JukeBoxMode);
    vars.push(SaveDataVar::JukeBoxLoop);
    vars.push(SaveDataVar::JukeBoxOrder);
    vars.push(SaveDataVar::JukeBoxFlag);
    vars.push(SaveDataVar::JukeBoxUnlockFlagList);
    vars.push(SaveDataVar::MedalNum);
    vars.push(SaveDataVar::StageCherryFlag);
    vars.push(SaveDataVar::StageStrawberryFlag);
    vars.push(SaveDataVar::StageOrangeFlag);
    vars.push(SaveDataVar::StageAppleFlag);
    vars.push(SaveDataVar::StageMelonFlag);
    vars.push(SaveDataVar::StageCherryNum);
    vars.push(SaveDataVar::StageStrawberryNum);
    vars.push(SaveDataVar::StageOrangeNum);
    vars.push(SaveDataVar::StageAppleNum);
    vars.push(SaveDataVar::StageMelonNum);
    vars.push(SaveDataVar::VillageCherryFlag);
    vars.push(SaveDataVar::VillageStrawberryFlag);
    vars.push(SaveDataVar::VillageOrangeFlag);
    vars.push(SaveDataVar::VillageAppleFlag);
    proof {
        assert(vars@ =~= prefix + spec_all_vars_b());
    }
}

fn push_all_vars_c(vars: &mut Vec<SaveDataVar>)
    ensures
        final(vars)@ == old(vars)@ + spec_all_vars_c(),
{
    let ghost prefix = vars@;
    vars.push(SaveDataVar::VillageMelonFlag);
    vars.push(SaveDataVar::VillageCherryGetNum);
    vars.push(SaveDataVar::VillageStrawberryGetNum);
    vars.push(SaveDataVar::VillageOrangeGetNum);
    vars.push(SaveDataVar::VillageAppleGetNum);
    vars.push(SaveDataVar::VillageMelonGetNum);
    vars.push(SaveDataVar::VillageGFFlag);
    vars.push(SaveDataVar::CameraMode);
    vars.push(SaveDataVar::CameraSpeedY);
    vars.push(SaveDataVar::CameraSpeedX);
    vars.push(SaveDataVar::CameraControlY);
    vars.push(SaveDataVar::CameraControlX);
    vars.push(SaveDataVar::CameraAssistFlag);
    vars.push(SaveDataVar::CameraYAutoRotateFlag);
    vars.push(SaveDataVar::SwimControlY);
    vars.push(SaveDataVar::MissionRewardFlag);
    vars.push(SaveDataVar::PlayerSkinId);
    vars.push(SaveDataVar::PlayerSkinId2);
    vars.push(SaveDataVar::FigureInfo);
    vars.push(SaveDataVar::FigureDisplayInfo);
    vars.push(SaveDataVar::GashaFlag);
    vars.push(SaveDataVar::GashaLotteryNum);
    vars.push(SaveDataVar::FlipKillNum);
    vars.push(SaveDataVar::SupperHipStunNum);
    vars.push(SaveDataVar::SuperDolphinKillNum);
    vars.push(SaveDataVar::UnlockStageSelectFlag);
    vars.push(SaveDataVar::GameLevel);
    proof {
        assert(vars@ =~= prefix + spec_all_vars_c());
    }
}

fn push_all_vars_d(vars: &mut Vec<SaveDataVar>)
    ensures
        final(vars)@ == old(vars)@ + spec_all_vars_d(),
{
    let ghost prefix = vars@;
    vars.push(SaveDataVar::EnterPast);
    vars.push(SaveDataVar::OriginalFlag);
    vars.push(SaveDataVar::OriginalStageNum);
    vars.push(SaveDataVar::OriginalHighScore);
    vars.push(SaveDataVar::PacManiaStageNum);
    vars.push(SaveDataVar::PacmaniaHighScore);
    vars.push(SaveDataVar::PacAttackLevelNum);
    vars.push(SaveDataVar::PacAttackHighScore);
    vars.push(SaveDataVar::HelpFlag);
    vars.push(SaveDataVar::DroneReticleSpeed);
    vars.push(SaveDataVar::DroneReticleColor);
    vars.push(SaveDataVar::DroneVacuumRangeFlag);
    vars.push(SaveDataVar::EarlyBonusFigureFlag);
    vars.push(SaveDataVar::KeyConfigP1);
    vars.push(SaveDataVar::KeyConfigP2);
    vars.push(SaveDataVar::GashaDLCFlag);
    vars.push(SaveDataVar::FigureInfoDLC);
    vars.push(SaveDataVar::EnterSonic);
    vars.push(SaveDataVar::VillageSonicFlag);
    vars.push(SaveDataVar::LoadInitSceneCollab);
    vars.push(SaveDataVar::LoadInitSceneKind);
    vars.push(SaveDataVar::LastStageIdCollab);
    vars.push(SaveDataVar::LastStageIdKindCollab);
    vars.push(SaveDataVar::PlayerSkinIdCollab);
    vars.push(SaveDataVar::FigureDisplayInfoCollab);
    vars.push(SaveDataVar::JukeBoxBGMCollab);
    vars.push(SaveDataVar::JukeBoxModeCollab);
    proof {
        assert(vars@ =~= prefix + spec_all_vars_d());
    }
}

/// Builds the full variable list in declaration order.
fn all_vars_list() -> (vars: Vec<SaveDataVar>)
    ensures
        vars@ == spec_all_vars(),
{
    let mut vars: Vec<SaveDataVar> = Vec::new();
    push_all_vars_a(&mut vars);
    push_all_vars_b(&mut vars);
    push_all_vars_c(&mut vars);
    push_all_vars_d(&mut vars);
    proof {
        assert(vars@ =~= spec_all_vars());
    }
    vars
}

/// The curated subset of primary variables shown in the reduced view, in
/// its fixed order.
pub open spec fn spec_basic_vars() -> Seq<SaveDataVar> {
    seq![
        SaveDataVar::PlayTimeHours,
        SaveDataVar::PlayTimeMinutes,
        SaveDataVar::PlayTimeSeconds,
        SaveDataVar::ScoreList,
        SaveDataVar::TimeTrialList,
        SaveDataVar::StageMazeFlagList,
        SaveDataVar::MazesScoreList,
        SaveDataVar::Lives,
        SaveDataVar::MagicKeyUnlocked,
        SaveDataVar::JukeBoxBGM,
        SaveDataVar::JukeBoxBGMCollab,
        SaveDataVar::MedalNum,
        SaveDataVar::CameraSpeedX,
        SaveDataVar::CameraSpeedY,
        SaveDataVar::CameraControlX,
        SaveDataVar::CameraControlY,
        SaveDataVar::CameraAssistFlag,
        SaveDataVar::CameraYAutoRotateFlag,
        SaveDataVar::KeyConfigP1,
        SaveDataVar::PlayerSkinId,
        SaveDataVar::PlayerSkinIdCollab,
        SaveDataVar::OriginalHighScore,
        SaveDataVar::PacmaniaHighScore,
        SaveDataVar::PacAttackHighScore,
    ]
}

/// Builds the curated variable list in its fixed order.
fn basic_vars_list() -> (vars: Vec<SaveDataVar>)
    ensures
        vars@ == spec_basic_vars(),
{
    let mut vars: Vec<SaveDataVar> = Vec::new();
    vars.push(SaveDataVar::PlayTimeHours);
    vars.push(SaveDataVar::PlayTimeMinutes);
    vars.push(SaveDataVar::PlayTimeSeconds);
    vars.push(SaveDataVar::ScoreList);
    vars.push(SaveDataVar::TimeTrialList);
    vars.push(SaveDataVar::StageMazeFlagList);
    vars.push(SaveDataVar::MazesScoreList);
    vars.push(SaveDataVar::Lives);
    vars.push(SaveDataVar::MagicKeyUnlocked);
    vars.push(SaveDataVar::JukeBoxBGM);
    vars.push(SaveDataVar::JukeBoxBGMCollab);
    vars.push(SaveDataVar::MedalNum);
    vars.push(SaveDataVar::CameraSpeedX);
    vars.push(SaveDataVar::CameraSpeedY);
    vars.push(SaveDataVar::CameraControlX);
    vars.push(SaveDataVar::CameraControlY);
    vars.push(SaveDataVar::CameraAssistFlag);
    vars.push(SaveDataVar::CameraYAutoRotateFlag);
    vars.push(SaveDataVar::KeyConfigP1);
    vars.push(SaveDataVar::PlayerSkinId);
    vars.push(SaveDataVar::PlayerSkinIdCollab);
    vars.push(SaveDataVar::OriginalHighScore);
    vars.push(SaveDataVar::PacmaniaHighScore);
    vars.push(SaveDataVar::PacAttackHighScore);
    proof {
        assert(vars@ =~= spec_basic_vars());
    }
    vars
}

/// Resolves the descriptor of every variable in `vars`, in order.
fn collect_descriptors(vars: &Vec<SaveDataVar>, slot: u8) -> (descriptors: Vec<SaveFileData>)
    ensures
        descriptors@.len() == vars@.len(),
        forall|i: int|
            0 <= i < vars@.len() ==> spec_is_descriptor(descriptors@[i], vars@[i], slot),
{
    let mut descriptors: Vec<SaveFileData> = Vec::new();
    for idx in 0..vars.len()
        invariant
            descriptors@.len() == idx,
            forall|j: int|
                0 <= j < idx ==> spec_is_descriptor(descriptors@[j], vars@[j], slot),
    {
        descriptors.push(get_save_file_variable(vars[idx], slot));
    }
    descriptors
}

/// The descriptors of every declared variable in `slot`, in declaration
/// order: one per variable, none missing.
pub fn get_all_save_file_vars(slot: u8) -> (all_vars: Vec<SaveFileData>)
    ensures
        all_vars@.len() == spec_all_vars().len(),
        forall|i: int|
            0 <= i < all_vars@.len() ==> spec_is_descriptor(all_vars@[i], spec_all_vars()[i], slot),
{
    let vars = all_vars_list();
    collect_descriptors(&vars, slot)
}

/// The descriptors of the curated primary variables in `slot`, in their
/// fixed order.
pub fn get_basic_save_file_vars(slot: u8) -> (basic_vars: Vec<SaveFileData>)
    ensures
        basic_vars@.len() == spec_basic_vars().len(),
        forall|i: int|
            0 <= i < basic_vars@.len() ==> spec_is_descriptor(
                basic_vars@[i],
                spec_basic_vars()[i],
                slot,
            ),
{
    let vars = basic_vars_list();
    collect_descriptors(&vars, slot)
}

} // verus!

