//! Verified core of a save-file editor for a fixed-layout game save format.
//!
//! The save file holds four independent save slots at fixed base offsets.
//! Each slot stores a closed set of logical variables at fixed byte offsets,
//! each with a binary shape (boolean byte, little-endian 32-bit integers,
//! byte or integer arrays, fixed-length text, or id/angle record pairs).
//!
//! `save_data_info` holds the variable and shape enumerations and the slot
//! address resolver; `save_file_parser` holds the schema registry (one
//! descriptor per variable and slot) and the byte-level decode and encode
//! operations over the in-memory copy of the file.

use vstd::prelude::*;

pub mod save_data_info;
pub mod save_file_parser;

verus! {

/// A complete save file is at least this many bytes long. Decode and encode
/// operations on a shorter buffer (for example, before any file was loaded)
/// degrade to default results instead of reading out of range.
pub const EXPECTED_SAVE_FILE_SIZE: usize = 176608;

} // verus!
