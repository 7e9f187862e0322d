//! The head table: a fixed-layout 54-byte record.
//!
//! The only field consumed downstream is `index_to_loc_format`
//! (0 = compact, halved offsets; 1 = full 32-bit offsets); all other
//! fields are preserved but not interpreted. The two leading version
//! fields are 16.16 fixed-point numbers kept as their raw bit patterns.

use vstd::prelude::*;
use crate::error::FontError;
use crate::reader::{be_i16_at, be_i64_at, be_u16_at, be_u32_at, Reader};

verus! {

/// The decoded head table.
#[derive(Clone, Copy, Debug, PartialEq, Eq, Structural)]
pub struct HeadTable {
    /// Raw 16.16 fixed-point table version.
    pub version: u32,
    /// Raw 16.16 fixed-point font revision.
    pub font_revision: u32,
    pub checksum_adjustment: u32,
    pub magic_number: u32,
    pub flags: u16,
    pub units_per_em: u16,
    pub created: i64,
    pub modified: i64,
    pub x_min: i16,
    pub y_min: i16,
    pub x_max: i16,
    pub y_max: i16,
    pub mac_style: u16,
    pub lowest_rec_ppem: u16,
    pub font_direction_hint: i16,
    /// 0 selects compact loca offsets, 1 full-width loca offsets.
    pub index_to_loc_format: i16,
    pub glyph_data_format: i16,
}

/// What parsing `d` as a head table yields: the 54-byte fixed record,
/// or `TruncatedData` when fewer bytes are given.
pub open spec fn parse_head_spec(d: Seq<u8>) -> Result<HeadTable, FontError> {
    if d.len() < 54 {
        Err(FontError::TruncatedData)
    } else {
        Ok(
            (HeadTable {
                version: be_u32_at(d, 0),
                font_revision: be_u32_at(d, 4),
                checksum_adjustment: be_u32_at(d, 8),
                magic_number: be_u32_at(d, 12),
                flags: be_u16_at(d, 16),
                units_per_em: be_u16_at(d, 18),
                created: be_i64_at(d, 20),
                modified: be_i64_at(d, 28),
                x_min: be_i16_at(d, 36),
                y_min: be_i16_at(d, 38),
                x_max: be_i16_at(d, 40),
                y_max: be_i16_at(d, 42),
                mac_style: be_u16_at(d, 44),
                lowest_rec_ppem: be_u16_at(d, 46),
                font_direction_hint: be_i16_at(d, 48),
                index_to_loc_format: be_i16_at(d, 50),
                glyph_data_format: be_i16_at(d, 52),
            }),
        )
    }
}

impl HeadTable {
    /// Parses the head table from its own byte slice.
    pub fn parse(data: &[u8]) -> (r: Result<HeadTable, FontError>)
        ensures
            r == parse_head_spec(data@),
    {
        let mut rd = Reader::new(data);
        if data.len() < 54 {
            return Err(FontError::TruncatedData);
        }
        let version = match rd.read_u32() {
            Ok(v) => v,
            Err(e) => { return Err(e); },
        };
        let font_revision = match rd.read_u32() {
            Ok(v) => v,
            Err(e) => { return Err(e); },
        };
        let checksum_adjustment = match rd.read_u32() {
            Ok(v) => v,
            Err(e) => { return Err(e); },
        };
        let magic_number = match rd.read_u32() {
            Ok(v) => v,
            Err(e) => { return Err(e); },
        };
        let flags = match rd.read_u16() {
            Ok(v) => v,
            Err(e) => { return Err(e); },
        };
        let units_per_em = match rd.read_u16() {
            Ok(v) => v,
            Err(e) => { return Err(e); },
        };
        let created = match rd.read_i64() {
            Ok(v) => v,
            Err(e) => { return Err(e); },
        };
        let modified = match rd.read_i64() {
            Ok(v) => v,
            Err(e) => { return Err(e); },
        };
        let x_min = match rd.read_i16() {
            Ok(v) => v,
            Err(e) => { return Err(e); },
        };
        let y_min = match rd.read_i16() {
            Ok(v) => v,
            Err(e) => { return Err(e); },
        };
        let x_max = match rd.read_i16() {
            Ok(v) => v,
            Err(e) => { return Err(e); },
        };
        let y_max = match rd.read_i16() {
            Ok(v) => v,
            Err(e) => { return Err(e); },
        };
        let mac_style = match rd.read_u16() {
            Ok(v) => v,
            Err(e) => { return Err(e); },
        };
        let lowest_rec_ppem = match rd.read_u16() {
            Ok(v) => v,
            Err(e) => { return Err(e); },
        };
        let font_direction_hint = match rd.read_i16() {
            Ok(v) => v,
            Err(e) => { return Err(e); },
        };
        let index_to_loc_format = match rd.read_i16() {
            Ok(v) => v,
            Err(e) => { return Err(e); },
        };
        let glyph_data_format = match rd.read_i16() {
            Ok(v) => v,
            Err(e) => { return Err(e); },
        };
        Ok(
            HeadTable {
                version,
                font_revision,
                checksum_adjustment,
                magic_number,
                flags,
                units_per_em,
                created,
                modified,
                x_min,
                y_min,
                x_max,
                y_max,
                mac_style,
                lowest_rec_ppem,
                font_direction_hint,
                index_to_loc_format,
                glyph_data_format,
            },
        )
    }
}

} // verus!
