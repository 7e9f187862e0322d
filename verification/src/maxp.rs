//! The maxp table: supplies the glyph count, plus optional
//! hinting-limit fields present from table version 1.0 upward.
//!
//! The version is a 16.16 fixed-point number kept as its raw bit
//! pattern, so version 1.0 is `0x0001_0000`.

use vstd::prelude::*;
use crate::error::FontError;
use crate::reader::{be_u16_at, be_u32_at, Reader};

verus! {

/// Raw 16.16 fixed-point representation of table version 1.0.
pub const MAXP_VERSION_1_0: u32 = 0x0001_0000;

/// The decoded maxp table.
#[derive(Clone, Copy, Debug, PartialEq, Eq, Structural)]
pub struct MaxpTable {
    /// Raw 16.16 fixed-point table version.
    pub version: u32,
    /// Number of glyphs in the font.
    pub num_glyphs: u16,
    pub max_points: Option<u16>,
    pub max_contours: Option<u16>,
    pub max_component_points: Option<u16>,
    pub max_component_contours: Option<u16>,
    pub max_zones: Option<u16>,
    pub max_twilight_points: Option<u16>,
    pub max_storage: Option<u16>,
    pub max_function_defs: Option<u16>,
    pub max_instruction_defs: Option<u16>,
    pub max_stack_elements: Option<u16>,
    pub max_size_of_instructions: Option<u16>,
    pub max_component_elements: Option<u16>,
    pub max_component_depth: Option<u16>,
}

/// What parsing `d` as a maxp table yields. Version and glyph count
/// take six bytes; a version of 1.0 or more carries thirteen further
/// `u16` fields, 32 bytes in all. Shorter input is `TruncatedData`.
pub open spec fn parse_maxp_spec(d: Seq<u8>) -> Result<MaxpTable, FontError> {
    if d.len() < 6 {
        Err(FontError::TruncatedData)
    } else if be_u32_at(d, 0) < MAXP_VERSION_1_0 {
        Ok(
            (MaxpTable {
                version: be_u32_at(d, 0),
                num_glyphs: be_u16_at(d, 4),
                max_points: None,
                max_contours: None,
                max_component_points: None,
                max_component_contours: None,
                max_zones: None,
                max_twilight_points: None,
                max_storage: None,
                max_function_defs: None,
                max_instruction_defs: None,
                max_stack_elements: None,
                max_size_of_instructions: None,
                max_component_elements: None,
                max_component_depth: None,
            }),
        )
    } else if d.len() < 32 {
        Err(FontError::TruncatedData)
    } else {
        Ok(
            (MaxpTable {
                version: be_u32_at(d, 0),
                num_glyphs: be_u16_at(d, 4),
                max_points: Some(be_u16_at(d, 6)),
                max_contours: Some(be_u16_at(d, 8)),
                max_component_points: Some(be_u16_at(d, 10)),
                max_component_contours: Some(be_u16_at(d, 12)),
                max_zones: Some(be_u16_at(d, 14)),
                max_twilight_points: Some(be_u16_at(d, 16)),
                max_storage: Some(be_u16_at(d, 18)),
                max_function_defs: Some(be_u16_at(d, 20)),
                max_instruction_defs: Some(be_u16_at(d, 22)),
                max_stack_elements: Some(be_u16_at(d, 24)),
                max_size_of_instructions: Some(be_u16_at(d, 26)),
                max_component_elements: Some(be_u16_at(d, 28)),
                max_component_depth: Some(be_u16_at(d, 30)),
            }),
        )
    }
}

impl MaxpTable {
    /// Parses the maxp table from its own byte slice.
    pub fn parse(data: &[u8]) -> (r: Result<MaxpTable, FontError>)
        ensures
            r == parse_maxp_spec(data@),
    {
        let mut rd = Reader::new(data);
        let version = match rd.read_u32() {
            Ok(v) => v,
            Err(e) => { return Err(e); },
        };
        let num_glyphs = match rd.read_u16() {
            Ok(v) => v,
            Err(e) => { return Err(e); },
        };
        if version < MAXP_VERSION_1_0 {
            return Ok(
                MaxpTable {
                    version,
                    num_glyphs,
                    max_points: None,
                    max_contours: None,
                    max_component_points: None,
                    max_component_contours: None,
                    max_zones: None,
                    max_twilight_points: None,
                    max_storage: None,
                    max_function_defs: None,
                    max_instruction_defs: None,
                    max_stack_elements: None,
                    max_size_of_instructions: None,
                    max_component_elements: None,
                    max_component_depth: None,
                },
            );
        }
        if data.len() < 32 {
            return Err(FontError::TruncatedData);
        }
        let mut extra: [u16; 13] = [0u16; 13];
        let mut k: usize = 0;
        while k < 13
            invariant
                rd.wf(),
                rd.bytes() == data@,
                data@.len() >= 32,
                k <= 13,
                rd.position_spec() == 6 + 2 * k,
                forall|j: int| 0 <= j < k ==> extra@[j] == be_u16_at(data@, 6 + 2 * j),
            decreases 13 - k,
        {
            let v = match rd.read_u16() {
                Ok(v) => v,
                Err(e) => { return Err(e); },
            };
            extra[k] = v;
            k = k + 1;
        }
        Ok(
            MaxpTable {
                version,
                num_glyphs,
                max_points: Some(extra[0]),
                max_contours: Some(extra[1]),
                max_component_points: Some(extra[2]),
                max_component_contours: Some(extra[3]),
                max_zones: Some(extra[4]),
                max_twilight_points: Some(extra[5]),
                max_storage: Some(extra[6]),
                max_function_defs: Some(extra[7]),
                max_instruction_defs: Some(extra[8]),
                max_stack_elements: Some(extra[9]),
                max_size_of_instructions: Some(extra[10]),
                max_component_elements: Some(extra[11]),
                max_component_depth: Some(extra[12]),
            },
        )
    }
}

} // verus!
