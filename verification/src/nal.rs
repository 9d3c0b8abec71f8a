//! NAL unit headers and the classification of NAL unit type codes.
//!
//! A NAL unit begins with a two-byte header holding a six-bit type code, a
//! six-bit layer id and a three-bit temporal id.  The type codes fall into
//! three bands that matter for access-unit counting: slice-segment VCL
//! types, whose payload begins with the one-bit first-slice-segment flag;
//! the remaining (reserved or extension) VCL types; and non-VCL types,
//! every code above [`VCL_MAX`].

use vstd::prelude::*;

verus! {

/// Highest type code of the lower slice-segment band.
pub const SLICE_SEGMENT_LOW_MAX: u8 = 9;

/// Lowest type code of the upper slice-segment band.
pub const SLICE_SEGMENT_HIGH_MIN: u8 = 16;

/// Highest type code of the upper slice-segment band.
pub const SLICE_SEGMENT_HIGH_MAX: u8 = 21;

/// Highest VCL type code; every code above it names a non-VCL unit.
pub const VCL_MAX: u8 = 31;

/// Length in bytes of a NAL unit header.
pub const HEADER_LEN: usize = 2;

/// The one error this library reports: the supplied bytes are too short to
/// hold a NAL unit header, or (for a slice-segment unit whose payload had
/// to be inspected) too short to hold the leading payload bit.
#[derive(Clone, Copy, Debug, PartialEq, Eq)]
pub struct MalformedUnit;

/// The decoded fields of a NAL unit header.
#[derive(Clone, Copy, Debug, PartialEq, Eq, Structural)]
pub struct NalUnitHeader {
    /// Six-bit NAL unit type code.
    pub nal_unit_type: u8,
    /// Six-bit layer id; zero names the base layer.
    pub nuh_layer_id: u8,
    /// Three-bit temporal id, offset by one.  Decoded for completeness;
    /// access-unit counting never reads it.
    pub nuh_temporal_id_plus1: u8,
}

/// The type code held in the first header byte: bits 6..0 of the byte,
/// after the leading forbidden-zero bit.
pub open spec fn spec_nal_unit_type(b0: u8) -> u8 {
    (b0 >> 1) & 0x3f
}

/// The layer id spread over both header bytes: its top bit is the lowest
/// bit of the first byte, its other five bits are the top bits of the
/// second.
pub open spec fn spec_layer_id(b0: u8, b1: u8) -> u8 {
    ((b0 & 1) << 5) | (b1 >> 3)
}

/// The temporal id (plus one) in the lowest three bits of the second
/// header byte.
pub open spec fn spec_temporal_id_plus1(b1: u8) -> u8 {
    b1 & 0x07
}

/// The header encoded in the first two bytes of a NAL unit.
pub open spec fn spec_header(u: Seq<u8>) -> NalUnitHeader {
    NalUnitHeader {
        nal_unit_type: spec_nal_unit_type(u[0]),
        nuh_layer_id: spec_layer_id(u[0], u[1]),
        nuh_temporal_id_plus1: spec_temporal_id_plus1(u[1]),
    }
}

/// Whether a type code names a slice-segment VCL unit, one whose payload
/// begins with the first-slice-segment-in-picture flag.
pub open spec fn is_slice_segment_type(t: u8) -> bool {
    t <= SLICE_SEGMENT_LOW_MAX || (SLICE_SEGMENT_HIGH_MIN <= t && t <= SLICE_SEGMENT_HIGH_MAX)
}

/// Whether a type code names a VCL unit (slice-segment or reserved VCL).
pub open spec fn is_vcl_type(t: u8) -> bool {
    t <= VCL_MAX
}

/// The first payload bit of a NAL unit: for a slice-segment unit, the
/// first-slice-segment-in-picture flag.  The payload's escape scheme
/// (an emulation-prevention byte follows two zero payload bytes) can never
/// remove the first payload byte, so the first bit of the unescaped
/// payload is the top bit of the byte right after the header.
pub open spec fn spec_first_slice_flag(u: Seq<u8>) -> bool {
    u[HEADER_LEN as int] >> 7 == 1
}

/// A whole NAL unit that is a slice segment marked as the first segment
/// of its picture.
pub open spec fn is_first_slice_unit(u: Seq<u8>) -> bool {
    u.len() > HEADER_LEN && is_slice_segment_type(spec_nal_unit_type(u[0]))
        && spec_first_slice_flag(u)
}

/// A whole NAL unit that is a slice segment continuing a picture already
/// begun (its first-slice flag is clear).
pub open spec fn is_continuation_slice_unit(u: Seq<u8>) -> bool {
    u.len() > HEADER_LEN && is_slice_segment_type(spec_nal_unit_type(u[0]))
        && !spec_first_slice_flag(u)
}

/// A whole NAL unit that is non-VCL and belongs to the base layer.
pub open spec fn is_base_layer_non_vcl_unit(u: Seq<u8>) -> bool {
    u.len() >= HEADER_LEN && !is_vcl_type(spec_nal_unit_type(u[0]))
        && spec_layer_id(u[0], u[1]) == 0
}

impl NalUnitHeader {
    /// Whether this header names a slice-segment VCL unit.
    pub fn is_slice_segment(&self) -> (r: bool)
        ensures
            r == is_slice_segment_type(self.nal_unit_type),
    {
        self.nal_unit_type <= SLICE_SEGMENT_LOW_MAX
            || (SLICE_SEGMENT_HIGH_MIN <= self.nal_unit_type
                && self.nal_unit_type <= SLICE_SEGMENT_HIGH_MAX)
    }

    /// Whether this header names a VCL unit.
    pub fn is_vcl(&self) -> (r: bool)
        ensures
            r == is_vcl_type(self.nal_unit_type),
    {
        self.nal_unit_type <= VCL_MAX
    }
}

/// Decodes the two-byte header of a NAL unit; fails exactly when the unit
/// is shorter than a header.
pub fn decode_header(nalu: &[u8]) -> (r: Result<NalUnitHeader, MalformedUnit>)
    ensures
        r is Ok <==> nalu@.len() >= HEADER_LEN,
        r matches Ok(h) ==> h == spec_header(nalu@),
{
    if nalu.len() < HEADER_LEN {
        return Err(MalformedUnit);
    }
    let b0: u8 = nalu[0];
    let b1: u8 = nalu[1];
    Ok(NalUnitHeader {
        nal_unit_type: (b0 >> 1) & 0x3f,
        nuh_layer_id: ((b0 & 1) << 5) | (b1 >> 3),
        nuh_temporal_id_plus1: b1 & 0x07,
    })
}

/// Reads the first payload bit of a NAL unit — for a slice-segment unit,
/// its first-slice-segment-in-picture flag.  Fails exactly when the unit
/// holds no payload byte after the header.
pub fn first_slice_flag(nalu: &[u8]) -> (r: Result<bool, MalformedUnit>)
    ensures
        r is Ok <==> nalu@.len() > HEADER_LEN,
        r matches Ok(b) ==> b == spec_first_slice_flag(nalu@),
{
    if nalu.len() <= HEADER_LEN {
        return Err(MalformedUnit);
    }
    let b: u8 = nalu[HEADER_LEN];
    Ok(b >> 7 == 1)
}

} // verus!
