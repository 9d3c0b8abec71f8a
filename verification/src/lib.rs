//! Counting access units in an H.265 elementary stream.
//!
//! An elementary stream is a sequence of NAL (Network Abstraction Layer)
//! units.  An *access unit* is the set of NAL units that make up one coded
//! picture.  [`AccessUnitCounter`] consumes the stream one NAL unit at a
//! time and keeps a running count of the access-unit boundaries it has
//! seen, following the boundary rules of ITU-T H.265 (7.4.2.4.4), without
//! decoding any picture content: it reads each unit's two-byte header and,
//! for slice-segment units, at most one payload bit.

pub mod counter;
pub mod laws;
pub mod nal;

pub use counter::AccessUnitCounter;
pub use nal::MalformedUnit;
pub use nal::NalUnitHeader;
