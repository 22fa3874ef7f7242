//! The error taxonomy shared by enumeration and capture.

use vstd::prelude::*;

verus! {

/// One variant per failure class.
///
/// - `EnumerationFailure`: the OS-level listing call itself failed; an
///   adapter reports it before any record reaches this crate.
/// - `ResourceAcquisitionFailure`: a native surface or the pixel buffer
///   copied from it was invalid (short buffer, impossible stride, or a
///   frame that does not match the requested target).
/// - `FieldDecodeFailure`: a single enumerated entry misses a required
///   field; enumeration skips the entry and continues.
/// - `GeometryFailure`: a bounding rectangle could not be decoded, or a
///   requested target has zero size.
/// - `UnsupportedTarget`: the requested rectangle does not lie inside
///   the addressable bounds of the current monitor set.
#[derive(Clone, Copy, Debug, PartialEq, Eq, Structural)]
pub enum CaptureError {
    EnumerationFailure,
    ResourceAcquisitionFailure,
    FieldDecodeFailure,
    GeometryFailure,
    UnsupportedTarget,
}

} // verus!
