//! The normalized bitmap produced by every capture.

use vstd::prelude::*;

verus! {

/// A bitmap of interleaved 8-bit RGBA samples. Produced fresh by every
/// capture call and owned solely by the caller after return.
pub struct Image {
    /// Width in pixels.
    pub width: u32,
    /// Height in pixels.
    pub height: u32,
    /// Interleaved RGBA samples, row-major, top row first.
    pub buffer: Vec<u8>,
}

impl Image {
    /// The buffer holds exactly `width * height * 4` bytes.
    pub open spec fn well_formed(self) -> bool {
        self.buffer@.len() == self.width * self.height * 4
    }
}

} // verus!
