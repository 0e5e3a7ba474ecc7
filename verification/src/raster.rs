//! Validation of a raster dataset's band layout and pixel type.
//!
//! The pipeline supports exactly one raster band, and only the 8-bit unsigned
//! pixel type. Both restrictions are checked before any pixel is read; a
//! violation is reported as a typed error so that callers can terminate with a
//! descriptive message.

use vstd::prelude::*;

verus! {

/// The data-type code that a raster library reports for 8-bit unsigned
/// pixels (`GDT_Byte`).
pub const BYTE_TYPE_CODE: u32 = 1;

/// Why a raster cannot be processed.
#[derive(Debug, Clone, Copy, PartialEq, Eq, Structural)]
pub enum RasterError {
    /// The dataset exposes `count` bands instead of exactly one.
    WrongBandCount { count: usize },
    /// The single band's pixel type has code `type_code`, which is not the
    /// 8-bit unsigned code `BYTE_TYPE_CODE`.
    WrongPixelType { type_code: u32 },
}

impl RasterError {
    /// A short human-readable description of the error. The numeric pixel
    /// type code is carried in the variant's field for the caller to report.
    pub fn message(&self) -> (r: &'static str)
        ensures
            matches!(self, RasterError::WrongBandCount { .. }) ==> r@ == "More or less than one raster band"@,
            matches!(self, RasterError::WrongPixelType { .. }) ==> r@ == "Can only handle Byte data"@,
    {
        match self {
            RasterError::WrongBandCount { .. } => "More or less than one raster band",
            RasterError::WrongPixelType { .. } => "Can only handle Byte data",
        }
    }
}

/// Checks the two preconditions of pixel extraction: the dataset has exactly
/// one band, and that band's pixel type is 8-bit unsigned.
pub fn validate_raster(band_count: usize, type_code: u32) -> (r: Result<(), RasterError>)
    ensures
        r is Ok <==> (band_count == 1 && type_code == BYTE_TYPE_CODE),
        band_count != 1 <==> r == Result::<(), RasterError>::Err(RasterError::WrongBandCount { count: band_count }),
        (band_count == 1 && type_code != BYTE_TYPE_CODE) <==> r == Result::<(), RasterError>::Err(
            RasterError::WrongPixelType { type_code },
        ),
{
    if band_count != 1 {
        Err(RasterError::WrongBandCount { count: band_count })
    } else if type_code != BYTE_TYPE_CODE {
        Err(RasterError::WrongPixelType { type_code })
    } else {
        Ok(())
    }
}

} // verus!
