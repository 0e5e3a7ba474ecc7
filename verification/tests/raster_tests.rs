use raster_to_json::raster::RasterError;
use raster_to_json::raster::validate_raster;
use raster_to_json::raster::BYTE_TYPE_CODE;

#[test]
fn single_byte_band_accepted() {
    assert_eq!(validate_raster(1, BYTE_TYPE_CODE), Ok(()));
}

#[test]
fn zero_bands_rejected() {
    assert_eq!(validate_raster(0, BYTE_TYPE_CODE), Err(RasterError::WrongBandCount { count: 0 }));
}

#[test]
fn many_bands_rejected() {
    assert_eq!(validate_raster(3, BYTE_TYPE_CODE), Err(RasterError::WrongBandCount { count: 3 }));
}

#[test]
fn band_count_checked_before_type() {
    assert_eq!(validate_raster(2, 7), Err(RasterError::WrongBandCount { count: 2 }));
}

#[test]
fn non_byte_type_rejected() {
    // 2 is the raster library's code for 16-bit unsigned pixels.
    assert_eq!(validate_raster(1, 2), Err(RasterError::WrongPixelType { type_code: 2 }));
}

#[test]
fn float_type_rejected() {
    // 6 is the raster library's code for 32-bit floating-point pixels.
    assert_eq!(validate_raster(1, 6), Err(RasterError::WrongPixelType { type_code: 6 }));
}

#[test]
fn error_messages() {
    assert_eq!(
        RasterError::WrongBandCount { count: 4 }.message(),
        "More or less than one raster band"
    );
    assert_eq!(
        RasterError::WrongPixelType { type_code: 6 }.message(),
        "Can only handle Byte data"
    );
}
