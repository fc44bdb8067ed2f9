use vstd::prelude::*;

verus! {

/// The native format for "no known format".
pub const NATIVE_FORMAT_UNKNOWN: u32 = 0;

/// The native pixel format that stands for a legacy one; unknown where there
/// is none.
pub open spec fn native_format_spec(format: u32) -> u32 {
    match format {
        21 => 87,  // A8R8G8B8 -> B8G8R8A8_UNORM
        22 => 88,  // X8R8G8B8 -> B8G8R8X8_UNORM
        23 => 85,  // R5G6B5 -> B5G6R5_UNORM
        25 => 86,  // A1R5G5B5 -> B5G5R5A1_UNORM
        26 => 115,  // A4R4G4B4 -> B4G4R4A4_UNORM
        28 => 65,  // A8 -> A8_UNORM
        32 => 28,  // A8B8G8R8 -> R8G8B8A8_UNORM
        34 => 35,  // G16R16 -> R16G16_UNORM
        36 => 11,  // A16B16G16R16 -> R16G16B16A16_UNORM
        50 => 61,  // L8 -> R8_UNORM
        75 => 45,  // D24S8 -> D24_UNORM_S8_UINT
        80 => 55,  // D16 -> D16_UNORM
        82 => 40,  // D32F_LOCKABLE -> D32_FLOAT
        0x31545844 => 71,  // DXT1 -> BC1_UNORM
        0x33545844 => 74,  // DXT3 -> BC2_UNORM
        0x35545844 => 77,  // DXT5 -> BC3_UNORM
        _ => NATIVE_FORMAT_UNKNOWN,
    }
}

/// The legacy pixel format that a native one stands for; zero (the legacy
/// unknown format) where there is none.
pub open spec fn legacy_format_spec(format: u32) -> u32 {
    match format {
        87 => 21,
        88 => 22,
        85 => 23,
        86 => 25,
        115 => 26,
        65 => 28,
        28 => 32,
        35 => 34,
        11 => 36,
        61 => 50,
        45 => 75,
        55 => 80,
        40 => 82,
        71 => 0x31545844,
        74 => 0x33545844,
        77 => 0x35545844,
        _ => 0,
    }
}

/// Translates a legacy pixel format to the native one that the image is
/// created with.
pub fn native_format(format: u32) -> (r: u32)
    ensures
        r == native_format_spec(format),
{
    match format {
        21 => 87,
        22 => 88,
        23 => 85,
        25 => 86,
        26 => 115,
        28 => 65,
        32 => 28,
        34 => 35,
        36 => 11,
        50 => 61,
        75 => 45,
        80 => 55,
        82 => 40,
        0x31545844 => 71,
        0x33545844 => 74,
        0x35545844 => 77,
        _ => NATIVE_FORMAT_UNKNOWN,
    }
}

/// Translates a native pixel format back to the legacy one.
pub fn legacy_format(format: u32) -> (r: u32)
    ensures
        r == legacy_format_spec(format),
{
    match format {
        87 => 21,
        88 => 22,
        85 => 23,
        86 => 25,
        115 => 26,
        65 => 28,
        28 => 32,
        35 => 34,
        11 => 36,
        61 => 50,
        45 => 75,
        55 => 80,
        40 => 82,
        71 => 0x31545844,
        74 => 0x33545844,
        77 => 0x35545844,
        _ => 0,
    }
}

/// Every legacy format that has a native counterpart is read back unchanged
/// from it.
pub proof fn format_round_trip(format: u32)
    ensures
        native_format_spec(format) != NATIVE_FORMAT_UNKNOWN ==> legacy_format_spec(
            native_format_spec(format),
        ) == format,
{
}

} // verus!
