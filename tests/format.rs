use d3d9_device::{legacy_format, native_format, NATIVE_FORMAT_UNKNOWN};

#[test]
fn common_formats_translate_to_native() {
    assert_eq!(native_format(21), 87);
    assert_eq!(native_format(75), 45);
    assert_eq!(native_format(0x31545844), 71);
    assert_eq!(native_format(999), NATIVE_FORMAT_UNKNOWN);
}

#[test]
fn known_formats_round_trip() {
    for f in [21u32, 22, 23, 25, 26, 28, 32, 34, 36, 50, 75, 80, 82, 0x31545844, 0x33545844, 0x35545844] {
        let n = native_format(f);
        assert_ne!(n, NATIVE_FORMAT_UNKNOWN);
        assert_eq!(legacy_format(n), f);
    }
    assert_eq!(legacy_format(NATIVE_FORMAT_UNKNOWN), 0);
}
