use turf_core::browser::BrowserVersion;
use turf_core::browser::BrowserVersions;

#[test]
fn major_only_packs_into_the_high_byte() {
    assert_eq!(u32::from(BrowserVersion::Major(5)), 0x050000);
    assert_eq!(u32::from(BrowserVersion::MajorSingleValueArray(5)), 0x050000);
}

#[test]
fn major_minor_packs_into_the_top_two_bytes() {
    assert_eq!(u32::from(BrowserVersion::MajorMinor(5, 30)), 0x05_1E_00);
}

#[test]
fn major_minor_patch_packs_one_byte_each() {
    assert_eq!(u32::from(BrowserVersion::MajorMinorPatch(1, 2, 3)), 0x010203);
    assert_eq!(
        u32::from(BrowserVersion::MajorMinorPatch(255, 255, 255)),
        0xFFFFFF
    );
    assert_eq!(u32::from(BrowserVersion::MajorMinorPatch(0, 0, 0)), 0);
}

#[test]
fn absent_families_stay_absent_when_encoding() {
    let versions = BrowserVersions {
        chrome: Some(BrowserVersion::MajorMinor(99, 1)),
        ..Default::default()
    };
    let encoded = versions.encode();
    assert_eq!(encoded.chrome, Some(0x63_01_00));
    assert_eq!(encoded.android, None);
    assert_eq!(encoded.firefox, None);
    assert_eq!(encoded.safari, None);
}
