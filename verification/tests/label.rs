//! Tests for label and code-page resolution.

use encoding::all;
use encoding::encoding_from_whatwg_label;
use encoding::encoding_from_windows_code_page;
use encoding::types::Encoding;

#[test]
fn test_encoding_from_whatwg_label() {
    assert!(encoding_from_whatwg_label("utf-8").is_some());
    assert!(encoding_from_whatwg_label("UTF-8").is_some());
    assert!(encoding_from_whatwg_label("\t\n\x0C\r utf-8\t\n\x0C\r ").is_some());
    assert!(
        encoding_from_whatwg_label("\u{A0}utf-8").is_none(),
        "Non-ASCII whitespace should not be trimmed"
    );
    assert!(encoding_from_whatwg_label("greek").is_some());
    assert!(
        encoding_from_whatwg_label("gree\u{212A}").is_none(),
        "Case-insensitive matching should be ASCII only. Kelvin sign does not match k."
    );

    // checks if the whatwg_name method returns the label that resolves back to that encoding
    for enc in encoding::encodings() {
        if let Some(whatwg_name) = enc.whatwg_name() {
            assert_eq!(
                encoding_from_whatwg_label(whatwg_name).and_then(|e| e.whatwg_name()),
                Some(whatwg_name)
            );
        }
    }
}

#[test]
fn test_encoding_from_windows_code_page() {
    assert_eq!(encoding_from_windows_code_page(65001), Some(Encoding::Utf8));
    assert_eq!(encoding_from_windows_code_page(1200), Some(Encoding::Utf16Le));
    assert_eq!(encoding_from_windows_code_page(1201), Some(Encoding::Utf16Be));
    assert_eq!(encoding_from_windows_code_page(20932), Some(Encoding::EucJp));
    assert_eq!(encoding_from_windows_code_page(932), Some(Encoding::Windows31J));
    assert_eq!(encoding_from_windows_code_page(50220), Some(Encoding::Iso2022Jp));
    assert_eq!(encoding_from_windows_code_page(949), Some(Encoding::Windows949));
    assert_eq!(encoding_from_windows_code_page(936), Some(Encoding::Gb18030));
    assert_eq!(encoding_from_windows_code_page(54936), Some(Encoding::Gb18030));
    assert_eq!(encoding_from_windows_code_page(950), Some(Encoding::Big5));
    assert_eq!(encoding_from_windows_code_page(874), Some(Encoding::Windows874));
    assert_eq!(encoding_from_windows_code_page(1254), Some(Encoding::Windows1254));
    assert_eq!(encoding_from_windows_code_page(28592), Some(Encoding::Iso88592));
    assert_eq!(encoding_from_windows_code_page(28597), Some(Encoding::Iso88597));
    assert_eq!(encoding_from_windows_code_page(12345), None);
}

#[test]
fn test_names() {
    assert_eq!(all::WINDOWS_31J.name(), "windows-31j");
    assert_eq!(all::WINDOWS_31J.whatwg_name(), Some("shift_jis"));
    assert_eq!(all::BIG5_2003.name(), "big5-2003");
    assert_eq!(all::BIG5_2003.whatwg_name(), Some("big5"));
    assert_eq!(all::ASCII.name(), "ascii");
    assert_eq!(all::ASCII.whatwg_name(), None);
    assert_eq!(all::X_USER_DEFINED.name(), "pua-mapped-binary");
    assert_eq!(all::X_USER_DEFINED.whatwg_name(), Some("x-user-defined"));
    assert_eq!(encoding::encodings().len(), 16);
}
