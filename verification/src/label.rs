//! Retrieving an encoding from a textual label or a Windows code page
//! number.  Label resolution itself is simple data lookup performed by a
//! collaborator; this module only maps its answer onto the encodings this
//! crate supports.

use vstd::prelude::*;

use crate::types::Encoding;
use crate::util::str_to_chars;

verus! {

/// The canonical name that the WHATWG "get an encoding" algorithm assigns
/// to a label, if any.
pub uninterp spec fn whatwg_label_name(label: Seq<char>) -> Option<Seq<char>>;

/// Relies on `encoding_rs::Encoding::for_label` (the WHATWG "get an
/// encoding" algorithm) and `encoding_rs::Encoding::name`: the canonical
/// name is a function of the label alone.
#[verifier::external_body]
fn label_canonical_name(label: &str) -> (r: Option<String>)
    ensures
        (match r {
            Some(s) => whatwg_label_name(label@) == Some(s@),
            None => whatwg_label_name(label@) is None,
        }),
{
    encoding_rs::Encoding::for_label(label.as_bytes()).map(|e| e.name().to_string())
}

/// The encoding this crate supports under a canonical WHATWG name.
pub open spec fn spec_encoding_for_name(n: Seq<char>) -> Option<Encoding> {
    if n == "UTF-8"@ {
        Some(Encoding::Utf8)
    } else if n == "UTF-16LE"@ {
        Some(Encoding::Utf16Le)
    } else if n == "UTF-16BE"@ {
        Some(Encoding::Utf16Be)
    } else if n == "EUC-JP"@ {
        Some(Encoding::EucJp)
    } else if n == "Shift_JIS"@ {
        Some(Encoding::Windows31J)
    } else if n == "ISO-2022-JP"@ {
        Some(Encoding::Iso2022Jp)
    } else if n == "EUC-KR"@ {
        Some(Encoding::Windows949)
    } else if n == "GBK"@ {
        Some(Encoding::Gbk)
    } else if n == "gb18030"@ {
        Some(Encoding::Gb18030)
    } else if n == "Big5"@ {
        Some(Encoding::Big5)
    } else if n == "windows-874"@ {
        Some(Encoding::Windows874)
    } else if n == "windows-1254"@ {
        Some(Encoding::Windows1254)
    } else if n == "ISO-8859-2"@ {
        Some(Encoding::Iso88592)
    } else if n == "ISO-8859-7"@ {
        Some(Encoding::Iso88597)
    } else if n == "x-user-defined"@ {
        Some(Encoding::XUserDefined)
    } else {
        None
    }
}

/// What [`encoding_from_whatwg_label`] returns: the label's canonical
/// WHATWG name mapped onto the supported encodings.
pub open spec fn spec_encoding_from_whatwg_label(label: Seq<char>) -> Option<Encoding> {
    match whatwg_label_name(label) {
        Some(n) => spec_encoding_for_name(n),
        None => None,
    }
}

/// Whether the characters equal the string's characters.
fn chars_eq_str(a: &Vec<char>, b: &str) -> (r: bool)
    ensures
        r == (a@ == b@),
{
    let bc = str_to_chars(b);
    if a.len() != bc.len() {
        proof {
            assert(a@.len() != b@.len());
        }
        return false;
    }
    let mut i: usize = 0;
    while i < a.len()
        invariant
            i <= a.len(),
            a@.len() == bc@.len(),
            bc@ == b@,
            forall|j: int| 0 <= j < i ==> a@[j] == bc@[j],
        decreases a.len() - i,
    {
        if a[i] != bc[i] {
            proof {
                assert(a@[i as int] != b@[i as int]);
            }
            return false;
        }
        i += 1;
    }
    proof {
        assert(a@ =~= b@);
    }
    true
}

/// Returns an encoding from a label, as defined in the WHATWG Encoding
/// standard, when the named encoding is one this crate supports.
pub fn encoding_from_whatwg_label(label: &str) -> (r: Option<Encoding>)
    ensures
        r == spec_encoding_from_whatwg_label(label@),
{
    match label_canonical_name(label) {
        None => None,
        Some(name) => {
            let nc = str_to_chars(name.as_str());
            if chars_eq_str(&nc, "UTF-8") {
                Some(Encoding::Utf8)
            } else if chars_eq_str(&nc, "UTF-16LE") {
                Some(Encoding::Utf16Le)
            } else if chars_eq_str(&nc, "UTF-16BE") {
                Some(Encoding::Utf16Be)
            } else if chars_eq_str(&nc, "EUC-JP") {
                Some(Encoding::EucJp)
            } else if chars_eq_str(&nc, "Shift_JIS") {
                Some(Encoding::Windows31J)
            } else if chars_eq_str(&nc, "ISO-2022-JP") {
                Some(Encoding::Iso2022Jp)
            } else if chars_eq_str(&nc, "EUC-KR") {
                Some(Encoding::Windows949)
            } else if chars_eq_str(&nc, "GBK") {
                Some(Encoding::Gbk)
            } else if chars_eq_str(&nc, "gb18030") {
                Some(Encoding::Gb18030)
            } else if chars_eq_str(&nc, "Big5") {
                Some(Encoding::Big5)
            } else if chars_eq_str(&nc, "windows-874") {
                Some(Encoding::Windows874)
            } else if chars_eq_str(&nc, "windows-1254") {
                Some(Encoding::Windows1254)
            } else if chars_eq_str(&nc, "ISO-8859-2") {
                Some(Encoding::Iso88592)
            } else if chars_eq_str(&nc, "ISO-8859-7") {
                Some(Encoding::Iso88597)
            } else if chars_eq_str(&nc, "x-user-defined") {
                Some(Encoding::XUserDefined)
            } else {
                None
            }
        },
    }
}

/// What [`encoding_from_windows_code_page`] returns for each code page
/// number.
pub open spec fn spec_encoding_from_windows_code_page(cp: usize) -> Option<Encoding> {
    if cp == 65001 {
        Some(Encoding::Utf8)
    } else if cp == 1200 {
        Some(Encoding::Utf16Le)
    } else if cp == 1201 {
        Some(Encoding::Utf16Be)
    } else if cp == 20932 {
        Some(Encoding::EucJp)
    } else if cp == 932 {
        Some(Encoding::Windows31J)
    } else if cp == 50220 {
        Some(Encoding::Iso2022Jp)
    } else if cp == 949 {
        Some(Encoding::Windows949)
    } else if cp == 936 || cp == 54936 {
        Some(Encoding::Gb18030)
    } else if cp == 950 {
        Some(Encoding::Big5)
    } else if cp == 874 {
        Some(Encoding::Windows874)
    } else if cp == 1254 {
        Some(Encoding::Windows1254)
    } else if cp == 28592 {
        Some(Encoding::Iso88592)
    } else if cp == 28597 {
        Some(Encoding::Iso88597)
    } else {
        None
    }
}

/// Returns an encoding from a Windows code page number, when the numbered
/// encoding is one this crate supports.  The gb18030 answer for code page
/// 936 is a superset of the encoding the number names.
pub fn encoding_from_windows_code_page(cp: usize) -> (r: Option<Encoding>)
    ensures
        r == spec_encoding_from_windows_code_page(cp),
{
    match cp {
        65001 => Some(Encoding::Utf8),
        1200 => Some(Encoding::Utf16Le),
        1201 => Some(Encoding::Utf16Be),
        20932 => Some(Encoding::EucJp),
        932 => Some(Encoding::Windows31J),
        50220 => Some(Encoding::Iso2022Jp),
        949 => Some(Encoding::Windows949),
        936 | 54936 => Some(Encoding::Gb18030),
        950 => Some(Encoding::Big5),
        874 => Some(Encoding::Windows874),
        1254 => Some(Encoding::Windows1254),
        28592 => Some(Encoding::Iso88592),
        28597 => Some(Encoding::Iso88597),
        _ => None,
    }
}

} // verus!
