//! A list of all supported encodings.  Useful for encodings fixed at
//! compile time.

use vstd::prelude::*;

use crate::types::Encoding;

verus! {

/// The ASCII encoding.
pub const ASCII: Encoding = Encoding::Ascii;

/// The UTF-8 encoding.
pub const UTF_8: Encoding = Encoding::Utf8;

/// The UTF-16LE encoding.
pub const UTF_16LE: Encoding = Encoding::Utf16Le;

/// The UTF-16BE encoding.
pub const UTF_16BE: Encoding = Encoding::Utf16Be;

/// The EUC-JP encoding.
pub const EUC_JP: Encoding = Encoding::EucJp;

/// The Shift_JIS encoding, in its Windows-31J form.
pub const WINDOWS_31J: Encoding = Encoding::Windows31J;

/// The ISO-2022-JP encoding.
pub const ISO_2022_JP: Encoding = Encoding::Iso2022Jp;

/// The EUC-KR encoding, in its Windows-949 form.
pub const WINDOWS_949: Encoding = Encoding::Windows949;

/// The GBK encoding.
pub const GBK: Encoding = Encoding::Gbk;

/// The gb18030 encoding.
pub const GB18030: Encoding = Encoding::Gb18030;

/// The Big5 encoding.
pub const BIG5_2003: Encoding = Encoding::Big5;

/// The windows-874 encoding.
pub const WINDOWS_874: Encoding = Encoding::Windows874;

/// The windows-1254 encoding.
pub const WINDOWS_1254: Encoding = Encoding::Windows1254;

/// The ISO-8859-2 encoding.
pub const ISO_8859_2: Encoding = Encoding::Iso88592;

/// The ISO-8859-7 encoding.
pub const ISO_8859_7: Encoding = Encoding::Iso88597;

/// The x-user-defined encoding.
pub const X_USER_DEFINED: Encoding = Encoding::XUserDefined;

/// Every encoding this crate supports, in a fixed order.
pub open spec fn spec_encodings() -> Seq<Encoding> {
    seq![
        Encoding::Ascii,
        Encoding::Utf8,
        Encoding::Utf16Le,
        Encoding::Utf16Be,
        Encoding::EucJp,
        Encoding::Windows31J,
        Encoding::Iso2022Jp,
        Encoding::Windows949,
        Encoding::Gbk,
        Encoding::Gb18030,
        Encoding::Big5,
        Encoding::Windows874,
        Encoding::Windows1254,
        Encoding::Iso88592,
        Encoding::Iso88597,
        Encoding::XUserDefined,
    ]
}

/// Returns a list of the encodings available.
pub fn encodings() -> (r: Vec<Encoding>)
    ensures
        r@ == spec_encodings(),
{
    let mut v: Vec<Encoding> = Vec::new();
    v.push(Encoding::Ascii);
    v.push(Encoding::Utf8);
    v.push(Encoding::Utf16Le);
    v.push(Encoding::Utf16Be);
    v.push(Encoding::EucJp);
    v.push(Encoding::Windows31J);
    v.push(Encoding::Iso2022Jp);
    v.push(Encoding::Windows949);
    v.push(Encoding::Gbk);
    v.push(Encoding::Gb18030);
    v.push(Encoding::Big5);
    v.push(Encoding::Windows874);
    v.push(Encoding::Windows1254);
    v.push(Encoding::Iso88592);
    v.push(Encoding::Iso88597);
    v.push(Encoding::XUserDefined);
    proof {
        assert(v@ =~= spec_encodings());
    }
    v
}

} // verus!
