//! The identities of the supported encodings, the error descriptor of the
//! streaming protocol, and the trap policies of the convenience layer.

use vstd::prelude::*;

verus! {

/// One supported encoding.  The set is closed: every per-encoding state
/// machine of this crate is selected through this tag.
#[derive(Clone, Copy, PartialEq, Eq, Structural, Debug)]
pub enum Encoding {
    /// Plain 7-bit ASCII; every byte with the high bit set is malformed.
    Ascii,
    /// UTF-8.
    Utf8,
    /// UTF-16 in little-endian byte order.
    Utf16Le,
    /// UTF-16 in big-endian byte order.
    Utf16Be,
    /// EUC-JP, covering JIS X 0201 katakana, JIS X 0208 and JIS X 0212.
    EucJp,
    /// Windows-31J, the Windows extension of Shift_JIS.
    Windows31J,
    /// ISO-2022-JP with its escape-driven shift states.
    Iso2022Jp,
    /// Windows-949, the Windows extension of EUC-KR.
    Windows949,
    /// GBK, the two-byte predecessor of GB18030 (shares its decoder).
    Gbk,
    /// GB18030 with its four-byte linear form.
    Gb18030,
    /// Big5 as used on the web, including the HKSCS additions (decode only).
    Big5,
    /// The windows-874 single-byte code page (Thai).
    Windows874,
    /// The windows-1254 single-byte code page (Turkish).
    Windows1254,
    /// The ISO-8859-2 single-byte encoding (Central European).
    Iso88592,
    /// The ISO-8859-7 single-byte encoding (Greek).
    Iso88597,
    /// x-user-defined: high bytes map to the U+F780..U+F7FF private-use area.
    XUserDefined,
}

/// The error descriptor of the streaming protocol.
///
/// `upto` is the byte (decode) or character (encode) position just past the
/// erroneous span, relative to the start of the input of the call that
/// reported it.  It is signed because the span may consist of bytes that were
/// buffered during earlier calls: a negative value says that the stream must
/// be resumed that many positions before the current input began.
pub struct CodecError {
    /// Position just past the erroneous span, relative to the current input.
    pub upto: isize,
    /// A fixed human-readable description of the error class.
    pub cause: &'static str,
}

/// What the convenience decode loop does when the decoder reports malformed
/// input.
#[derive(Clone, Copy, PartialEq, Eq, Structural, Debug)]
pub enum DecoderTrap {
    /// Abort and hand the failure to the caller.
    Strict,
    /// Substitute one U+FFFD for the erroneous span and resume.
    Replace,
    /// Drop the erroneous span silently and resume.
    Ignore,
}

/// What the convenience encode loop does when a character has no
/// representation in the target encoding.
#[derive(Clone, Copy, PartialEq, Eq, Structural, Debug)]
pub enum EncoderTrap {
    /// Abort and hand the failure to the caller.
    Strict,
    /// Substitute a question mark for the character and resume.
    Replace,
    /// Drop the character silently and resume.
    Ignore,
    /// Substitute the decimal numeric character reference of the character
    /// and resume.
    NcrEscape,
}

/// A caller-supplied recovery for malformed decoder input: it receives the
/// erroneous bytes and the live decoder, may write replacement text, and
/// returns whether decoding should resume.
pub trait DecoderTrapHandler {
    /// Handle one erroneous byte span; `false` aborts the conversion.
    fn trap(
        &mut self,
        decoder: &mut crate::raw::RawDecoderImpl,
        problem: &[u8],
        output: &mut Vec<char>,
    ) -> bool;
}

/// A caller-supplied recovery for an unmappable character: it receives the
/// character and the live encoder, may write replacement bytes, and returns
/// whether encoding should resume.
pub trait EncoderTrapHandler {
    /// Handle one unmappable character; `false` aborts the conversion.
    fn trap(
        &mut self,
        encoder: &mut crate::raw::RawEncoderImpl,
        unmappable: char,
        output: &mut Vec<u8>,
    ) -> bool;
}

impl Encoding {
    /// The name used by this crate for the encoding, following the historical
    /// naming of the original registry.
    pub fn name(self) -> (r: &'static str)
        ensures
            r@ == spec_name(self),
    {
        match self {
            Encoding::Ascii => "ascii",
            Encoding::Utf8 => "utf-8",
            Encoding::Utf16Le => "utf-16le",
            Encoding::Utf16Be => "utf-16be",
            Encoding::EucJp => "euc-jp",
            Encoding::Windows31J => "windows-31j",
            Encoding::Iso2022Jp => "iso-2022-jp",
            Encoding::Windows949 => "windows-949",
            Encoding::Gbk => "gbk",
            Encoding::Gb18030 => "gb18030",
            Encoding::Big5 => "big5-2003",
            Encoding::Windows874 => "windows-874",
            Encoding::Windows1254 => "windows-1254",
            Encoding::Iso88592 => "iso-8859-2",
            Encoding::Iso88597 => "iso-8859-7",
            Encoding::XUserDefined => "pua-mapped-binary",
        }
    }

    /// The name of the encoding in the WHATWG Encoding standard, if the
    /// standard has one for it.
    pub fn whatwg_name(self) -> (r: Option<&'static str>)
        ensures
            r matches Some(s) ==> s@ == spec_whatwg_name(self)->Some_0,
            (r is Some) == (spec_whatwg_name(self) is Some),
    {
        match self {
            Encoding::Ascii => None,
            Encoding::Utf8 => Some("utf-8"),
            Encoding::Utf16Le => Some("utf-16le"),
            Encoding::Utf16Be => Some("utf-16be"),
            Encoding::EucJp => Some("euc-jp"),
            Encoding::Windows31J => Some("shift_jis"),
            Encoding::Iso2022Jp => Some("iso-2022-jp"),
            Encoding::Windows949 => Some("euc-kr"),
            Encoding::Gbk => Some("gbk"),
            Encoding::Gb18030 => Some("gb18030"),
            Encoding::Big5 => Some("big5"),
            Encoding::Windows874 => Some("windows-874"),
            Encoding::Windows1254 => Some("windows-1254"),
            Encoding::Iso88592 => Some("iso-8859-2"),
            Encoding::Iso88597 => Some("iso-8859-7"),
            Encoding::XUserDefined => Some("x-user-defined"),
        }
    }

    /// Whether bytes below 0x80 always stand for the ASCII characters.
    pub fn is_ascii_compatible(self) -> (r: bool)
        ensures
            r == (self != Encoding::Utf16Le && self != Encoding::Utf16Be),
    {
        match self {
            Encoding::Utf16Le => false,
            Encoding::Utf16Be => false,
            _ => true,
        }
    }
}

/// The view of [`Encoding::name`].
pub open spec fn spec_name(e: Encoding) -> Seq<char> {
    match e {
        Encoding::Ascii => "ascii"@,
        Encoding::Utf8 => "utf-8"@,
        Encoding::Utf16Le => "utf-16le"@,
        Encoding::Utf16Be => "utf-16be"@,
        Encoding::EucJp => "euc-jp"@,
        Encoding::Windows31J => "windows-31j"@,
        Encoding::Iso2022Jp => "iso-2022-jp"@,
        Encoding::Windows949 => "windows-949"@,
        Encoding::Gbk => "gbk"@,
        Encoding::Gb18030 => "gb18030"@,
        Encoding::Big5 => "big5-2003"@,
        Encoding::Windows874 => "windows-874"@,
        Encoding::Windows1254 => "windows-1254"@,
        Encoding::Iso88592 => "iso-8859-2"@,
        Encoding::Iso88597 => "iso-8859-7"@,
        Encoding::XUserDefined => "pua-mapped-binary"@,
    }
}

/// The view of [`Encoding::whatwg_name`].
pub open spec fn spec_whatwg_name(e: Encoding) -> Option<Seq<char>> {
    match e {
        Encoding::Ascii => None,
        Encoding::Utf8 => Some("utf-8"@),
        Encoding::Utf16Le => Some("utf-16le"@),
        Encoding::Utf16Be => Some("utf-16be"@),
        Encoding::EucJp => Some("euc-jp"@),
        Encoding::Windows31J => Some("shift_jis"@),
        Encoding::Iso2022Jp => Some("iso-2022-jp"@),
        Encoding::Windows949 => Some("euc-kr"@),
        Encoding::Gbk => Some("gbk"@),
        Encoding::Gb18030 => Some("gb18030"@),
        Encoding::Big5 => Some("big5"@),
        Encoding::Windows874 => Some("windows-874"@),
        Encoding::Windows1254 => Some("windows-1254"@),
        Encoding::Iso88592 => Some("iso-8859-2"@),
        Encoding::Iso88597 => Some("iso-8859-7"@),
        Encoding::XUserDefined => Some("x-user-defined"@),
    }
}

} // verus!
