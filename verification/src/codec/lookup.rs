//! The normative lookup tables of the multi-byte encodings, reached through
//! `encoding_rs`.
//!
//! The tables themselves (JIS X 0208 and 0212, KS X 1001, the GB and Big5
//! indices) are many thousands of entries of standardised data; this crate
//! does not restate them.  Each query converts a single short byte sequence
//! or a single character with a fresh converter, so the result is a function
//! of the encoding label and the query alone; the two names below stand for
//! those functions.

use vstd::prelude::*;

verus! {

/// What one short byte sequence decodes to under the WHATWG decoder for the
/// encoding with the given label, or `None` when it is not exactly one whole
/// well-formed sequence.
pub uninterp spec fn whatwg_decode(label: Seq<char>, bytes: Seq<u8>) -> Option<Seq<char>>;

/// What one character encodes to under the WHATWG encoder for the encoding
/// with the given label, or `None` when the encoding cannot represent it.
pub uninterp spec fn whatwg_encode(label: Seq<char>, c: char) -> Option<Seq<u8>>;

/// Relies on `encoding_rs::Encoding::for_label` and
/// `encoding_rs::Decoder::decode_to_utf8_without_replacement`: decoding a
/// complete short byte sequence with a fresh decoder depends on the label
/// and the bytes alone.
#[verifier::external_body]
pub(crate) fn oracle_decode(label: &str, bytes: &[u8]) -> (r: Option<Vec<char>>)
    requires
        bytes@.len() <= 4,
    ensures
        (match r {
            Some(v) => whatwg_decode(label@, bytes@) == Some(v@),
            None => whatwg_decode(label@, bytes@) is None,
        }),
{
    let enc = encoding_rs::Encoding::for_label(label.as_bytes())?;
    let mut decoder = enc.new_decoder_without_bom_handling();
    let mut buf = [0u8; 32];
    let (result, _, written) = decoder.decode_to_utf8_without_replacement(bytes, &mut buf, true);
    match result {
        encoding_rs::DecoderResult::InputEmpty => {
            core::str::from_utf8(&buf[..written]).ok().map(|s| s.chars().collect())
        },
        _ => None,
    }
}

/// A two-byte sequence through [`oracle_decode`].
pub(crate) fn decode2(label: &str, b1: u8, b2: u8) -> (r: Option<Vec<char>>)
    ensures
        (match r {
            Some(v) => whatwg_decode(label@, seq![b1, b2]) == Some(v@),
            None => whatwg_decode(label@, seq![b1, b2]) is None,
        }),
{
    let mut bytes: Vec<u8> = Vec::new();
    bytes.push(b1);
    bytes.push(b2);
    proof {
        assert(bytes@ =~= seq![b1, b2]);
    }
    oracle_decode(label, bytes.as_slice())
}

/// A three-byte sequence through [`oracle_decode`].
pub(crate) fn decode3(label: &str, b1: u8, b2: u8, b3: u8) -> (r: Option<Vec<char>>)
    ensures
        (match r {
            Some(v) => whatwg_decode(label@, seq![b1, b2, b3]) == Some(v@),
            None => whatwg_decode(label@, seq![b1, b2, b3]) is None,
        }),
{
    let mut bytes: Vec<u8> = Vec::new();
    bytes.push(b1);
    bytes.push(b2);
    bytes.push(b3);
    proof {
        assert(bytes@ =~= seq![b1, b2, b3]);
    }
    oracle_decode(label, bytes.as_slice())
}

/// A four-byte sequence through [`oracle_decode`].
pub(crate) fn decode4(label: &str, b1: u8, b2: u8, b3: u8, b4: u8) -> (r: Option<Vec<char>>)
    ensures
        (match r {
            Some(v) => whatwg_decode(label@, seq![b1, b2, b3, b4]) == Some(v@),
            None => whatwg_decode(label@, seq![b1, b2, b3, b4]) is None,
        }),
{
    let mut bytes: Vec<u8> = Vec::new();
    bytes.push(b1);
    bytes.push(b2);
    bytes.push(b3);
    bytes.push(b4);
    proof {
        assert(bytes@ =~= seq![b1, b2, b3, b4]);
    }
    oracle_decode(label, bytes.as_slice())
}

/// Relies on `encoding_rs::Encoding::for_label` and
/// `encoding_rs::Encoder::encode_from_utf8_without_replacement`: encoding a
/// single character with a fresh encoder depends on the label and the
/// character alone.
#[verifier::external_body]
pub(crate) fn oracle_encode(label: &str, c: char) -> (r: Option<Vec<u8>>)
    ensures
        (match r {
            Some(v) => whatwg_encode(label@, c) == Some(v@),
            None => whatwg_encode(label@, c) is None,
        }),
{
    let enc = encoding_rs::Encoding::for_label(label.as_bytes())?;
    let mut encoder = enc.new_encoder();
    let mut cbuf = [0u8; 4];
    let mut buf = [0u8; 32];
    let src: &str = c.encode_utf8(&mut cbuf);
    let (result, _, written) = encoder.encode_from_utf8_without_replacement(src, &mut buf, true);
    match result {
        encoding_rs::EncoderResult::InputEmpty => Some(buf[..written].to_vec()),
        _ => None,
    }
}

/// One character of encoder input for a stateless encoding whose index is
/// reached through [`whatwg_encode`]: ASCII passes through, everything else
/// maps through the index or is unmappable.
#[verifier::opaque]
pub open spec fn oracle_enc_step(label: Seq<char>, m: u8, c: char) -> crate::raw::EStep {
    if (c as u32) < 0x80 {
        crate::raw::EStep::Put { m, out: seq![(c as u32) as u8] }
    } else {
        match whatwg_encode(label, c) {
            Some(bs) => crate::raw::EStep::Put { m, out: bs },
            None => crate::raw::EStep::Unmap,
        }
    }
}

/// Runs [`oracle_enc_step`] on the live state.
pub(crate) fn oracle_enc_exec(label: &str, m: u8, c: char, output: &mut Vec<u8>) -> (r: (u8, bool))
    ensures
        (match oracle_enc_step(label@, m, c) {
            crate::raw::EStep::Put { m: m2, out } => {
                &&& r.1 == true
                &&& r.0 == m2
                &&& final(output)@ == old(output)@ + out
            },
            crate::raw::EStep::Unmap => {
                &&& r.1 == false
                &&& r.0 == m
                &&& final(output)@ == old(output)@
            },
        }),
{
    proof {
        reveal(oracle_enc_step);
    }
    let u = c as u32;
    if u < 0x80 {
        output.push(u as u8);
        (m, true)
    } else {
        match oracle_encode(label, c) {
            Some(mut bytes) => {
                output.append(&mut bytes);
                (m, true)
            },
            None => (m, false),
        }
    }
}

} // verus!
