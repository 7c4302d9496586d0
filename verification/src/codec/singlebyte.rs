//! The stateless one-byte machines: ASCII, the single-byte code pages, and
//! x-user-defined.

use vstd::prelude::*;

use crate::codec::lookup;
use crate::index::windows_1254;
use crate::index::windows_874;
use crate::raw::FailInfo;
use crate::raw::Step;
use crate::types::Encoding;
use crate::util::scalar_to_char;

verus! {

/// One byte of ASCII input: bytes with the high bit set are malformed.
#[verifier::opaque]
pub open spec fn ascii_step(m: u8, p: Seq<u8>, b: u8) -> Step {
    if b <= 0x7F {
        Step::Next { m, p: Seq::empty(), out: seq![(b as u32) as char] }
    } else {
        Step::Fail { plen: 0, eat: true }
    }
}

/// Runs [`ascii_step`] on the live state.
pub(crate) fn ascii_step_exec(m: u8, pending: &mut Vec<u8>, b: u8, output: &mut Vec<char>) -> (r:
    Option<FailInfo>)
    ensures
        (match ascii_step(m, old(pending)@, b) {
            Step::Next { m: m2, p, out } => {
                &&& r is None
                &&& m2 == m
                &&& final(pending)@ == p
                &&& final(output)@ == old(output)@ + out
            },
            Step::Fail { plen, eat } => {
                &&& r matches Some(f) && f.plen == plen && f.eat == eat
                &&& final(pending)@ == old(pending)@
                &&& final(output)@ == old(output)@
            },
        }),
{
    proof {
        reveal(ascii_step);
    }
    if b <= 0x7F {
        pending.clear();
        output.push(scalar_to_char(b as u32));
        None
    } else {
        Some(FailInfo { plen: 0, eat: true })
    }
}

/// One byte of x-user-defined input: high bytes map onto the private-use
/// range U+F780..U+F7FF, so no byte is ever malformed.
#[verifier::opaque]
pub open spec fn xud_step(m: u8, p: Seq<u8>, b: u8) -> Step {
    if b <= 0x7F {
        Step::Next { m, p: Seq::empty(), out: seq![(b as u32) as char] }
    } else {
        Step::Next { m, p: Seq::empty(), out: seq![((0xF780 + (b - 0x80)) as u32) as char] }
    }
}

/// Runs [`xud_step`] on the live state.
pub(crate) fn xud_step_exec(m: u8, pending: &mut Vec<u8>, b: u8, output: &mut Vec<char>) -> (r:
    Option<FailInfo>)
    ensures
        (match xud_step(m, old(pending)@, b) {
            Step::Next { m: m2, p, out } => {
                &&& r is None
                &&& m2 == m
                &&& final(pending)@ == p
                &&& final(output)@ == old(output)@ + out
            },
            Step::Fail { plen, eat } => {
                &&& r matches Some(f) && f.plen == plen && f.eat == eat
                &&& final(pending)@ == old(pending)@
                &&& final(output)@ == old(output)@
            },
        }),
{
    proof {
        reveal(xud_step);
    }
    pending.clear();
    if b <= 0x7F {
        output.push(scalar_to_char(b as u32));
    } else {
        output.push(scalar_to_char(0xF780 + (b as u32 - 0x80)));
    }
    None
}

/// The code point a single-byte encoding assigns to a high byte, if any.
///
/// The windows-874 and windows-1254 indices are carried by this crate
/// itself; the ISO-8859 indices are normative data reached through
/// [`lookup::whatwg_decode`].
pub open spec fn sb_forward(e: Encoding, b: u8) -> Option<char> {
    match e {
        Encoding::Windows874 => {
            let v = windows_874::spec_forward(b);
            if v == 0xFFFF {
                None
            } else {
                Some((v as u32) as char)
            }
        },
        Encoding::Windows1254 => {
            let v = windows_1254::spec_forward(b);
            if v == 0xFFFF {
                None
            } else {
                Some((v as u32) as char)
            }
        },
        Encoding::Iso88592 => (match lookup::whatwg_decode("iso-8859-2"@, seq![b]) {
            Some(s) => if s.len() == 1 {
                Some(s[0])
            } else {
                None
            },
            None => None,
        }),
        Encoding::Iso88597 => (match lookup::whatwg_decode("iso-8859-7"@, seq![b]) {
            Some(s) => if s.len() == 1 {
                Some(s[0])
            } else {
                None
            },
            None => None,
        }),
        _ => None,
    }
}

/// One byte of single-byte input: ASCII passes through, a high byte maps
/// through the encoding's index or is malformed by itself.
#[verifier::opaque]
pub open spec fn sb_step(e: Encoding, m: u8, p: Seq<u8>, b: u8) -> Step {
    if b <= 0x7F {
        Step::Next { m, p: Seq::empty(), out: seq![(b as u32) as char] }
    } else {
        match sb_forward(e, b) {
            Some(c) => Step::Next { m, p: Seq::empty(), out: seq![c] },
            None => Step::Fail { plen: 0, eat: true },
        }
    }
}

/// The code point a single-byte encoding assigns to a high byte, if any.
fn sb_forward_exec(e: Encoding, b: u8) -> (r: Option<char>)
    requires
        b >= 0x80,
    ensures
        r == sb_forward(e, b),
{
    match e {
        Encoding::Windows874 => {
            let v = windows_874::forward(b);
            if v == 0xFFFF {
                None
            } else {
                Some(scalar_to_char(v as u32))
            }
        },
        Encoding::Windows1254 => {
            let v = windows_1254::forward(b);
            if v == 0xFFFF {
                None
            } else {
                Some(scalar_to_char(v as u32))
            }
        },
        Encoding::Iso88592 => sb_oracle_one("iso-8859-2", b),
        Encoding::Iso88597 => sb_oracle_one("iso-8859-7", b),
        _ => None,
    }
}

/// One byte through [`lookup::oracle_decode`], kept only when it yields a
/// single character.
fn sb_oracle_one(label: &str, b: u8) -> (r: Option<char>)
    ensures
        r == (match lookup::whatwg_decode(label@, seq![b]) {
            Some(s) => if s.len() == 1 {
                Some(s[0])
            } else {
                None::<char>
            },
            None => None::<char>,
        }),
{
    let mut bytes: Vec<u8> = Vec::new();
    bytes.push(b);
    proof {
        assert(bytes@ =~= seq![b]);
    }
    match lookup::oracle_decode(label, bytes.as_slice()) {
        Some(chars) => {
            if chars.len() == 1 {
                Some(chars[0])
            } else {
                None
            }
        },
        None => None,
    }
}

/// Runs [`sb_step`] on the live state.
pub(crate) fn sb_step_exec(e: Encoding, m: u8, pending: &mut Vec<u8>, b: u8, output: &mut Vec<
    char,
>) -> (r: Option<FailInfo>)
    ensures
        (match sb_step(e, m, old(pending)@, b) {
            Step::Next { m: m2, p, out } => {
                &&& r is None
                &&& m2 == m
                &&& final(pending)@ == p
                &&& final(output)@ == old(output)@ + out
            },
            Step::Fail { plen, eat } => {
                &&& r matches Some(f) && f.plen == plen && f.eat == eat
                &&& final(pending)@ == old(pending)@
                &&& final(output)@ == old(output)@
            },
        }),
{
    proof {
        reveal(sb_step);
    }
    if b <= 0x7F {
        pending.clear();
        output.push(scalar_to_char(b as u32));
        None
    } else {
        match sb_forward_exec(e, b) {
            Some(c) => {
                pending.clear();
                output.push(c);
                None
            },
            None => Some(FailInfo { plen: 0, eat: true }),
        }
    }
}

/// One character of ASCII encoder input.
#[verifier::opaque]
pub open spec fn ascii_enc_step(m: u8, c: char) -> crate::raw::EStep {
    if (c as u32) < 0x80 {
        crate::raw::EStep::Put { m, out: seq![(c as u32) as u8] }
    } else {
        crate::raw::EStep::Unmap
    }
}

/// Runs [`ascii_enc_step`] on the live state.
pub(crate) fn ascii_enc_exec(m: u8, c: char, output: &mut Vec<u8>) -> (r: (u8, bool))
    ensures
        (match ascii_enc_step(m, c) {
            crate::raw::EStep::Put { m: m2, out } => {
                &&& r.1 == true
                &&& r.0 == m2
                &&& final(output)@ == old(output)@ + out
            },
            crate::raw::EStep::Unmap => {
                &&& r.1 == false
                &&& r.0 == m
                &&& final(output)@ == old(output)@
            },
        }),
{
    proof {
        reveal(ascii_enc_step);
    }
    let u = c as u32;
    if u < 0x80 {
        output.push(u as u8);
        (m, true)
    } else {
        (m, false)
    }
}

/// One character of x-user-defined encoder input: ASCII, or a private-use
/// character carrying one high byte.
#[verifier::opaque]
pub open spec fn xud_enc_step(m: u8, c: char) -> crate::raw::EStep {
    let u = c as u32;
    if u < 0x80 {
        crate::raw::EStep::Put { m, out: seq![u as u8] }
    } else if 0xF780 <= u <= 0xF7FF {
        crate::raw::EStep::Put { m, out: seq![((u - 0xF780 + 0x80) as u8)] }
    } else {
        crate::raw::EStep::Unmap
    }
}

/// Runs [`xud_enc_step`] on the live state.
pub(crate) fn xud_enc_exec(m: u8, c: char, output: &mut Vec<u8>) -> (r: (u8, bool))
    ensures
        (match xud_enc_step(m, c) {
            crate::raw::EStep::Put { m: m2, out } => {
                &&& r.1 == true
                &&& r.0 == m2
                &&& final(output)@ == old(output)@ + out
            },
            crate::raw::EStep::Unmap => {
                &&& r.1 == false
                &&& r.0 == m
                &&& final(output)@ == old(output)@
            },
        }),
{
    proof {
        reveal(xud_enc_step);
    }
    let u = c as u32;
    if u < 0x80 {
        output.push(u as u8);
        (m, true)
    } else if 0xF780 <= u && u <= 0xF7FF {
        output.push((u - 0xF780 + 0x80) as u8);
        (m, true)
    } else {
        (m, false)
    }
}

/// The byte a table-carrying single-byte encoding assigns to a character,
/// or 0 where it assigns none.
pub open spec fn sb_backward(e: Encoding, c: char) -> u8 {
    match e {
        Encoding::Windows874 => windows_874::spec_backward(c as u32),
        Encoding::Windows1254 => windows_1254::spec_backward(c as u32),
        _ => 0,
    }
}

/// One character of single-byte encoder input for the table-carrying
/// encodings.
#[verifier::opaque]
pub open spec fn sb_enc_step(e: Encoding, m: u8, c: char) -> crate::raw::EStep {
    if (c as u32) < 0x80 {
        crate::raw::EStep::Put { m, out: seq![(c as u32) as u8] }
    } else {
        let b = sb_backward(e, c);
        if b == 0 {
            crate::raw::EStep::Unmap
        } else {
            crate::raw::EStep::Put { m, out: seq![b] }
        }
    }
}

/// Runs [`sb_enc_step`] on the live state.
pub(crate) fn sb_enc_exec(e: Encoding, m: u8, c: char, output: &mut Vec<u8>) -> (r: (u8, bool))
    ensures
        (match sb_enc_step(e, m, c) {
            crate::raw::EStep::Put { m: m2, out } => {
                &&& r.1 == true
                &&& r.0 == m2
                &&& final(output)@ == old(output)@ + out
            },
            crate::raw::EStep::Unmap => {
                &&& r.1 == false
                &&& r.0 == m
                &&& final(output)@ == old(output)@
            },
        }),
{
    proof {
        reveal(sb_enc_step);
    }
    let u = c as u32;
    if u < 0x80 {
        output.push(u as u8);
        (m, true)
    } else {
        let b: u8 = match e {
            Encoding::Windows874 => windows_874::backward(u),
            Encoding::Windows1254 => windows_1254::backward(u),
            _ => 0,
        };
        if b == 0 {
            (m, false)
        } else {
            output.push(b);
            (m, true)
        }
    }
}

} // verus!
