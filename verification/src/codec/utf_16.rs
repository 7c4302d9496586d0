//! UTF-16 in either byte order: 16-bit units assembled from byte pairs, and
//! surrogate pairs assembled from units.

use vstd::prelude::*;

use crate::raw::FailInfo;
use crate::raw::Step;
use crate::util::scalar_to_char;

verus! {

/// The 16-bit unit formed by two bytes in the given byte order.
pub open spec fn unit_val(be: bool, b1: u8, b2: u8) -> u32 {
    if be {
        (b1 * 0x100 + b2) as u32
    } else {
        (b2 * 0x100 + b1) as u32
    }
}

/// A high (leading) surrogate unit.
pub open spec fn is_hi_surrogate(u: u32) -> bool {
    0xD800 <= u <= 0xDBFF
}

/// A low (trailing) surrogate unit.
pub open spec fn is_lo_surrogate(u: u32) -> bool {
    0xDC00 <= u <= 0xDFFF
}

/// The code point encoded by a surrogate pair.
pub open spec fn combine_surrogates(hi: u32, lo: u32) -> u32 {
    (0x10000 + (hi - 0xD800) * 0x400 + (lo - 0xDC00)) as u32
}

/// One byte of UTF-16 input.
///
/// The pending buffer holds one byte of an unfinished unit, a complete high
/// surrogate unit, or a high surrogate unit and one more byte.  A lone low
/// surrogate fails as soon as its unit is complete; a lone high surrogate
/// fails once the following unit is complete and is not a low surrogate,
/// leaving that following unit unconsumed.
#[verifier::opaque]
pub open spec fn utf16_step(be: bool, m: u8, p: Seq<u8>, b: u8) -> Step {
    if p.len() == 0 {
        Step::Next { m, p: seq![b], out: Seq::empty() }
    } else if p.len() == 1 {
        let u = unit_val(be, p[0], b);
        if is_lo_surrogate(u) {
            Step::Fail { plen: 1, eat: true }
        } else if is_hi_surrogate(u) {
            Step::Next { m, p: seq![p[0], b], out: Seq::empty() }
        } else {
            Step::Next { m, p: Seq::empty(), out: seq![u as char] }
        }
    } else if p.len() == 2 {
        Step::Next { m, p: seq![p[0], p[1], b], out: Seq::empty() }
    } else {
        let hi = unit_val(be, p[0], p[1]);
        let lo = unit_val(be, p[2], b);
        if is_hi_surrogate(hi) && is_lo_surrogate(lo) {
            Step::Next { m, p: Seq::empty(), out: seq![combine_surrogates(hi, lo) as char] }
        } else {
            Step::Fail { plen: 2, eat: false }
        }
    }
}

/// The 16-bit unit formed by two bytes in the given byte order.
pub(crate) fn unit_exec(be: bool, b1: u8, b2: u8) -> (u: u32)
    ensures
        u == unit_val(be, b1, b2),
{
    if be {
        (b1 as u32) * 0x100 + (b2 as u32)
    } else {
        (b2 as u32) * 0x100 + (b1 as u32)
    }
}

/// Runs [`utf16_step`] on the live state.
pub(crate) fn utf16_step_exec(be: bool, m: u8, pending: &mut Vec<u8>, b: u8, output: &mut Vec<
    char,
>) -> (r: Option<FailInfo>)
    ensures
        (match utf16_step(be, m, old(pending)@, b) {
            Step::Next { m: m2, p, out } => {
                &&& r is None
                &&& m2 == m
                &&& final(pending)@ == p
                &&& final(output)@ == old(output)@ + out
            },
            Step::Fail { plen, eat } => {
                &&& r matches Some(f) && f.plen == plen && f.eat == eat
                &&& final(pending)@ == old(pending)@
                &&& final(output)@ == old(output)@
            },
        }),
{
    proof {
        reveal(utf16_step);
    }
    let n = pending.len();
    if n == 0 {
        pending.push(b);
        None
    } else if n == 1 {
        let u = unit_exec(be, pending[0], b);
        if 0xDC00 <= u && u <= 0xDFFF {
            Some(FailInfo { plen: 1, eat: true })
        } else if 0xD800 <= u && u <= 0xDBFF {
            pending.push(b);
            None
        } else {
            pending.clear();
            output.push(scalar_to_char(u));
            None
        }
    } else if n == 2 {
        pending.push(b);
        None
    } else {
        let hi = unit_exec(be, pending[0], pending[1]);
        let lo = unit_exec(be, pending[2], b);
        if 0xD800 <= hi && hi <= 0xDBFF && 0xDC00 <= lo && lo <= 0xDFFF {
            let cp: u32 = 0x10000 + (hi - 0xD800) * 0x400 + (lo - 0xDC00);
            pending.clear();
            output.push(scalar_to_char(cp));
            None
        } else {
            Some(FailInfo { plen: 2, eat: false })
        }
    }
}

/// The two bytes of one 16-bit unit in the given byte order.
pub open spec fn unit_bytes(be: bool, u: u32) -> Seq<u8> {
    if be {
        seq![(u / 0x100) as u8, (u % 0x100) as u8]
    } else {
        seq![(u % 0x100) as u8, (u / 0x100) as u8]
    }
}

/// One character of UTF-16 encoder input: a basic-plane character becomes
/// one unit, a supplementary character a surrogate pair.  Encoding never
/// fails, since characters are scalar values by construction.
#[verifier::opaque]
pub open spec fn utf16_enc_step(be: bool, m: u8, c: char) -> crate::raw::EStep {
    let u = c as u32;
    if u < 0x10000 {
        crate::raw::EStep::Put { m, out: unit_bytes(be, u) }
    } else {
        crate::raw::EStep::Put {
            m,
            out: unit_bytes(be, (0xD800 + (u - 0x10000) / 0x400) as u32) + unit_bytes(
                be,
                (0xDC00 + (u - 0x10000) % 0x400) as u32,
            ),
        }
    }
}

/// Runs [`utf16_enc_step`] on the live state.
pub(crate) fn utf16_enc_exec(be: bool, m: u8, c: char, output: &mut Vec<u8>) -> (r: (u8, bool))
    ensures
        (match utf16_enc_step(be, m, c) {
            crate::raw::EStep::Put { m: m2, out } => {
                &&& r.1 == true
                &&& r.0 == m2
                &&& final(output)@ == old(output)@ + out
            },
            crate::raw::EStep::Unmap => {
                &&& r.1 == false
                &&& r.0 == m
                &&& final(output)@ == old(output)@
            },
        }),
{
    proof {
        reveal(utf16_enc_step);
    }
    let u = c as u32;
    if u < 0x10000 {
        push_unit(be, u, output);
    } else {
        let v = u - 0x10000;
        push_unit(be, 0xD800 + v / 0x400, output);
        push_unit(be, 0xDC00 + v % 0x400, output);
        proof {
            assert(output@ =~= old(output)@ + (unit_bytes(
                be,
                (0xD800 + (u - 0x10000) / 0x400) as u32,
            ) + unit_bytes(be, (0xDC00 + (u - 0x10000) % 0x400) as u32)));
        }
    }
    (m, true)
}

/// Appends one 16-bit unit in the given byte order.
fn push_unit(be: bool, u: u32, output: &mut Vec<u8>)
    requires
        u < 0x10000,
    ensures
        final(output)@ == old(output)@ + unit_bytes(be, u),
{
    if be {
        output.push((u / 0x100) as u8);
        output.push((u % 0x100) as u8);
    } else {
        output.push((u % 0x100) as u8);
        output.push((u / 0x100) as u8);
    }
    proof {
        assert(output@ =~= old(output)@ + unit_bytes(be, u));
    }
}

} // verus!
