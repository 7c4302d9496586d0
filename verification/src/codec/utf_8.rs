//! UTF-8: pure arithmetic on lead and continuation bytes, rejecting
//! overlong forms, surrogates and out-of-range sequences at the earliest
//! byte that proves them invalid.

use vstd::prelude::*;

use crate::raw::FailInfo;
use crate::raw::Step;
use crate::util::scalar_to_char;

verus! {

/// A continuation byte.
pub open spec fn is_cont(b: u8) -> bool {
    0x80 <= b <= 0xBF
}

/// Whether `b` may follow the lead byte directly: the second byte carries
/// the overlong, surrogate and upper-bound checks.
pub open spec fn second_ok(lead: u8, b: u8) -> bool {
    if lead == 0xE0 {
        0xA0 <= b <= 0xBF
    } else if lead == 0xED {
        0x80 <= b <= 0x9F
    } else if lead == 0xF0 {
        0x90 <= b <= 0xBF
    } else if lead == 0xF4 {
        0x80 <= b <= 0x8F
    } else {
        is_cont(b)
    }
}

/// The code point of a two-byte sequence.
pub open spec fn cp2(l: u8, b: u8) -> u32 {
    ((l - 0xC0) * 0x40 + (b - 0x80)) as u32
}

/// The code point of a three-byte sequence.
pub open spec fn cp3(l: u8, c1: u8, b: u8) -> u32 {
    ((l - 0xE0) * 0x1000 + (c1 - 0x80) * 0x40 + (b - 0x80)) as u32
}

/// The code point of a four-byte sequence.
pub open spec fn cp4(l: u8, c1: u8, c2: u8, b: u8) -> u32 {
    ((l - 0xF0) * 0x40000 + (c1 - 0x80) * 0x1000 + (c2 - 0x80) * 0x40 + (b - 0x80)) as u32
}

/// One byte of UTF-8 input.
#[verifier::opaque]
pub open spec fn utf8_step(m: u8, p: Seq<u8>, b: u8) -> Step {
    if p.len() == 0 {
        if b <= 0x7F {
            Step::Next { m, p: Seq::empty(), out: seq![(b as u32) as char] }
        } else if 0xC2 <= b <= 0xF4 {
            Step::Next { m, p: seq![b], out: Seq::empty() }
        } else {
            Step::Fail { plen: 0, eat: true }
        }
    } else {
        let l = p[0];
        if p.len() == 1 {
            if 0xC2 <= l <= 0xDF && second_ok(l, b) {
                Step::Next { m, p: Seq::empty(), out: seq![cp2(l, b) as char] }
            } else if 0xE0 <= l <= 0xF4 && second_ok(l, b) {
                Step::Next { m, p: seq![l, b], out: Seq::empty() }
            } else {
                Step::Fail { plen: 1, eat: false }
            }
        } else if p.len() == 2 {
            if 0xE0 <= l <= 0xEF && second_ok(l, p[1]) && is_cont(b) {
                Step::Next { m, p: Seq::empty(), out: seq![cp3(l, p[1], b) as char] }
            } else if 0xF0 <= l <= 0xF4 && second_ok(l, p[1]) && is_cont(b) {
                Step::Next { m, p: seq![l, p[1], b], out: Seq::empty() }
            } else {
                Step::Fail { plen: 2, eat: false }
            }
        } else {
            if 0xF0 <= l <= 0xF4 && second_ok(l, p[1]) && is_cont(p[2]) && is_cont(b) {
                Step::Next { m, p: Seq::empty(), out: seq![cp4(l, p[1], p[2], b) as char] }
            } else {
                Step::Fail { plen: 3, eat: false }
            }
        }
    }
}

/// Runs [`utf8_step`] on the live state.
pub(crate) fn utf8_step_exec(m: u8, pending: &mut Vec<u8>, b: u8, output: &mut Vec<char>) -> (r:
    Option<FailInfo>)
    ensures
        (match utf8_step(m, old(pending)@, b) {
            Step::Next { m: m2, p, out } => {
                &&& r is None
                &&& m2 == m
                &&& final(pending)@ == p
                &&& final(output)@ == old(output)@ + out
            },
            Step::Fail { plen, eat } => {
                &&& r matches Some(f) && f.plen == plen && f.eat == eat
                &&& final(pending)@ == old(pending)@
                &&& final(output)@ == old(output)@
            },
        }),
{
    proof {
        reveal(utf8_step);
    }
    let n = pending.len();
    if n == 0 {
        if b <= 0x7F {
            output.push(scalar_to_char(b as u32));
            None
        } else if 0xC2 <= b && b <= 0xF4 {
            pending.push(b);
            None
        } else {
            Some(FailInfo { plen: 0, eat: true })
        }
    } else {
        let l = pending[0];
        if n == 1 {
            if 0xC2 <= l && l <= 0xDF && second_ok_exec(l, b) {
                let cp: u32 = (l as u32 - 0xC0) * 0x40 + (b as u32 - 0x80);
                pending.clear();
                output.push(scalar_to_char(cp));
                None
            } else if 0xE0 <= l && l <= 0xF4 && second_ok_exec(l, b) {
                pending.push(b);
                None
            } else {
                Some(FailInfo { plen: 1, eat: false })
            }
        } else if n == 2 {
            let c1 = pending[1];
            if 0xE0 <= l && l <= 0xEF && second_ok_exec(l, c1) && 0x80 <= b && b <= 0xBF {
                let cp: u32 = (l as u32 - 0xE0) * 0x1000 + (c1 as u32 - 0x80) * 0x40 + (b as u32
                    - 0x80);
                pending.clear();
                output.push(scalar_to_char(cp));
                None
            } else if 0xF0 <= l && l <= 0xF4 && second_ok_exec(l, c1) && 0x80 <= b && b <= 0xBF {
                pending.push(b);
                None
            } else {
                Some(FailInfo { plen: 2, eat: false })
            }
        } else {
            let c1 = pending[1];
            let c2 = pending[2];
            if 0xF0 <= l && l <= 0xF4 && second_ok_exec(l, c1) && 0x80 <= c2 && c2 <= 0xBF && 0x80
                <= b && b <= 0xBF {
                let cp: u32 = (l as u32 - 0xF0) * 0x40000 + (c1 as u32 - 0x80) * 0x1000 + (c2
                    as u32 - 0x80) * 0x40 + (b as u32 - 0x80);
                pending.clear();
                output.push(scalar_to_char(cp));
                None
            } else {
                Some(FailInfo { plen: 3, eat: false })
            }
        }
    }
}

/// Whether `b` may follow the lead byte directly.
fn second_ok_exec(lead: u8, b: u8) -> (r: bool)
    ensures
        r == second_ok(lead, b),
{
    if lead == 0xE0 {
        0xA0 <= b && b <= 0xBF
    } else if lead == 0xED {
        0x80 <= b && b <= 0x9F
    } else if lead == 0xF0 {
        0x90 <= b && b <= 0xBF
    } else if lead == 0xF4 {
        0x80 <= b && b <= 0x8F
    } else {
        0x80 <= b && b <= 0xBF
    }
}

/// The UTF-8 bytes of one scalar value.
pub open spec fn utf8_bytes(u: u32) -> Seq<u8> {
    if u < 0x80 {
        seq![u as u8]
    } else if u < 0x800 {
        seq![(0xC0 + u / 0x40) as u8, (0x80 + u % 0x40) as u8]
    } else if u < 0x10000 {
        seq![
            (0xE0 + u / 0x1000) as u8,
            (0x80 + (u / 0x40) % 0x40) as u8,
            (0x80 + u % 0x40) as u8,
        ]
    } else {
        seq![
            (0xF0 + u / 0x40000) as u8,
            (0x80 + (u / 0x1000) % 0x40) as u8,
            (0x80 + (u / 0x40) % 0x40) as u8,
            (0x80 + u % 0x40) as u8,
        ]
    }
}

/// One character of UTF-8 encoder input; encoding never fails.
#[verifier::opaque]
pub open spec fn utf8_enc_step(m: u8, c: char) -> crate::raw::EStep {
    crate::raw::EStep::Put { m, out: utf8_bytes(c as u32) }
}

/// Runs [`utf8_enc_step`] on the live state.
pub(crate) fn utf8_enc_exec(m: u8, c: char, output: &mut Vec<u8>) -> (r: (u8, bool))
    ensures
        (match utf8_enc_step(m, c) {
            crate::raw::EStep::Put { m: m2, out } => {
                &&& r.1 == true
                &&& r.0 == m2
                &&& final(output)@ == old(output)@ + out
            },
            crate::raw::EStep::Unmap => {
                &&& r.1 == false
                &&& r.0 == m
                &&& final(output)@ == old(output)@
            },
        }),
{
    proof {
        reveal(utf8_enc_step);
    }
    let u = c as u32;
    if u < 0x80 {
        output.push(u as u8);
    } else if u < 0x800 {
        output.push((0xC0 + u / 0x40) as u8);
        output.push((0x80 + u % 0x40) as u8);
    } else if u < 0x10000 {
        output.push((0xE0 + u / 0x1000) as u8);
        output.push((0x80 + (u / 0x40) % 0x40) as u8);
        output.push((0x80 + u % 0x40) as u8);
    } else {
        output.push((0xF0 + u / 0x40000) as u8);
        output.push((0x80 + (u / 0x1000) % 0x40) as u8);
        output.push((0x80 + (u / 0x40) % 0x40) as u8);
        output.push((0x80 + u % 0x40) as u8);
    }
    proof {
        assert(output@ =~= old(output)@ + utf8_bytes(c as u32));
    }
    (m, true)
}

} // verus!
