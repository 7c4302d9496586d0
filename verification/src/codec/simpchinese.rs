//! GBK and GB18030, which share one decoder: two-byte index entries plus
//! the four-byte linear form of GB18030.

use vstd::prelude::*;

use crate::codec::lookup;
use crate::raw::FailInfo;
use crate::raw::Step;
use crate::util::scalar_to_char;

verus! {

/// The pointer of a four-byte GB18030 sequence.
pub open spec fn gb_pointer(b1: u8, b2: u8, b3: u8, b4: u8) -> int {
    (b1 - 0x81) * 12600 + (b2 - 0x30) * 1260 + (b3 - 0x81) * 10 + (b4 - 0x30)
}

/// One byte of GBK or GB18030 input (the decoders coincide).
///
/// 0x80 decodes to the euro sign; leads are 0x81..0xFE.  A second byte in
/// 0x30..0x39 opens the four-byte form, whose pointer maps linearly onto
/// the supplementary planes and through the ranges index below 39420.  An
/// invalid trail is never consumed with the lead: everything after the lead
/// is handed back, so a malformed four-byte form reaches back two bytes
/// when its prefix was fed earlier.
#[verifier::opaque]
pub open spec fn gb_step(m: u8, p: Seq<u8>, b: u8) -> Step {
    if p.len() == 0 {
        if b <= 0x7F {
            Step::Next { m, p: Seq::empty(), out: seq![(b as u32) as char] }
        } else if b == 0x80 {
            Step::Next { m, p: Seq::empty(), out: seq![(0x20AC as u32) as char] }
        } else if 0x81 <= b <= 0xFE {
            Step::Next { m, p: seq![b], out: Seq::empty() }
        } else {
            Step::Fail { plen: 0, eat: true }
        }
    } else if p.len() == 1 {
        let l = p[0];
        if 0x30 <= b <= 0x39 {
            Step::Next { m, p: seq![l, b], out: Seq::empty() }
        } else if 0x40 <= b <= 0x7E || 0x80 <= b <= 0xFE {
            match lookup::whatwg_decode("gb18030"@, seq![l, b]) {
                Some(s) => Step::Next { m, p: Seq::empty(), out: s },
                None => Step::Fail { plen: 1, eat: b >= 0x80 },
            }
        } else {
            Step::Fail { plen: 1, eat: false }
        }
    } else if p.len() == 2 {
        if 0x81 <= b <= 0xFE {
            Step::Next { m, p: seq![p[0], p[1], b], out: Seq::empty() }
        } else {
            Step::Fail { plen: 1, eat: false }
        }
    } else {
        if 0x81 <= p[0] <= 0xFE && 0x30 <= p[1] <= 0x39 && 0x81 <= p[2] <= 0xFE && 0x30 <= b
            <= 0x39 {
            let ptr = gb_pointer(p[0], p[1], p[2], b);
            if 189000 <= ptr <= 1237575 {
                Step::Next {
                    m,
                    p: Seq::empty(),
                    out: seq![((0x10000 + ptr - 189000) as u32) as char],
                }
            } else if ptr <= 39419 {
                match lookup::whatwg_decode("gb18030"@, seq![p[0], p[1], p[2], b]) {
                    Some(s) => Step::Next { m, p: Seq::empty(), out: s },
                    None => Step::Fail { plen: 1, eat: false },
                }
            } else {
                Step::Fail { plen: 1, eat: false }
            }
        } else {
            Step::Fail { plen: 1, eat: false }
        }
    }
}

/// Runs [`gb_step`] on the live state.
pub(crate) fn gb_step_exec(m: u8, pending: &mut Vec<u8>, b: u8, output: &mut Vec<char>) -> (r:
    Option<FailInfo>)
    ensures
        (match gb_step(m, old(pending)@, b) {
            Step::Next { m: m2, p, out } => {
                &&& r is None
                &&& m2 == m
                &&& final(pending)@ == p
                &&& final(output)@ == old(output)@ + out
            },
            Step::Fail { plen, eat } => {
                &&& r matches Some(f) && f.plen == plen && f.eat == eat
                &&& final(pending)@ == old(pending)@
                &&& final(output)@ == old(output)@
            },
        }),
{
    proof {
        reveal(gb_step);
    }
    let n = pending.len();
    if n == 0 {
        if b <= 0x7F {
            output.push(scalar_to_char(b as u32));
            None
        } else if b == 0x80 {
            output.push(scalar_to_char(0x20AC));
            None
        } else if 0x81 <= b && b <= 0xFE {
            pending.push(b);
            None
        } else {
            Some(FailInfo { plen: 0, eat: true })
        }
    } else if n == 1 {
        let l = pending[0];
        if 0x30 <= b && b <= 0x39 {
            pending.push(b);
            None
        } else if (0x40 <= b && b <= 0x7E) || (0x80 <= b && b <= 0xFE) {
            match lookup::decode2("gb18030", l, b) {
                Some(mut chars) => {
                    pending.clear();
                    output.append(&mut chars);
                    None
                },
                None => Some(FailInfo { plen: 1, eat: b >= 0x80 }),
            }
        } else {
            Some(FailInfo { plen: 1, eat: false })
        }
    } else if n == 2 {
        if 0x81 <= b && b <= 0xFE {
            pending.push(b);
            None
        } else {
            Some(FailInfo { plen: 1, eat: false })
        }
    } else {
        let b1 = pending[0];
        let b2 = pending[1];
        let b3 = pending[2];
        if 0x81 <= b1 && b1 <= 0xFE && 0x30 <= b2 && b2 <= 0x39 && 0x81 <= b3 && b3 <= 0xFE && 0x30
            <= b && b <= 0x39 {
            let ptr: u32 = (b1 as u32 - 0x81) * 12600 + (b2 as u32 - 0x30) * 1260 + (b3 as u32
                - 0x81) * 10 + (b as u32 - 0x30);
            if 189000 <= ptr && ptr <= 1237575 {
                pending.clear();
                output.push(scalar_to_char(0x10000 + ptr - 189000));
                None
            } else if ptr <= 39419 {
                match lookup::decode4("gb18030", b1, b2, b3, b) {
                    Some(mut chars) => {
                        pending.clear();
                        output.append(&mut chars);
                        None
                    },
                    None => Some(FailInfo { plen: 1, eat: false }),
                }
            } else {
                Some(FailInfo { plen: 1, eat: false })
            }
        } else {
            Some(FailInfo { plen: 1, eat: false })
        }
    }
}

/// The four bytes of a GB18030 pointer.
pub open spec fn gb_four_bytes(ptr: int) -> Seq<u8> {
    seq![
        (ptr / 12600 + 0x81) as u8,
        ((ptr / 1260) % 10 + 0x30) as u8,
        ((ptr / 10) % 126 + 0x81) as u8,
        (ptr % 10 + 0x30) as u8,
    ]
}

/// One character of GB18030 encoder input: ASCII passes through, a
/// supplementary-plane character takes the linear four-byte form, and the
/// basic plane goes through the index.  Only the euro sign's duplicate
/// index entry makes the index differ from GBK's.
#[verifier::opaque]
pub open spec fn gb18030_enc_step(m: u8, c: char) -> crate::raw::EStep {
    let u = c as u32;
    if u < 0x80 {
        crate::raw::EStep::Put { m, out: seq![u as u8] }
    } else if u >= 0x10000 {
        crate::raw::EStep::Put { m, out: gb_four_bytes(u - 0x10000 + 189000) }
    } else {
        match lookup::whatwg_encode("gb18030"@, c) {
            Some(bs) => crate::raw::EStep::Put { m, out: bs },
            None => crate::raw::EStep::Unmap,
        }
    }
}

/// Runs [`gb18030_enc_step`] on the live state.
pub(crate) fn gb18030_enc_exec(m: u8, c: char, output: &mut Vec<u8>) -> (r: (u8, bool))
    ensures
        (match gb18030_enc_step(m, c) {
            crate::raw::EStep::Put { m: m2, out } => {
                &&& r.1 == true
                &&& r.0 == m2
                &&& final(output)@ == old(output)@ + out
            },
            crate::raw::EStep::Unmap => {
                &&& r.1 == false
                &&& r.0 == m
                &&& final(output)@ == old(output)@
            },
        }),
{
    proof {
        reveal(gb18030_enc_step);
    }
    let u = c as u32;
    if u < 0x80 {
        output.push(u as u8);
        (m, true)
    } else if u >= 0x10000 {
        let ptr: u32 = u - 0x10000 + 189000;
        output.push((ptr / 12600 + 0x81) as u8);
        output.push(((ptr / 1260) % 10 + 0x30) as u8);
        output.push(((ptr / 10) % 126 + 0x81) as u8);
        output.push((ptr % 10 + 0x30) as u8);
        proof {
            assert(output@ =~= old(output)@ + gb_four_bytes(u - 0x10000 + 189000));
        }
        (m, true)
    } else {
        match lookup::oracle_encode("gb18030", c) {
            Some(mut bytes) => {
                output.append(&mut bytes);
                (m, true)
            },
            None => (m, false),
        }
    }
}

} // verus!
