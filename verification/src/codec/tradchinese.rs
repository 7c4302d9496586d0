//! Big5 as used on the web, including the Hong Kong supplementary
//! additions; some index entries decode to two characters.

use vstd::prelude::*;

use crate::codec::lookup;
use crate::raw::FailInfo;
use crate::raw::Step;
use crate::util::scalar_to_char;

verus! {

/// One byte of Big5 input.
///
/// Leads are 0x81..0xFE; trails are 0x40..0x7E and 0xA1..0xFE.  Unlike the
/// GBK family, Big5 consumes an invalid high trail as part of the erroneous
/// span even though that byte could have started a fresh lead; an invalid
/// ASCII-valued trail is left unconsumed.
#[verifier::opaque]
pub open spec fn big5_step(m: u8, p: Seq<u8>, b: u8) -> Step {
    if p.len() == 0 {
        if b <= 0x7F {
            Step::Next { m, p: Seq::empty(), out: seq![(b as u32) as char] }
        } else if 0x81 <= b <= 0xFE {
            Step::Next { m, p: seq![b], out: Seq::empty() }
        } else {
            Step::Fail { plen: 0, eat: true }
        }
    } else {
        let l = p[0];
        if 0x40 <= b <= 0x7E || 0xA1 <= b <= 0xFE {
            match lookup::whatwg_decode("big5"@, seq![l, b]) {
                Some(s) => Step::Next { m, p: Seq::empty(), out: s },
                None => Step::Fail { plen: 1, eat: b >= 0x80 },
            }
        } else {
            Step::Fail { plen: 1, eat: b >= 0x80 }
        }
    }
}

/// Runs [`big5_step`] on the live state.
pub(crate) fn big5_step_exec(m: u8, pending: &mut Vec<u8>, b: u8, output: &mut Vec<char>) -> (r:
    Option<FailInfo>)
    ensures
        (match big5_step(m, old(pending)@, b) {
            Step::Next { m: m2, p, out } => {
                &&& r is None
                &&& m2 == m
                &&& final(pending)@ == p
                &&& final(output)@ == old(output)@ + out
            },
            Step::Fail { plen, eat } => {
                &&& r matches Some(f) && f.plen == plen && f.eat == eat
                &&& final(pending)@ == old(pending)@
                &&& final(output)@ == old(output)@
            },
        }),
{
    proof {
        reveal(big5_step);
    }
    let n = pending.len();
    if n == 0 {
        if b <= 0x7F {
            output.push(scalar_to_char(b as u32));
            None
        } else if 0x81 <= b && b <= 0xFE {
            pending.push(b);
            None
        } else {
            Some(FailInfo { plen: 0, eat: true })
        }
    } else {
        let l = pending[0];
        if (0x40 <= b && b <= 0x7E) || (0xA1 <= b && b <= 0xFE) {
            match lookup::decode2("big5", l, b) {
                Some(mut chars) => {
                    pending.clear();
                    output.append(&mut chars);
                    None
                },
                None => Some(FailInfo { plen: 1, eat: b >= 0x80 }),
            }
        } else {
            Some(FailInfo { plen: 1, eat: b >= 0x80 })
        }
    }
}

} // verus!
