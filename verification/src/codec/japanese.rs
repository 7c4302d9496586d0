//! The legacy Japanese encodings: EUC-JP, Windows-31J (Shift_JIS) and
//! ISO-2022-JP.
//!
//! Each machine owns the byte classification and the per-encoding rule for
//! which bytes an erroneous span consumes; the JIS X 0208 and 0212 indices
//! are reached through [`lookup`].

use vstd::prelude::*;

use crate::codec::lookup;
use crate::raw::FailInfo;
use crate::raw::Step;
use crate::util::scalar_to_char;

verus! {

/// One byte of EUC-JP input.
///
/// Leads are 0x8E (one katakana trail), 0x8F (two JIS X 0212 trails) and
/// 0xA1..0xFE (one JIS X 0208 trail).  An invalid trail below 0xA1 is left
/// unconsumed so that it can restart cleanly; a katakana trail in
/// 0xE0..0xFE is consumed as part of the erroneous span, while after a
/// JIS X 0208 lead an out-of-range trail is always left unconsumed.
#[verifier::opaque]
pub open spec fn eucjp_step(m: u8, p: Seq<u8>, b: u8) -> Step {
    if p.len() == 0 {
        if b <= 0x7F {
            Step::Next { m, p: Seq::empty(), out: seq![(b as u32) as char] }
        } else if b == 0x8E || b == 0x8F || 0xA1 <= b <= 0xFE {
            Step::Next { m, p: seq![b], out: Seq::empty() }
        } else {
            Step::Fail { plen: 0, eat: true }
        }
    } else if p.len() == 1 {
        let l = p[0];
        if l == 0x8E {
            if 0xA1 <= b <= 0xDF {
                Step::Next { m, p: Seq::empty(), out: seq![((0xFF61 + (b - 0xA1)) as u32) as char] }
            } else if 0xE0 <= b <= 0xFE {
                Step::Fail { plen: 1, eat: true }
            } else {
                Step::Fail { plen: 1, eat: false }
            }
        } else if l == 0x8F {
            if 0xA1 <= b <= 0xFE {
                Step::Next { m, p: seq![l, b], out: Seq::empty() }
            } else {
                Step::Fail { plen: 1, eat: false }
            }
        } else if 0xA1 <= l <= 0xFE {
            if 0xA1 <= b <= 0xFE {
                match lookup::whatwg_decode("euc-jp"@, seq![l, b]) {
                    Some(s) => Step::Next { m, p: Seq::empty(), out: s },
                    None => Step::Fail { plen: 1, eat: true },
                }
            } else {
                Step::Fail { plen: 1, eat: false }
            }
        } else {
            Step::Fail { plen: 1, eat: false }
        }
    } else {
        if 0xA1 <= b <= 0xFE {
            match lookup::whatwg_decode("euc-jp"@, seq![0x8Fu8, p[1], b]) {
                Some(s) => Step::Next { m, p: Seq::empty(), out: s },
                None => Step::Fail { plen: 2, eat: true },
            }
        } else {
            Step::Fail { plen: 2, eat: false }
        }
    }
}

/// Runs [`eucjp_step`] on the live state.
pub(crate) fn eucjp_step_exec(m: u8, pending: &mut Vec<u8>, b: u8, output: &mut Vec<char>) -> (r:
    Option<FailInfo>)
    ensures
        (match eucjp_step(m, old(pending)@, b) {
            Step::Next { m: m2, p, out } => {
                &&& r is None
                &&& m2 == m
                &&& final(pending)@ == p
                &&& final(output)@ == old(output)@ + out
            },
            Step::Fail { plen, eat } => {
                &&& r matches Some(f) && f.plen == plen && f.eat == eat
                &&& final(pending)@ == old(pending)@
                &&& final(output)@ == old(output)@
            },
        }),
{
    proof {
        reveal(eucjp_step);
    }
    let n = pending.len();
    if n == 0 {
        if b <= 0x7F {
            output.push(scalar_to_char(b as u32));
            None
        } else if b == 0x8E || b == 0x8F || (0xA1 <= b && b <= 0xFE) {
            pending.push(b);
            None
        } else {
            Some(FailInfo { plen: 0, eat: true })
        }
    } else if n == 1 {
        let l = pending[0];
        if l == 0x8E {
            if 0xA1 <= b && b <= 0xDF {
                pending.clear();
                output.push(scalar_to_char(0xFF61 + (b as u32 - 0xA1)));
                None
            } else if 0xE0 <= b && b <= 0xFE {
                Some(FailInfo { plen: 1, eat: true })
            } else {
                Some(FailInfo { plen: 1, eat: false })
            }
        } else if l == 0x8F {
            if 0xA1 <= b && b <= 0xFE {
                pending.push(b);
                None
            } else {
                Some(FailInfo { plen: 1, eat: false })
            }
        } else if 0xA1 <= l && l <= 0xFE {
            if 0xA1 <= b && b <= 0xFE {
                match lookup::decode2("euc-jp", l, b) {
                    Some(mut chars) => {
                        pending.clear();
                        output.append(&mut chars);
                        None
                    },
                    None => Some(FailInfo { plen: 1, eat: true }),
                }
            } else {
                Some(FailInfo { plen: 1, eat: false })
            }
        } else {
            Some(FailInfo { plen: 1, eat: false })
        }
    } else {
        if 0xA1 <= b && b <= 0xFE {
            let mid = pending[1];
            match lookup::decode3("euc-jp", 0x8F, mid, b) {
                Some(mut chars) => {
                    pending.clear();
                    output.append(&mut chars);
                    None
                },
                None => Some(FailInfo { plen: 2, eat: true }),
            }
        } else {
            Some(FailInfo { plen: 2, eat: false })
        }
    }
}

/// One byte of Windows-31J (Shift_JIS) input.
///
/// 0x80 passes through for compatibility, 0xA1..0xDF are half-width
/// katakana, leads are 0x81..0x9F and 0xE0..0xFC.  An invalid ASCII-valued
/// trail is left unconsumed; an invalid high trail is consumed with the
/// lead.
#[verifier::opaque]
pub open spec fn sjis_step(m: u8, p: Seq<u8>, b: u8) -> Step {
    if p.len() == 0 {
        if b <= 0x80 {
            Step::Next { m, p: Seq::empty(), out: seq![(b as u32) as char] }
        } else if 0xA1 <= b <= 0xDF {
            Step::Next { m, p: Seq::empty(), out: seq![((0xFF61 + (b - 0xA1)) as u32) as char] }
        } else if 0x81 <= b <= 0x9F || 0xE0 <= b <= 0xFC {
            Step::Next { m, p: seq![b], out: Seq::empty() }
        } else {
            Step::Fail { plen: 0, eat: true }
        }
    } else {
        let l = p[0];
        if 0x40 <= b <= 0x7E || 0x80 <= b <= 0xFC {
            match lookup::whatwg_decode("shift_jis"@, seq![l, b]) {
                Some(s) => Step::Next { m, p: Seq::empty(), out: s },
                None => Step::Fail { plen: 1, eat: b >= 0x80 },
            }
        } else {
            Step::Fail { plen: 1, eat: false }
        }
    }
}

/// Runs [`sjis_step`] on the live state.
pub(crate) fn sjis_step_exec(m: u8, pending: &mut Vec<u8>, b: u8, output: &mut Vec<char>) -> (r:
    Option<FailInfo>)
    ensures
        (match sjis_step(m, old(pending)@, b) {
            Step::Next { m: m2, p, out } => {
                &&& r is None
                &&& m2 == m
                &&& final(pending)@ == p
                &&& final(output)@ == old(output)@ + out
            },
            Step::Fail { plen, eat } => {
                &&& r matches Some(f) && f.plen == plen && f.eat == eat
                &&& final(pending)@ == old(pending)@
                &&& final(output)@ == old(output)@
            },
        }),
{
    proof {
        reveal(sjis_step);
    }
    let n = pending.len();
    if n == 0 {
        if b <= 0x80 {
            output.push(scalar_to_char(b as u32));
            None
        } else if 0xA1 <= b && b <= 0xDF {
            output.push(scalar_to_char(0xFF61 + (b as u32 - 0xA1)));
            None
        } else if (0x81 <= b && b <= 0x9F) || (0xE0 <= b && b <= 0xFC) {
            pending.push(b);
            None
        } else {
            Some(FailInfo { plen: 0, eat: true })
        }
    } else {
        let l = pending[0];
        if (0x40 <= b && b <= 0x7E) || (0x80 <= b && b <= 0xFC) {
            match lookup::decode2("shift_jis", l, b) {
                Some(mut chars) => {
                    pending.clear();
                    output.append(&mut chars);
                    None
                },
                None => Some(FailInfo { plen: 1, eat: b >= 0x80 }),
            }
        } else {
            Some(FailInfo { plen: 1, eat: false })
        }
    }
}

/// One byte of ISO-2022-JP input.
///
/// The shift modes are 0 for ASCII, 1 for JIS X 0208, 2 for JIS X 0201
/// katakana and 3 for JIS X 0212.
///
/// The pending buffer holds a partial escape sequence (starting with 0x1B)
/// or the lead byte of a double-byte pair.  An unrecognized escape
/// invalidates only the escape bytes that were provisionally accepted: the
/// rest is handed back, which is where negative backup offsets come from.
/// A line feed while between characters returns the mode to ASCII; a pair
/// error consumes both bytes of the pair.
#[verifier::opaque]
pub open spec fn iso2022_step(m: u8, p: Seq<u8>, b: u8) -> Step {
    if p.len() == 0 {
        if b == 0x1B {
            Step::Next { m, p: seq![b], out: Seq::empty() }
        } else if m == 1 || m == 3 {
            if b == 0x0A {
                Step::Next { m: 0, p: Seq::empty(), out: seq!['\n'] }
            } else {
                Step::Next { m, p: seq![b], out: Seq::empty() }
            }
        } else if m == 2 {
            if 0x21 <= b <= 0x5F {
                Step::Next { m, p: Seq::empty(), out: seq![((0xFF61 + (b - 0x21)) as u32) as char] }
            } else {
                Step::Fail { plen: 0, eat: true }
            }
        } else {
            if b <= 0x7F {
                Step::Next { m, p: Seq::empty(), out: seq![(b as u32) as char] }
            } else {
                Step::Fail { plen: 0, eat: true }
            }
        }
    } else if p[0] == 0x1B {
        if p.len() == 1 {
            if b == 0x24 || b == 0x28 {
                Step::Next { m, p: seq![p[0], b], out: Seq::empty() }
            } else {
                Step::Fail { plen: 1, eat: false }
            }
        } else if p.len() == 2 && p[1] == 0x24 {
            if b == 0x40 || b == 0x42 {
                Step::Next { m: 1, p: Seq::empty(), out: Seq::empty() }
            } else if b == 0x28 {
                Step::Next { m, p: seq![p[0], p[1], b], out: Seq::empty() }
            } else {
                Step::Fail { plen: 1, eat: false }
            }
        } else if p.len() == 2 && p[1] == 0x28 {
            if b == 0x42 || b == 0x4A {
                Step::Next { m: 0, p: Seq::empty(), out: Seq::empty() }
            } else if b == 0x49 {
                Step::Next { m: 2, p: Seq::empty(), out: Seq::empty() }
            } else {
                Step::Fail { plen: 1, eat: false }
            }
        } else if p.len() == 3 && p[1] == 0x24 && p[2] == 0x28 {
            if b == 0x44 {
                Step::Next { m: 3, p: Seq::empty(), out: Seq::empty() }
            } else {
                Step::Fail { plen: 1, eat: false }
            }
        } else {
            Step::Fail { plen: 1, eat: false }
        }
    } else {
        let l = p[0];
        if m == 1 {
            if 0x21 <= l <= 0x7E && 0x21 <= b <= 0x7E {
                match lookup::whatwg_decode(
                    "euc-jp"@,
                    seq![(l + 0x80) as u8, (b + 0x80) as u8],
                ) {
                    Some(s) => Step::Next { m, p: Seq::empty(), out: s },
                    None => Step::Fail { plen: 1, eat: true },
                }
            } else {
                Step::Fail { plen: 1, eat: true }
            }
        } else if m == 3 {
            if 0x21 <= l <= 0x7E && 0x21 <= b <= 0x7E {
                match lookup::whatwg_decode(
                    "euc-jp"@,
                    seq![0x8Fu8, (l + 0x80) as u8, (b + 0x80) as u8],
                ) {
                    Some(s) => Step::Next { m, p: Seq::empty(), out: s },
                    None => Step::Fail { plen: 1, eat: true },
                }
            } else {
                Step::Fail { plen: 1, eat: true }
            }
        } else {
            Step::Fail { plen: 1, eat: true }
        }
    }
}

/// Runs [`iso2022_step`] on the live state.
pub(crate) fn iso2022_step_exec(mode: &mut u8, pending: &mut Vec<u8>, b: u8, output: &mut Vec<
    char,
>) -> (r: Option<FailInfo>)
    ensures
        (match iso2022_step(*old(mode), old(pending)@, b) {
            Step::Next { m: m2, p, out } => {
                &&& r is None
                &&& *final(mode) == m2
                &&& final(pending)@ == p
                &&& final(output)@ == old(output)@ + out
            },
            Step::Fail { plen, eat } => {
                &&& r matches Some(f) && f.plen == plen && f.eat == eat
                &&& *final(mode) == *old(mode)
                &&& final(pending)@ == old(pending)@
                &&& final(output)@ == old(output)@
            },
        }),
{
    proof {
        reveal(iso2022_step);
    }
    let n = pending.len();
    let m = *mode;
    if n == 0 {
        if b == 0x1B {
            pending.push(b);
            None
        } else if m == 1 || m == 3 {
            if b == 0x0A {
                *mode = 0;
                output.push('\n');
                None
            } else {
                pending.push(b);
                None
            }
        } else if m == 2 {
            if 0x21 <= b && b <= 0x5F {
                output.push(scalar_to_char(0xFF61 + (b as u32 - 0x21)));
                None
            } else {
                Some(FailInfo { plen: 0, eat: true })
            }
        } else {
            if b <= 0x7F {
                output.push(scalar_to_char(b as u32));
                None
            } else {
                Some(FailInfo { plen: 0, eat: true })
            }
        }
    } else if pending[0] == 0x1B {
        if n == 1 {
            if b == 0x24 || b == 0x28 {
                pending.push(b);
                None
            } else {
                Some(FailInfo { plen: 1, eat: false })
            }
        } else if n == 2 && pending[1] == 0x24 {
            if b == 0x40 || b == 0x42 {
                *mode = 1;
                pending.clear();
                None
            } else if b == 0x28 {
                pending.push(b);
                None
            } else {
                Some(FailInfo { plen: 1, eat: false })
            }
        } else if n == 2 && pending[1] == 0x28 {
            if b == 0x42 || b == 0x4A {
                *mode = 0;
                pending.clear();
                None
            } else if b == 0x49 {
                *mode = 2;
                pending.clear();
                None
            } else {
                Some(FailInfo { plen: 1, eat: false })
            }
        } else if n == 3 && pending[1] == 0x24 && pending[2] == 0x28 {
            if b == 0x44 {
                *mode = 3;
                pending.clear();
                None
            } else {
                Some(FailInfo { plen: 1, eat: false })
            }
        } else {
            Some(FailInfo { plen: 1, eat: false })
        }
    } else {
        let l = pending[0];
        if m == 1 {
            if 0x21 <= l && l <= 0x7E && 0x21 <= b && b <= 0x7E {
                match lookup::decode2("euc-jp", l + 0x80, b + 0x80) {
                    Some(mut chars) => {
                        pending.clear();
                        output.append(&mut chars);
                        None
                    },
                    None => Some(FailInfo { plen: 1, eat: true }),
                }
            } else {
                Some(FailInfo { plen: 1, eat: true })
            }
        } else if m == 3 {
            if 0x21 <= l && l <= 0x7E && 0x21 <= b && b <= 0x7E {
                match lookup::decode3("euc-jp", 0x8F, l + 0x80, b + 0x80) {
                    Some(mut chars) => {
                        pending.clear();
                        output.append(&mut chars);
                        None
                    },
                    None => Some(FailInfo { plen: 1, eat: true }),
                }
            } else {
                Some(FailInfo { plen: 1, eat: true })
            }
        } else {
            Some(FailInfo { plen: 1, eat: true })
        }
    }
}

/// One character of ISO-2022-JP encoder input.
///
/// The encoder only ever uses the ASCII, JIS X 0208 and katakana modes; a
/// mode switch escape is emitted exactly when the needed mode differs from
/// the current one, so the same switch is never emitted twice in a row.
/// The yen sign and the overline encode as the ASCII bytes 0x5C and 0x7E.
#[verifier::opaque]
pub open spec fn iso2022_enc_step(m: u8, c: char) -> crate::raw::EStep {
    let u = c as u32;
    if u < 0x80 {
        crate::raw::EStep::Put {
            m: 0,
            out: (if m != 0 {
                seq![0x1Bu8, 0x28u8, 0x42u8]
            } else {
                Seq::empty()
            }) + seq![u as u8],
        }
    } else if u == 0xA5 {
        crate::raw::EStep::Put {
            m: 0,
            out: (if m != 0 {
                seq![0x1Bu8, 0x28u8, 0x42u8]
            } else {
                Seq::empty()
            }) + seq![0x5Cu8],
        }
    } else if u == 0x203E {
        crate::raw::EStep::Put {
            m: 0,
            out: (if m != 0 {
                seq![0x1Bu8, 0x28u8, 0x42u8]
            } else {
                Seq::empty()
            }) + seq![0x7Eu8],
        }
    } else if 0xFF61 <= u <= 0xFF9F {
        crate::raw::EStep::Put {
            m: 2,
            out: (if m != 2 {
                seq![0x1Bu8, 0x28u8, 0x49u8]
            } else {
                Seq::empty()
            }) + seq![((u - 0xFF61 + 0x21) as u8)],
        }
    } else {
        match lookup::whatwg_encode("euc-jp"@, c) {
            Some(bs) => {
                if bs.len() == 2 && 0xA1 <= bs[0] <= 0xFE && 0xA1 <= bs[1] <= 0xFE {
                    crate::raw::EStep::Put {
                        m: 1,
                        out: (if m != 1 {
                            seq![0x1Bu8, 0x24u8, 0x42u8]
                        } else {
                            Seq::empty()
                        }) + seq![(bs[0] - 0x80) as u8, (bs[1] - 0x80) as u8],
                    }
                } else {
                    crate::raw::EStep::Unmap
                }
            },
            None => crate::raw::EStep::Unmap,
        }
    }
}

/// Runs [`iso2022_enc_step`] on the live state.
pub(crate) fn iso2022_enc_exec(m: u8, c: char, output: &mut Vec<u8>) -> (r: (u8, bool))
    ensures
        (match iso2022_enc_step(m, c) {
            crate::raw::EStep::Put { m: m2, out } => {
                &&& r.1 == true
                &&& r.0 == m2
                &&& final(output)@ == old(output)@ + out
            },
            crate::raw::EStep::Unmap => {
                &&& r.1 == false
                &&& r.0 == m
                &&& final(output)@ == old(output)@
            },
        }),
{
    proof {
        reveal(iso2022_enc_step);
    }
    let u = c as u32;
    if u < 0x80 {
        if m != 0 {
            output.push(0x1B);
            output.push(0x28);
            output.push(0x42);
        }
        output.push(u as u8);
        proof {
            assert(output@ =~= old(output)@ + (if m != 0 {
                seq![0x1Bu8, 0x28u8, 0x42u8]
            } else {
                Seq::<u8>::empty()
            }) + seq![u as u8]);
        }
        (0, true)
    } else if u == 0xA5 {
        if m != 0 {
            output.push(0x1B);
            output.push(0x28);
            output.push(0x42);
        }
        output.push(0x5C);
        proof {
            assert(output@ =~= old(output)@ + (if m != 0 {
                seq![0x1Bu8, 0x28u8, 0x42u8]
            } else {
                Seq::<u8>::empty()
            }) + seq![0x5Cu8]);
        }
        (0, true)
    } else if u == 0x203E {
        if m != 0 {
            output.push(0x1B);
            output.push(0x28);
            output.push(0x42);
        }
        output.push(0x7E);
        proof {
            assert(output@ =~= old(output)@ + (if m != 0 {
                seq![0x1Bu8, 0x28u8, 0x42u8]
            } else {
                Seq::<u8>::empty()
            }) + seq![0x7Eu8]);
        }
        (0, true)
    } else if 0xFF61 <= u && u <= 0xFF9F {
        if m != 2 {
            output.push(0x1B);
            output.push(0x28);
            output.push(0x49);
        }
        output.push((u - 0xFF61 + 0x21) as u8);
        proof {
            assert(output@ =~= old(output)@ + (if m != 2 {
                seq![0x1Bu8, 0x28u8, 0x49u8]
            } else {
                Seq::<u8>::empty()
            }) + seq![((u - 0xFF61 + 0x21) as u8)]);
        }
        (2, true)
    } else {
        match lookup::oracle_encode("euc-jp", c) {
            Some(bytes) => {
                if bytes.len() == 2 {
                    let b0 = bytes[0];
                    let b1 = bytes[1];
                    if 0xA1 <= b0 && b0 <= 0xFE && 0xA1 <= b1 && b1 <= 0xFE {
                        if m != 1 {
                            output.push(0x1B);
                            output.push(0x24);
                            output.push(0x42);
                        }
                        output.push(b0 - 0x80);
                        output.push(b1 - 0x80);
                        proof {
                            assert(output@ =~= old(output)@ + (if m != 1 {
                                seq![0x1Bu8, 0x24u8, 0x42u8]
                            } else {
                                Seq::<u8>::empty()
                            }) + seq![(b0 - 0x80) as u8, (b1 - 0x80) as u8]);
                        }
                        (1, true)
                    } else {
                        (m, false)
                    }
                } else {
                    (m, false)
                }
            },
            None => (m, false),
        }
    }
}

} // verus!
