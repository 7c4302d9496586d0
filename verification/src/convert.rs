//! The convenience layer: drive a state machine to completion over a whole
//! in-memory buffer, applying a trap policy whenever the machine reports an
//! error.
//!
//! The machines never apply a policy themselves; they only report.  The
//! loops here resume after each erroneous span, and the loop measure shows
//! that every resumption makes strictly positive progress, so conversion of
//! any input terminates.

use vstd::prelude::*;

use crate::raw::dec_run;
use crate::raw::enc_run;
use crate::raw::finish_plen;
use crate::raw::lemma_dec_run_bounds;
use crate::raw::lemma_enc_run_bounds;
use crate::raw::ERun;
use crate::raw::RawDecoderImpl;
use crate::raw::RawEncoderImpl;
use crate::raw::Run;
use crate::types::DecoderTrap;
use crate::types::Encoding;
use crate::types::EncoderTrap;
use crate::util::chars_to_string;
use crate::util::str_to_chars;
use vstd::slice::slice_subrange;

verus! {

/// What a decoder trap substitutes for an erroneous span.
pub open spec fn dec_substitute(trap: DecoderTrap) -> Seq<char> {
    match trap {
        DecoderTrap::Replace => seq!['\u{fffd}'],
        _ => Seq::empty(),
    }
}

/// The text that a whole-buffer decode returns, or `Err` exactly when the
/// input is malformed and the trap is `Strict`.
///
/// Decoding runs until the first erroneous span, substitutes for it as the
/// trap directs, and resumes just past it with a fresh machine state; a
/// truncated sequence at end of input is an erroneous span as well, whose
/// unconsumed tail is decoded again.
pub open spec fn decode_spec(e: Encoding, input: Seq<u8>, trap: DecoderTrap) -> Result<
    Seq<char>,
    (),
>
    decreases input.len(),
    via decode_spec_dec
{
    match dec_run(e, 0, Seq::empty(), input) {
        Run::Done { m, p, out } => {
            if p.len() == 0 {
                Ok(out)
            } else if trap == DecoderTrap::Strict {
                Err(())
            } else {
                let back = p.len() - finish_plen(e, p);
                match decode_spec(e, input.skip(input.len() - back), trap) {
                    Ok(s) => Ok(out + dec_substitute(trap) + s),
                    Err(x) => Err(x),
                }
            }
        },
        Run::Halt { out, start, upto } => {
            if trap == DecoderTrap::Strict {
                Err(())
            } else {
                match decode_spec(e, input.skip(upto), trap) {
                    Ok(s) => Ok(out + dec_substitute(trap) + s),
                    Err(x) => Err(x),
                }
            }
        },
    }
}

#[via_fn]
proof fn decode_spec_dec(e: Encoding, input: Seq<u8>, trap: DecoderTrap) {
    lemma_dec_run_bounds(e, 0, Seq::empty(), input);
}

/// What an encoder trap substitutes for an unmappable character: nothing,
/// a question mark, or the decimal numeric character reference, itself
/// pushed through the encoder.
pub open spec fn ncr_digits(n: nat) -> Seq<char>
    decreases n,
{
    if n < 10 {
        seq![((0x30 + n) as u32) as char]
    } else {
        ncr_digits(n / 10).push(((0x30 + n % 10) as u32) as char)
    }
}

/// The decimal numeric character reference of a character.
pub open spec fn ncr_chars(c: char) -> Seq<char> {
    seq!['&', '#'] + ncr_digits((c as u32) as nat) + seq![';']
}

/// The bytes that a whole-buffer encode returns, or `Err` exactly when some
/// character is unmappable and the trap is `Strict` (or a substitute is
/// itself unmappable).
///
/// Encoding runs until the first unmappable character, substitutes for it
/// as the trap directs, and resumes just past it; the shift state carries
/// over the substitution, so a mode-switching encoding emits no redundant
/// switches around it.
pub open spec fn encode_spec(e: Encoding, m: u8, input: Seq<char>, trap: EncoderTrap) -> Result<
    Seq<u8>,
    (),
>
    decreases input.len(),
    via encode_spec_dec
{
    match enc_run(e, m, input) {
        ERun::Done { m: m2, out } => Ok(out),
        ERun::Halt { m: m2, out, at } => {
            match trap {
                EncoderTrap::Strict => Err(()),
                EncoderTrap::Ignore => (match encode_spec(e, m2, input.skip(at + 1), trap) {
                    Ok(s) => Ok(out + s),
                    Err(x) => Err(x),
                }),
                EncoderTrap::Replace => (match enc_run(e, m2, seq!['?']) {
                    ERun::Done { m: m3, out: out2 } => (match encode_spec(
                        e,
                        m3,
                        input.skip(at + 1),
                        trap,
                    ) {
                        Ok(s) => Ok(out + out2 + s),
                        Err(x) => Err(x),
                    }),
                    ERun::Halt { .. } => Err(()),
                }),
                EncoderTrap::NcrEscape => (match enc_run(e, m2, ncr_chars(input[at])) {
                    ERun::Done { m: m3, out: out2 } => (match encode_spec(
                        e,
                        m3,
                        input.skip(at + 1),
                        trap,
                    ) {
                        Ok(s) => Ok(out + out2 + s),
                        Err(x) => Err(x),
                    }),
                    ERun::Halt { .. } => Err(()),
                }),
            }
        },
    }
}

#[via_fn]
proof fn encode_spec_dec(e: Encoding, m: u8, input: Seq<char>, trap: EncoderTrap) {
    lemma_enc_run_bounds(e, m, input);
}

impl Encoding {
    /// A fresh incremental decoder for this encoding.
    pub fn raw_decoder(self) -> (r: RawDecoderImpl)
        ensures
            r.is_fresh(self),
            r.inv(),
    {
        RawDecoderImpl::new(self)
    }

    /// A fresh incremental encoder for this encoding.
    pub fn raw_encoder(self) -> (r: RawEncoderImpl)
        ensures
            r.is_fresh(self),
    {
        RawEncoderImpl::new(self)
    }

    /// Decode a whole byte buffer under the given trap policy.
    pub fn decode(self, input: &[u8], trap: DecoderTrap) -> (r: Result<String, &'static str>)
        requires
            input@.len() <= isize::MAX,
        ensures
            (match decode_spec(self, input@, trap) {
                Ok(s) => r matches Ok(t) && t@ == s,
                Err(x) => r is Err,
            }),
    {
        let mut dec = RawDecoderImpl::new(self);
        let mut chars: Vec<char> = Vec::new();
        let mut pos: usize = 0;
        proof {
            assert(input@.skip(0int) =~= input@);
            if let Ok(s) = decode_spec(self, input@, trap) {
                assert(Seq::<char>::empty() + s =~= s);
            }
        }
        loop
            invariant
                pos <= input@.len(),
                input@.len() <= isize::MAX,
                dec.is_fresh(self),
                dec.inv(),
                (match decode_spec(self, input@.skip(pos as int), trap) {
                    Ok(s) => decode_spec(self, input@, trap) == Ok::<Seq<char>, ()>(chars@ + s),
                    Err(x) => decode_spec(self, input@, trap) == Err::<Seq<char>, ()>(x),
                }),
            decreases input@.len() - pos,
        {
            let ghost suffix = input@.skip(pos as int);
            let ghost chars0 = chars@;
            let ghost run = dec_run(self, 0, Seq::empty(), suffix);
            proof {
                lemma_dec_run_bounds(self, 0, Seq::empty(), suffix);
            }
            let rest = slice_subrange(input, pos, input.len());
            proof {
                assert(rest@ =~= suffix);
                assert(dec.spec_pending() =~= Seq::<u8>::empty());
            }
            let (n, err) = dec.raw_feed(rest, &mut chars);
            match err {
                None => {
                    match dec.raw_finish(&mut chars) {
                        None => {
                            proof {
                                if let Run::Done { out: o, .. } = run {
                                    assert(chars@ =~= chars0 + o);
                                    assert(decode_spec(self, suffix, trap) == Ok::<Seq<char>, ()>(
                                        o,
                                    ));
                                }
                            }
                            return Ok(chars_to_string(&chars));
                        },
                        Some(err2) => {
                            if matches!(trap, DecoderTrap::Strict) {
                                return Err(err2.cause);
                            }
                            if matches!(trap, DecoderTrap::Replace) {
                                chars.push('\u{fffd}');
                            }
                            let back = (0isize - err2.upto) as usize;
                            proof {
                                if let Run::Done { p, out: o, .. } = run {
                                    assert(back == p.len() - finish_plen(self, p));
                                    assert(back < suffix.len());
                                    assert(chars@ =~= chars0 + o + dec_substitute(trap));
                                }
                            }
                            let newpos = input.len() - back;
                            proof {
                                assert(input@.skip(newpos as int) =~= suffix.skip(
                                    suffix.len() - back,
                                ));
                                if let Run::Done { out: o, .. } = run {
                                    if let Ok(s) = decode_spec(
                                        self,
                                        input@.skip(newpos as int),
                                        trap,
                                    ) {
                                        assert(chars0 + (o + dec_substitute(trap) + s) =~= chars@
                                            + s);
                                    }
                                }
                            }
                            pos = newpos;
                        },
                    }
                },
                Some(err1) => {
                    if matches!(trap, DecoderTrap::Strict) {
                        return Err(err1.cause);
                    }
                    if matches!(trap, DecoderTrap::Replace) {
                        chars.push('\u{fffd}');
                    }
                    proof {
                        if let Run::Halt { out: o, upto, .. } = run {
                            assert(0 <= upto && upto <= suffix.len());
                            assert(input@.skip(pos + upto) =~= suffix.skip(upto));
                            assert(chars@ =~= chars0 + o + dec_substitute(trap));
                        }
                    }
                    let adv = err1.upto as usize;
                    let newpos = pos + adv;
                    proof {
                        if let Run::Halt { out: o, .. } = run {
                            if let Ok(s) = decode_spec(self, input@.skip(newpos as int), trap) {
                                assert(chars0 + (o + dec_substitute(trap) + s) =~= chars@ + s);
                            }
                        }
                    }
                    pos = newpos;
                },
            }
        }
    }

    /// Encode a whole string under the given trap policy.
    pub fn encode(self, input: &str, trap: EncoderTrap) -> (r: Result<Vec<u8>, &'static str>)
        requires
            input@.len() <= isize::MAX,
        ensures
            (match encode_spec(self, 0, input@, trap) {
                Ok(s) => r matches Ok(v) && v@ == s,
                Err(x) => r is Err,
            }),
    {
        let chars = str_to_chars(input);
        let mut enc = RawEncoderImpl::new(self);
        let mut out: Vec<u8> = Vec::new();
        let mut pos: usize = 0;
        proof {
            assert(chars@.skip(0int) =~= input@);
            if let Ok(s) = encode_spec(self, 0, input@, trap) {
                assert(Seq::<u8>::empty() + s =~= s);
            }
        }
        loop
            invariant
                pos <= chars@.len(),
                chars@ == input@,
                chars@.len() <= isize::MAX,
                enc.spec_enc() == self,
                (match encode_spec(self, enc.spec_mode(), chars@.skip(pos as int), trap) {
                    Ok(s) => encode_spec(self, 0, input@, trap) == Ok::<Seq<u8>, ()>(out@ + s),
                    Err(x) => encode_spec(self, 0, input@, trap) == Err::<Seq<u8>, ()>(x),
                }),
            decreases chars@.len() - pos,
        {
            let ghost suffix = chars@.skip(pos as int);
            let ghost m_pre = enc.spec_mode();
            let ghost out0 = out@;
            let ghost run = enc_run(self, m_pre, suffix);
            proof {
                lemma_enc_run_bounds(self, m_pre, suffix);
            }
            let rest = slice_subrange(chars.as_slice(), pos, chars.len());
            proof {
                assert(rest@ =~= suffix);
            }
            let (n, err) = enc.raw_feed(rest, &mut out);
            match err {
                None => {
                    proof {
                        if let ERun::Done { out: o, .. } = run {
                            assert(out@ =~= out0 + o);
                            assert(encode_spec(self, m_pre, suffix, trap) == Ok::<Seq<u8>, ()>(o));
                        }
                    }
                    return Ok(out);
                },
                Some(err1) => {
                    let ghost o_halt = out@.skip(out0.len() as int);
                    proof {
                        if let ERun::Halt { out: o, .. } = run {
                            assert(out@ =~= out0 + o);
                            assert(o_halt =~= o);
                        }
                    }
                    match trap {
                        EncoderTrap::Strict => {
                            return Err(err1.cause);
                        },
                        EncoderTrap::Ignore => {},
                        EncoderTrap::Replace => {
                            let mut q: Vec<char> = Vec::new();
                            q.push('?');
                            proof {
                                assert(q@ =~= seq!['?']);
                            }
                            let (n2, err2) = enc.raw_feed(q.as_slice(), &mut out);
                            if err2.is_some() {
                                return Err("unrepresentable character");
                            }
                        },
                        EncoderTrap::NcrEscape => {
                            let c = chars[pos + n];
                            proof {
                                if let ERun::Halt { at, .. } = run {
                                    assert(suffix[at] == chars@[pos + at]);
                                }
                            }
                            let ncr = ncr_chars_exec(c);
                            let (n2, err2) = enc.raw_feed(ncr.as_slice(), &mut out);
                            if err2.is_some() {
                                return Err("unrepresentable character");
                            }
                        },
                    }
                    let newpos = pos + n + 1;
                    proof {
                        assert(chars@.skip(newpos as int) =~= suffix.skip(n + 1));
                        let sfx2 = chars@.skip(newpos as int);
                        if let ERun::Halt { m: mh, out: oh, at } = run {
                            match trap {
                                EncoderTrap::Strict => {},
                                EncoderTrap::Ignore => {
                                    if let Ok(s) = encode_spec(self, mh, sfx2, trap) {
                                        assert(out0 + (oh + s) =~= out@ + s);
                                    }
                                },
                                EncoderTrap::Replace => {
                                    if let ERun::Done { m: m3, out: o2 } = enc_run(
                                        self,
                                        mh,
                                        seq!['?'],
                                    ) {
                                        assert(out@ =~= out0 + oh + o2);
                                        if let Ok(s) = encode_spec(self, m3, sfx2, trap) {
                                            assert(out0 + (oh + o2 + s) =~= out@ + s);
                                        }
                                    }
                                },
                                EncoderTrap::NcrEscape => {
                                    if let ERun::Done { m: m3, out: o2 } = enc_run(
                                        self,
                                        mh,
                                        ncr_chars(suffix[at]),
                                    ) {
                                        assert(out@ =~= out0 + oh + o2);
                                        if let Ok(s) = encode_spec(self, m3, sfx2, trap) {
                                            assert(out0 + (oh + o2 + s) =~= out@ + s);
                                        }
                                    }
                                },
                            }
                        }
                    }
                    pos = newpos;
                },
            }
        }
    }
}


impl Encoding {
    /// Decode a whole byte buffer, invoking a caller-supplied handler for
    /// every erroneous span.
    ///
    /// The handler receives the erroneous bytes and the live decoder and may
    /// write replacement text or push bytes through the decoder itself; the
    /// decoder is reset to its initial state after the handler returns, and
    /// decoding resumes just past the erroneous span.  On well-formed input
    /// the handler is never invoked and the result is exactly the decoded
    /// text.
    pub fn decode_with_handler<H: crate::types::DecoderTrapHandler>(
        self,
        input: &[u8],
        handler: &mut H,
    ) -> (r: Result<String, &'static str>)
        requires
            input@.len() <= isize::MAX,
        ensures
            (decode_spec(self, input@, DecoderTrap::Strict) matches Ok(s) ==> r matches Ok(t)
                && t@ == s),
    {
        let mut dec = RawDecoderImpl::new(self);
        let mut chars: Vec<char> = Vec::new();
        let mut pos: usize = 0;
        let ghost mut clean: bool = true;
        proof {
            assert(input@.skip(0int) =~= input@);
            if let Ok(s) = decode_spec(self, input@, DecoderTrap::Strict) {
                assert(Seq::<char>::empty() + s =~= s);
            }
        }
        loop
            invariant
                pos <= input@.len(),
                input@.len() <= isize::MAX,
                dec.is_fresh(self),
                dec.inv(),
                (if clean {
                    match decode_spec(self, input@.skip(pos as int), DecoderTrap::Strict) {
                        Ok(s) => decode_spec(self, input@, DecoderTrap::Strict) == Ok::<
                            Seq<char>,
                            (),
                        >(chars@ + s),
                        Err(x) => decode_spec(self, input@, DecoderTrap::Strict) is Err,
                    }
                } else {
                    decode_spec(self, input@, DecoderTrap::Strict) is Err
                }),
            decreases input@.len() - pos,
        {
            let ghost suffix = input@.skip(pos as int);
            let ghost chars0 = chars@;
            let ghost run = dec_run(self, 0, Seq::empty(), suffix);
            proof {
                lemma_dec_run_bounds(self, 0, Seq::empty(), suffix);
            }
            let rest = slice_subrange(input, pos, input.len());
            proof {
                assert(rest@ =~= suffix);
                assert(dec.spec_pending() =~= Seq::<u8>::empty());
            }
            let (n, err) = dec.raw_feed(rest, &mut chars);
            match err {
                None => {
                    match dec.raw_finish(&mut chars) {
                        None => {
                            proof {
                                if clean {
                                    if let Run::Done { out: o, .. } = run {
                                        assert(chars@ =~= chars0 + o);
                                        assert(decode_spec(self, suffix, DecoderTrap::Strict)
                                            == Ok::<Seq<char>, ()>(o));
                                    }
                                }
                            }
                            return Ok(chars_to_string(&chars));
                        },
                        Some(err2) => {
                            let back = (0isize - err2.upto) as usize;
                            proof {
                                if let Run::Done { p, .. } = run {
                                    assert(back < suffix.len());
                                }
                            }
                            let newpos = input.len() - back;
                            let problem = slice_subrange(input, pos + n, newpos);
                            let go = handler.trap(&mut dec, problem, &mut chars);
                            dec = RawDecoderImpl::new(self);
                            if !go {
                                return Err(err2.cause);
                            }
                            proof {
                                clean = false;
                            }
                            pos = newpos;
                        },
                    }
                },
                Some(err1) => {
                    proof {
                        if let Run::Halt { upto, .. } = run {
                            assert(0 <= upto && upto <= suffix.len());
                        }
                    }
                    let adv = err1.upto as usize;
                    let problem = slice_subrange(input, pos + n, pos + adv);
                    let go = handler.trap(&mut dec, problem, &mut chars);
                    dec = RawDecoderImpl::new(self);
                    if !go {
                        return Err(err1.cause);
                    }
                    proof {
                        clean = false;
                    }
                    pos = pos + adv;
                },
            }
        }
    }

    /// Encode a whole string, invoking a caller-supplied handler for every
    /// unmappable character.
    ///
    /// The handler receives the character and the live encoder and may write
    /// replacement bytes or push text through the encoder itself; encoding
    /// resumes just past the character with whatever shift state the handler
    /// left.  When every character is mappable the handler is never invoked
    /// and the result is exactly the encoded bytes.
    pub fn encode_with_handler<H: crate::types::EncoderTrapHandler>(
        self,
        input: &str,
        handler: &mut H,
    ) -> (r: Result<Vec<u8>, &'static str>)
        requires
            input@.len() <= isize::MAX,
        ensures
            (encode_spec(self, 0, input@, EncoderTrap::Strict) matches Ok(s) ==> r matches Ok(v)
                && v@ == s),
    {
        let chars = str_to_chars(input);
        let mut enc = RawEncoderImpl::new(self);
        let mut out: Vec<u8> = Vec::new();
        let mut pos: usize = 0;
        let ghost mut clean: bool = true;
        proof {
            assert(chars@.skip(0int) =~= input@);
            if let Ok(s) = encode_spec(self, 0, input@, EncoderTrap::Strict) {
                assert(Seq::<u8>::empty() + s =~= s);
            }
        }
        loop
            invariant
                pos <= chars@.len(),
                chars@ == input@,
                chars@.len() <= isize::MAX,
                enc.spec_enc() == self,
                (if clean {
                    match encode_spec(
                        self,
                        enc.spec_mode(),
                        chars@.skip(pos as int),
                        EncoderTrap::Strict,
                    ) {
                        Ok(s) => encode_spec(self, 0, input@, EncoderTrap::Strict) == Ok::<
                            Seq<u8>,
                            (),
                        >(out@ + s),
                        Err(x) => encode_spec(self, 0, input@, EncoderTrap::Strict) is Err,
                    }
                } else {
                    encode_spec(self, 0, input@, EncoderTrap::Strict) is Err
                }),
            decreases chars@.len() - pos,
        {
            let ghost suffix = chars@.skip(pos as int);
            let ghost m_pre = enc.spec_mode();
            let ghost out0 = out@;
            let ghost run = enc_run(self, m_pre, suffix);
            proof {
                lemma_enc_run_bounds(self, m_pre, suffix);
            }
            let rest = slice_subrange(chars.as_slice(), pos, chars.len());
            proof {
                assert(rest@ =~= suffix);
            }
            let (n, err) = enc.raw_feed(rest, &mut out);
            match err {
                None => {
                    proof {
                        if clean {
                            if let ERun::Done { out: o, .. } = run {
                                assert(out@ =~= out0 + o);
                                assert(encode_spec(self, m_pre, suffix, EncoderTrap::Strict)
                                    == Ok::<Seq<u8>, ()>(o));
                            }
                        }
                    }
                    return Ok(out);
                },
                Some(err1) => {
                    let c = chars[pos + n];
                    let go = handler.trap(&mut enc, c, &mut out);
                    enc = RawEncoderImpl::new(self);
                    if !go {
                        return Err(err1.cause);
                    }
                    proof {
                        clean = false;
                    }
                    pos = pos + n + 1;
                },
            }
        }
    }
}

/// The decimal digits of `n`, appended in order.
fn push_digits(n: u32, out: &mut Vec<char>)
    ensures
        final(out)@ == old(out)@ + ncr_digits(n as nat),
    decreases n,
{
    if n < 10 {
        out.push(crate::util::scalar_to_char(0x30 + n));
    } else {
        push_digits(n / 10, out);
        out.push(crate::util::scalar_to_char(0x30 + n % 10));
        proof {
            assert(out@ =~= old(out)@ + ncr_digits(n as nat));
        }
    }
}

/// The count of decimal digits is bounded by the number itself.
proof fn lemma_ncr_digits_len(n: nat)
    ensures
        ncr_digits(n).len() <= n + 1,
    decreases n,
{
    if n >= 10 {
        lemma_ncr_digits_len(n / 10);
    }
}

/// The decimal numeric character reference of a character, as text.
fn ncr_chars_exec(c: char) -> (r: Vec<char>)
    ensures
        r@ == ncr_chars(c),
        r@.len() <= 0x110004,
{
    proof {
        lemma_ncr_digits_len((c as u32) as nat);
    }
    let mut v: Vec<char> = Vec::new();
    v.push('&');
    v.push('#');
    push_digits(c as u32, &mut v);
    v.push(';');
    proof {
        assert(v@ =~= ncr_chars(c));
    }
    v
}

} // verus!
