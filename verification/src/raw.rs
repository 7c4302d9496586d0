//! The streaming protocol: incremental decoders and encoders.
//!
//! A decoder is a small state machine: a shift mode (used only by
//! ISO-2022-JP) and a pending buffer holding the prefix of an incomplete
//! multi-byte sequence.  Feeding consumes the input byte by byte; the effect
//! of one byte on one state is written down as the specification function
//! [`dec_step`], and the effect of a whole chunk as its fold [`dec_run`].
//! The contracts of `raw_feed` and `raw_finish` state the result exactly in
//! terms of that fold.

use vstd::prelude::*;

use crate::codec::japanese;
use crate::codec::korean;
use crate::codec::lookup;
use crate::codec::simpchinese;
use crate::codec::singlebyte;
use crate::codec::tradchinese;
use crate::codec::utf_16;
use crate::codec::utf_8;
use crate::types::CodecError;
use crate::types::Encoding;

verus! {

/// The effect of one input byte on one decoder state.
///
/// `Next` carries the new shift mode, the new pending buffer and the
/// characters emitted.  `Fail` reports malformed input: the erroneous span is
/// the first `plen` bytes of the pending buffer, plus the new byte itself
/// when `eat` is set; whatever follows the span is left for the caller to
/// feed again.
#[verifier::ext_equal]
pub enum Step {
    /// The byte was taken: new mode, new pending bytes, characters emitted.
    Next { m: u8, p: Seq<u8>, out: Seq<char> },
    /// Malformed input at this byte.
    Fail { plen: nat, eat: bool },
}

/// The executable report of a failed step: mirrors [`Step::Fail`].
pub(crate) struct FailInfo {
    pub plen: usize,
    pub eat: bool,
}

/// The effect of a whole input chunk on one decoder state.
///
/// On `Halt`, `start` is the position where the erroneous span begins and
/// `upto` the position just past it, both relative to the start of the
/// chunk; they are negative when the span lies in bytes that were buffered
/// during earlier calls.
#[verifier::ext_equal]
pub enum Run {
    /// The whole chunk was consumed without error.
    Done { m: u8, p: Seq<u8>, out: Seq<char> },
    /// Malformed input part way through the chunk.
    Halt { out: Seq<char>, start: int, upto: int },
}

/// The effect of one byte `b` on the decoder state `(m, p)` of encoding `e`.
#[verifier::opaque]
pub open spec fn dec_step(e: Encoding, m: u8, p: Seq<u8>, b: u8) -> Step {
    match e {
        Encoding::Ascii => singlebyte::ascii_step(m, p, b),
        Encoding::Utf8 => utf_8::utf8_step(m, p, b),
        Encoding::Utf16Le => utf_16::utf16_step(false, m, p, b),
        Encoding::Utf16Be => utf_16::utf16_step(true, m, p, b),
        Encoding::EucJp => japanese::eucjp_step(m, p, b),
        Encoding::Windows31J => japanese::sjis_step(m, p, b),
        Encoding::Iso2022Jp => japanese::iso2022_step(m, p, b),
        Encoding::Windows949 => korean::euckr_step(m, p, b),
        Encoding::Gbk => simpchinese::gb_step(m, p, b),
        Encoding::Gb18030 => simpchinese::gb_step(m, p, b),
        Encoding::Big5 => tradchinese::big5_step(m, p, b),
        Encoding::Windows874 => singlebyte::sb_step(e, m, p, b),
        Encoding::Windows1254 => singlebyte::sb_step(e, m, p, b),
        Encoding::Iso88592 => singlebyte::sb_step(e, m, p, b),
        Encoding::Iso88597 => singlebyte::sb_step(e, m, p, b),
        Encoding::XUserDefined => singlebyte::xud_step(m, p, b),
    }
}

/// The fold of [`dec_step`] over a chunk: decoding stops at the first
/// malformed byte.
pub open spec fn dec_run(e: Encoding, m: u8, p: Seq<u8>, input: Seq<u8>) -> Run
    decreases input.len(),
{
    if input.len() == 0 {
        Run::Done { m, p, out: Seq::empty() }
    } else {
        match dec_step(e, m, p, input[0]) {
            Step::Fail { plen, eat } => {
                let start: int = if plen > 0 {
                    -(p.len() as int)
                } else {
                    0
                };
                let upto: int = if eat {
                    1
                } else {
                    start + plen
                };
                Run::Halt { out: Seq::empty(), start, upto }
            },
            Step::Next { m: m2, p: p2, out } => match dec_run(e, m2, p2, input.drop_first()) {
                Run::Done { m: m3, p: p3, out: out2 } => Run::Done { m: m3, p: p3, out: out + out2 },
                Run::Halt { out: out2, start, upto } => Run::Halt {
                    out: out + out2,
                    start: start + 1,
                    upto: upto + 1,
                },
            },
        }
    }
}

/// How many of the pending bytes form the erroneous span when the stream
/// ends with a non-empty pending buffer.  For ISO-2022-JP only the two
/// recognized bytes of an unfinished escape sequence are taken; everything
/// else is handed back to the caller.
pub open spec fn finish_plen(e: Encoding, p: Seq<u8>) -> nat {
    if e == Encoding::Iso2022Jp && p.len() > 2 {
        2
    } else {
        p.len()
    }
}

/// An incremental decoder for one encoding: feed byte chunks, collect
/// characters.
pub struct RawDecoderImpl {
    enc: Encoding,
    mode: u8,
    pending: Vec<u8>,
}

impl RawDecoderImpl {
    /// The encoding this decoder decodes.
    pub fn encoding(&self) -> (r: Encoding)
        ensures
            r == self.spec_enc(),
    {
        self.enc
    }

    /// The encoding, for contracts.
    pub closed spec fn spec_enc(self) -> Encoding {
        self.enc
    }

    /// The shift mode, for contracts.
    pub closed spec fn spec_mode(self) -> u8 {
        self.mode
    }

    /// The pending bytes, for contracts.
    pub closed spec fn spec_pending(self) -> Seq<u8> {
        self.pending@
    }

    /// The pending buffer always holds strictly fewer bytes than the longest
    /// sequence of the encoding; four bytes is the longest sequence anywhere
    /// (GB18030, or an ISO-2022-JP escape).
    pub open spec fn inv(self) -> bool {
        self.spec_pending().len() <= 3
    }

    /// A decoder in its initial state: no shift state, nothing pending.
    pub open spec fn is_fresh(self, e: Encoding) -> bool {
        self.spec_enc() == e && self.spec_mode() == 0 && self.spec_pending().len() == 0
    }

    /// A fresh decoder for the given encoding.
    pub fn new(enc: Encoding) -> (r: RawDecoderImpl)
        ensures
            r.is_fresh(enc),
            r.inv(),
    {
        RawDecoderImpl { enc, mode: 0, pending: Vec::new() }
    }

    /// A fresh decoder for the same encoding, leaving this one untouched.
    pub fn from_self(&self) -> (r: RawDecoderImpl)
        ensures
            r.is_fresh(self.spec_enc()),
            r.inv(),
    {
        RawDecoderImpl::new(self.enc)
    }

    /// Whether bytes below 0x80 always stand for the ASCII characters.
    pub fn is_ascii_compatible(&self) -> (r: bool)
        ensures
            r == (self.spec_enc() != Encoding::Utf16Le && self.spec_enc() != Encoding::Utf16Be),
    {
        self.enc.is_ascii_compatible()
    }

    /// One byte of input: run [`dec_step`] on the live state.
    fn step_byte(&mut self, b: u8, output: &mut Vec<char>) -> (r: Option<FailInfo>)
        ensures
            final(self).spec_enc() == old(self).spec_enc(),
            (match dec_step(old(self).spec_enc(), old(self).spec_mode(), old(self).spec_pending(), b) {
                Step::Next { m, p, out } => {
                    &&& r is None
                    &&& final(self).spec_mode() == m
                    &&& final(self).spec_pending() == p
                    &&& final(output)@ == old(output)@ + out
                },
                Step::Fail { plen, eat } => {
                    &&& r matches Some(f) && f.plen == plen && f.eat == eat
                    &&& final(self).spec_mode() == old(self).spec_mode()
                    &&& final(self).spec_pending() == old(self).spec_pending()
                    &&& final(output)@ == old(output)@
                },
            }),
    {
        proof {
            reveal(dec_step);
        }
        let m = self.mode;
        match self.enc {
            Encoding::Ascii => singlebyte::ascii_step_exec(m, &mut self.pending, b, output),
            Encoding::Utf8 => utf_8::utf8_step_exec(m, &mut self.pending, b, output),
            Encoding::Utf16Le => utf_16::utf16_step_exec(false, m, &mut self.pending, b, output),
            Encoding::Utf16Be => utf_16::utf16_step_exec(true, m, &mut self.pending, b, output),
            Encoding::EucJp => japanese::eucjp_step_exec(m, &mut self.pending, b, output),
            Encoding::Windows31J => japanese::sjis_step_exec(m, &mut self.pending, b, output),
            Encoding::Iso2022Jp => japanese::iso2022_step_exec(
                &mut self.mode,
                &mut self.pending,
                b,
                output,
            ),
            Encoding::Windows949 => korean::euckr_step_exec(m, &mut self.pending, b, output),
            Encoding::Gbk => simpchinese::gb_step_exec(m, &mut self.pending, b, output),
            Encoding::Gb18030 => simpchinese::gb_step_exec(m, &mut self.pending, b, output),
            Encoding::Big5 => tradchinese::big5_step_exec(m, &mut self.pending, b, output),
            Encoding::Windows874 => singlebyte::sb_step_exec(
                Encoding::Windows874,
                m,
                &mut self.pending,
                b,
                output,
            ),
            Encoding::Windows1254 => singlebyte::sb_step_exec(
                Encoding::Windows1254,
                m,
                &mut self.pending,
                b,
                output,
            ),
            Encoding::Iso88592 => singlebyte::sb_step_exec(
                Encoding::Iso88592,
                m,
                &mut self.pending,
                b,
                output,
            ),
            Encoding::Iso88597 => singlebyte::sb_step_exec(
                Encoding::Iso88597,
                m,
                &mut self.pending,
                b,
                output,
            ),
            Encoding::XUserDefined => singlebyte::xud_step_exec(m, &mut self.pending, b, output),
        }
    }

    /// Push one chunk of bytes through the decoder, appending decoded
    /// characters to `output`.
    ///
    /// The returned count is the number of input bytes up to the end of the
    /// last completed unit; trailing bytes of an incomplete sequence are
    /// buffered but not counted.  On malformed input the count stops where
    /// the erroneous span begins, the error's `upto` points just past the
    /// span (negative when the span began in earlier chunks), and the
    /// decoder resets to its initial state.
    #[verifier::loop_isolation(false)]
    pub fn raw_feed(&mut self, input: &[u8], output: &mut Vec<char>) -> (r: (
        usize,
        Option<CodecError>,
    ))
        requires
            input@.len() <= isize::MAX,
            old(self).inv(),
        ensures
            final(self).spec_enc() == old(self).spec_enc(),
            final(self).inv(),
            (match dec_run(
                old(self).spec_enc(),
                old(self).spec_mode(),
                old(self).spec_pending(),
                input@,
            ) {
                Run::Done { m, p, out } => {
                    &&& r.1 is None
                    &&& final(output)@ == old(output)@ + out
                    &&& final(self).spec_mode() == m
                    &&& final(self).spec_pending() == p
                    &&& r.0 == (if input@.len() >= p.len() {
                        input@.len() - p.len()
                    } else {
                        0
                    })
                },
                Run::Halt { out, start, upto } => {
                    &&& final(output)@ == old(output)@ + out
                    &&& final(self).is_fresh(old(self).spec_enc())
                    &&& r.0 == (if start >= 0 {
                        start
                    } else {
                        0
                    })
                    &&& r.1 matches Some(err) && err.upto == upto && err.cause@
                        == "invalid byte sequence"@
                },
            }),
    {
        let ghost e = self.enc;
        let ghost m0 = self.mode;
        let ghost p0 = self.pending@;
        let ghost n0 = output@.len();
        let mut i: usize = 0;
        proof {
            assert(output@.skip(n0 as int) =~= Seq::<char>::empty());
            assert(input@.take(0int) =~= Seq::<u8>::empty());
        }
        while i < input.len()
            invariant
                i <= input.len(),
                input@.len() <= isize::MAX,
                self.enc == e,
                self.pending@.len() <= 3,
                n0 <= output@.len(),
                old(output)@ == output@.take(n0 as int),
                (dec_run(e, m0, p0, input@.take(i as int)) == Run::Done {
                    m: self.mode,
                    p: self.pending@,
                    out: output@.skip(n0 as int),
                }),
            decreases input.len() - i,
        {
            let b = input[i];
            let ghost mode_i = self.mode;
            let ghost pend_i = self.pending@;
            let ghost out_pre = output@;
            proof {
                lemma_dec_run_snoc(e, m0, p0, input@.take(i as int), b);
                assert(input@.take(i as int).push(b) =~= input@.take(i + 1));
                lemma_step_pending_bound(e, mode_i, pend_i, b);
            }
            let r = self.step_byte(b, output);
            match r {
                None => {
                    proof {
                        if let Step::Next { out: o, .. } = dec_step(e, mode_i, pend_i, b) {
                            assert(output@.skip(n0 as int) =~= out_pre.skip(n0 as int) + o);
                            assert(output@.take(n0 as int) =~= out_pre.take(n0 as int));
                        }
                    }
                },
                Some(f) => {
                    let pend_len = self.pending.len();
                    let start_i: isize = if f.plen > 0 {
                        i as isize - pend_len as isize
                    } else {
                        i as isize
                    };
                    let upto: isize = if f.eat {
                        i as isize + 1
                    } else {
                        start_i + f.plen as isize
                    };
                    let consumed: usize = if start_i >= 0 {
                        start_i as usize
                    } else {
                        0
                    };
                    self.pending = Vec::new();
                    self.mode = 0;
                    proof {
                        assert(input@.take(i + 1).len() == i + 1);
                        lemma_dec_run_halts(e, m0, p0, input@.take(i + 1), input@);
                        assert(output@ =~= output@.take(n0 as int) + output@.skip(n0 as int));
                    }
                    return (consumed, Some(CodecError { upto, cause: "invalid byte sequence" }));
                },
            }
            i += 1;
        }
        proof {
            assert(input@.take(i as int) =~= input@);
            assert(output@ =~= output@.take(n0 as int) + output@.skip(n0 as int));
        }
        let pend_len = self.pending.len();
        let consumed: usize = if input.len() >= pend_len {
            input.len() - pend_len
        } else {
            0
        };
        (consumed, None)
    }

    /// Signal end of stream.
    ///
    /// A non-empty pending buffer is a truncated sequence: the error's
    /// `upto` points just past the erroneous span, counted back from the end
    /// of everything fed so far.  The decoder is reset either way, so a
    /// second `raw_finish` reports nothing.
    pub fn raw_finish(&mut self, output: &mut Vec<char>) -> (r: Option<CodecError>)
        requires
            old(self).inv(),
        ensures
            final(self).is_fresh(old(self).spec_enc()),
            final(self).inv(),
            final(output)@ == old(output)@,
            (if old(self).spec_pending().len() == 0 {
                r is None
            } else {
                r matches Some(err) && err.upto == finish_plen(
                    old(self).spec_enc(),
                    old(self).spec_pending(),
                ) - old(self).spec_pending().len() && err.cause@ == "incomplete byte sequence"@
            }),
    {
        let pend_len = self.pending.len();
        let is_iso = matches!(self.enc, Encoding::Iso2022Jp);
        self.pending = Vec::new();
        self.mode = 0;
        if pend_len == 0 {
            None
        } else {
            let plen: usize = if is_iso && pend_len > 2 {
                2
            } else {
                pend_len
            };
            Some(
                CodecError {
                    upto: plen as isize - pend_len as isize,
                    cause: "incomplete byte sequence",
                },
            )
        }
    }
}

/// The effect of one character on one encoder state.
#[verifier::ext_equal]
pub enum EStep {
    /// The character was encoded: new shift mode and emitted bytes.
    Put { m: u8, out: Seq<u8> },
    /// The encoding cannot represent the character.
    Unmap,
}

/// The effect of a whole character chunk on one encoder state.  On `Halt`,
/// `at` is the index of the unmappable character.
#[verifier::ext_equal]
pub enum ERun {
    /// The whole chunk was encoded.
    Done { m: u8, out: Seq<u8> },
    /// An unmappable character part way through the chunk.
    Halt { m: u8, out: Seq<u8>, at: int },
}

/// The effect of one character `c` on the encoder state `m` of encoding `e`.
#[verifier::opaque]
pub open spec fn enc_step(e: Encoding, m: u8, c: char) -> EStep {
    match e {
        Encoding::Ascii => singlebyte::ascii_enc_step(m, c),
        Encoding::Utf8 => utf_8::utf8_enc_step(m, c),
        Encoding::Utf16Le => utf_16::utf16_enc_step(false, m, c),
        Encoding::Utf16Be => utf_16::utf16_enc_step(true, m, c),
        Encoding::EucJp => lookup::oracle_enc_step("euc-jp"@, m, c),
        Encoding::Windows31J => lookup::oracle_enc_step("shift_jis"@, m, c),
        Encoding::Iso2022Jp => japanese::iso2022_enc_step(m, c),
        Encoding::Windows949 => lookup::oracle_enc_step("euc-kr"@, m, c),
        Encoding::Gbk => lookup::oracle_enc_step("gbk"@, m, c),
        Encoding::Gb18030 => simpchinese::gb18030_enc_step(m, c),
        Encoding::Big5 => lookup::oracle_enc_step("big5"@, m, c),
        Encoding::Windows874 => singlebyte::sb_enc_step(e, m, c),
        Encoding::Windows1254 => singlebyte::sb_enc_step(e, m, c),
        Encoding::Iso88592 => lookup::oracle_enc_step("iso-8859-2"@, m, c),
        Encoding::Iso88597 => lookup::oracle_enc_step("iso-8859-7"@, m, c),
        Encoding::XUserDefined => singlebyte::xud_enc_step(m, c),
    }
}

/// The fold of [`enc_step`] over a chunk: encoding stops at the first
/// unmappable character.
pub open spec fn enc_run(e: Encoding, m: u8, input: Seq<char>) -> ERun
    decreases input.len(),
{
    if input.len() == 0 {
        ERun::Done { m, out: Seq::empty() }
    } else {
        match enc_step(e, m, input[0]) {
            EStep::Unmap => ERun::Halt { m, out: Seq::empty(), at: 0 },
            EStep::Put { m: m2, out } => match enc_run(e, m2, input.drop_first()) {
                ERun::Done { m: m3, out: out2 } => ERun::Done { m: m3, out: out + out2 },
                ERun::Halt { m: m3, out: out2, at } => ERun::Halt {
                    m: m3,
                    out: out + out2,
                    at: at + 1,
                },
            },
        }
    }
}

/// An incremental encoder for one encoding: feed character chunks, collect
/// bytes.
pub struct RawEncoderImpl {
    enc: Encoding,
    mode: u8,
}

impl RawEncoderImpl {
    /// The encoding this encoder encodes to.
    pub fn encoding(&self) -> (r: Encoding)
        ensures
            r == self.spec_enc(),
    {
        self.enc
    }

    /// The encoding, for contracts.
    pub closed spec fn spec_enc(self) -> Encoding {
        self.enc
    }

    /// The shift mode, for contracts.
    pub closed spec fn spec_mode(self) -> u8 {
        self.mode
    }

    /// An encoder in its initial state.
    pub open spec fn is_fresh(self, e: Encoding) -> bool {
        self.spec_enc() == e && self.spec_mode() == 0
    }

    /// A fresh encoder for the given encoding.
    pub fn new(enc: Encoding) -> (r: RawEncoderImpl)
        ensures
            r.is_fresh(enc),
    {
        RawEncoderImpl { enc, mode: 0 }
    }

    /// A fresh encoder for the same encoding, leaving this one untouched.
    pub fn from_self(&self) -> (r: RawEncoderImpl)
        ensures
            r.is_fresh(self.spec_enc()),
    {
        RawEncoderImpl::new(self.enc)
    }

    /// Whether bytes below 0x80 always stand for the ASCII characters.
    pub fn is_ascii_compatible(&self) -> (r: bool)
        ensures
            r == (self.spec_enc() != Encoding::Utf16Le && self.spec_enc() != Encoding::Utf16Be),
    {
        self.enc.is_ascii_compatible()
    }

    /// One character of input: run [`enc_step`] on the live state.
    fn step_char(&mut self, c: char, output: &mut Vec<u8>) -> (ok: bool)
        ensures
            final(self).spec_enc() == old(self).spec_enc(),
            (match enc_step(old(self).spec_enc(), old(self).spec_mode(), c) {
                EStep::Put { m, out } => {
                    &&& ok
                    &&& final(self).spec_mode() == m
                    &&& final(output)@ == old(output)@ + out
                },
                EStep::Unmap => {
                    &&& !ok
                    &&& final(self).spec_mode() == old(self).spec_mode()
                    &&& final(output)@ == old(output)@
                },
            }),
    {
        proof {
            reveal(enc_step);
        }
        let m = self.mode;
        let r: (u8, bool) = match self.enc {
            Encoding::Ascii => singlebyte::ascii_enc_exec(m, c, output),
            Encoding::Utf8 => utf_8::utf8_enc_exec(m, c, output),
            Encoding::Utf16Le => utf_16::utf16_enc_exec(false, m, c, output),
            Encoding::Utf16Be => utf_16::utf16_enc_exec(true, m, c, output),
            Encoding::EucJp => lookup::oracle_enc_exec("euc-jp", m, c, output),
            Encoding::Windows31J => lookup::oracle_enc_exec("shift_jis", m, c, output),
            Encoding::Iso2022Jp => japanese::iso2022_enc_exec(m, c, output),
            Encoding::Windows949 => lookup::oracle_enc_exec("euc-kr", m, c, output),
            Encoding::Gbk => lookup::oracle_enc_exec("gbk", m, c, output),
            Encoding::Gb18030 => simpchinese::gb18030_enc_exec(m, c, output),
            Encoding::Big5 => lookup::oracle_enc_exec("big5", m, c, output),
            Encoding::Windows874 => singlebyte::sb_enc_exec(Encoding::Windows874, m, c, output),
            Encoding::Windows1254 => singlebyte::sb_enc_exec(Encoding::Windows1254, m, c, output),
            Encoding::Iso88592 => lookup::oracle_enc_exec("iso-8859-2", m, c, output),
            Encoding::Iso88597 => lookup::oracle_enc_exec("iso-8859-7", m, c, output),
            Encoding::XUserDefined => singlebyte::xud_enc_exec(m, c, output),
        };
        self.mode = r.0;
        r.1
    }

    /// Push one chunk of characters through the encoder, appending encoded
    /// bytes to `output`.
    ///
    /// On an unmappable character the returned count is its index, the
    /// error's `upto` points just past it, and the characters before it are
    /// already encoded; the encoder keeps its shift state so that the caller
    /// can resume after the offending character.
    #[verifier::loop_isolation(false)]
    pub fn raw_feed(&mut self, input: &[char], output: &mut Vec<u8>) -> (r: (
        usize,
        Option<CodecError>,
    ))
        requires
            input@.len() <= isize::MAX,
        ensures
            final(self).spec_enc() == old(self).spec_enc(),
            (match enc_run(old(self).spec_enc(), old(self).spec_mode(), input@) {
                ERun::Done { m, out } => {
                    &&& r.1 is None
                    &&& r.0 == input@.len()
                    &&& final(output)@ == old(output)@ + out
                    &&& final(self).spec_mode() == m
                },
                ERun::Halt { m, out, at } => {
                    &&& final(output)@ == old(output)@ + out
                    &&& final(self).spec_mode() == m
                    &&& r.0 == at
                    &&& r.1 matches Some(err) && err.upto == at + 1 && err.cause@
                        == "unrepresentable character"@
                },
            }),
    {
        let ghost e = self.enc;
        let ghost m0 = self.mode;
        let ghost n0 = output@.len();
        let mut i: usize = 0;
        proof {
            assert(output@.skip(n0 as int) =~= Seq::<u8>::empty());
            assert(input@.take(0int) =~= Seq::<char>::empty());
        }
        while i < input.len()
            invariant
                i <= input.len(),
                self.enc == e,
                n0 <= output@.len(),
                old(output)@ == output@.take(n0 as int),
                (enc_run(e, m0, input@.take(i as int)) == ERun::Done {
                    m: self.mode,
                    out: output@.skip(n0 as int),
                }),
            decreases input.len() - i,
        {
            let c = input[i];
            let ghost mode_i = self.mode;
            let ghost out_pre = output@;
            proof {
                lemma_enc_run_snoc(e, m0, input@.take(i as int), c);
                assert(input@.take(i as int).push(c) =~= input@.take(i + 1));
            }
            let ok = self.step_char(c, output);
            if !ok {
                proof {
                    assert(input@.take(i + 1).len() == i + 1);
                    lemma_enc_run_halts(e, m0, input@.take(i + 1), input@);
                    assert(output@ =~= output@.take(n0 as int) + output@.skip(n0 as int));
                }
                return (i, Some(CodecError { upto: i as isize + 1, cause: "unrepresentable character" }));
            }
            proof {
                if let EStep::Put { out: o, .. } = enc_step(e, mode_i, c) {
                    assert(output@.skip(n0 as int) =~= out_pre.skip(n0 as int) + o);
                    assert(output@.take(n0 as int) =~= out_pre.take(n0 as int));
                }
            }
            i += 1;
        }
        proof {
            assert(input@.take(i as int) =~= input@);
            assert(output@ =~= output@.take(n0 as int) + output@.skip(n0 as int));
        }
        (input.len(), None)
    }

    /// Signal end of stream: an encoder has no pending state to drain, so
    /// this reports nothing and emits nothing.
    pub fn raw_finish(&mut self, output: &mut Vec<u8>) -> (r: Option<CodecError>)
        ensures
            *final(self) == *old(self),
            final(output)@ == old(output)@,
            r is None,
    {
        None
    }
}

/// Unfolding [`enc_run`] from the right.
pub proof fn lemma_enc_run_snoc(e: Encoding, m: u8, xs: Seq<char>, c: char)
    ensures
        (enc_run(e, m, xs.push(c)) == (match enc_run(e, m, xs) {
            ERun::Done { m: m2, out } => (match enc_step(e, m2, c) {
                EStep::Put { m: m3, out: out2 } => ERun::Done { m: m3, out: out + out2 },
                EStep::Unmap => ERun::Halt { m: m2, out, at: xs.len() as int },
            }),
            ERun::Halt { m: m2, out, at } => ERun::Halt { m: m2, out, at },
        })),
    decreases xs.len(),
{
    reveal_with_fuel(enc_run, 3);
    if xs.len() == 0 {
        assert(xs.push(c).drop_first() =~= Seq::<char>::empty());
        assert(xs.push(c)[0] == c);
        match enc_step(e, m, c) {
            EStep::Put { m: m2, out } => {
                assert(Seq::<u8>::empty() + out =~= out + Seq::<u8>::empty());
            },
            EStep::Unmap => {},
        }
    } else {
        assert(xs.push(c)[0] == xs[0]);
        assert(xs.push(c).drop_first() =~= xs.drop_first().push(c));
        match enc_step(e, m, xs[0]) {
            EStep::Put { m: m2, out } => {
                lemma_enc_run_snoc(e, m2, xs.drop_first(), c);
                match enc_run(e, m2, xs.drop_first()) {
                    ERun::Done { m: m3, out: out2 } => {
                        match enc_step(e, m3, c) {
                            EStep::Put { out: out3, .. } => {
                                assert(out + (out2 + out3) =~= (out + out2) + out3);
                            },
                            EStep::Unmap => {},
                        }
                    },
                    ERun::Halt { .. } => {},
                }
            },
            EStep::Unmap => {},
        }
    }
}

/// Once an encoding run halts, appending more characters changes nothing.
pub proof fn lemma_enc_run_halts(e: Encoding, m: u8, xs: Seq<char>, ys: Seq<char>)
    requires
        xs.len() <= ys.len(),
        xs == ys.take(xs.len() as int),
        enc_run(e, m, xs) is Halt,
    ensures
        enc_run(e, m, ys) == enc_run(e, m, xs),
    decreases xs.len(),
{
    reveal_with_fuel(enc_run, 3);
    if xs.len() == 0 {
    } else {
        assert(ys[0] == xs[0]);
        match enc_step(e, m, xs[0]) {
            EStep::Put { m: m2, out } => {
                assert(xs.drop_first() =~= ys.drop_first().take(xs.len() - 1));
                lemma_enc_run_halts(e, m2, xs.drop_first(), ys.drop_first());
            },
            EStep::Unmap => {},
        }
    }
}

/// A step never leaves more than three bytes pending, never grows the
/// pending buffer by more than the byte it was given, and never reports an
/// empty erroneous span.
#[verifier::rlimit(100)]
pub proof fn lemma_step_pending_bound(e: Encoding, m: u8, p: Seq<u8>, b: u8)
    ensures
        (match dec_step(e, m, p, b) {
            Step::Next { p: p2, .. } => p2.len() <= 3 && p2.len() <= p.len() + 1,
            Step::Fail { plen, eat } => plen <= p.len() && (plen >= 1 || eat),
        }),
{
    reveal(dec_step);
    reveal(singlebyte::ascii_step);
    reveal(singlebyte::xud_step);
    reveal(singlebyte::sb_step);
    reveal(utf_8::utf8_step);
    reveal(utf_16::utf16_step);
    reveal(japanese::eucjp_step);
    reveal(japanese::sjis_step);
    reveal(japanese::iso2022_step);
    reveal(korean::euckr_step);
    reveal(simpchinese::gb_step);
    reveal(tradchinese::big5_step);
}

/// Position bounds of a whole run: the pending buffer only grows by the
/// bytes fed, and an erroneous span is non-empty, begins no earlier than
/// the pending bytes carried in, and ends within the chunk.  From a fresh
/// state this is the forward-progress guarantee: a resumption point
/// (`upto`) always lies strictly past the start of the erroneous span, so
/// a trap that substitutes and resumes never revisits an input position.
pub proof fn lemma_dec_run_bounds(e: Encoding, m: u8, p: Seq<u8>, input: Seq<u8>)
    ensures
        (match dec_run(e, m, p, input) {
            Run::Done { p: p2, .. } => p2.len() <= p.len() + input.len(),
            Run::Halt { start, upto, .. } => {
                &&& -(p.len() as int) <= start
                &&& start < upto
                &&& upto <= input.len()
            },
        }),
    decreases input.len(),
{
    if input.len() == 0 {
    } else {
        lemma_step_pending_bound(e, m, p, input[0]);
        match dec_step(e, m, p, input[0]) {
            Step::Next { m: m2, p: p2, .. } => {
                lemma_dec_run_bounds(e, m2, p2, input.drop_first());
            },
            Step::Fail { .. } => {},
        }
    }
}

/// Position bounds of a whole encoding run: an unmappable character lies
/// within the chunk.
pub proof fn lemma_enc_run_bounds(e: Encoding, m: u8, input: Seq<char>)
    ensures
        (match enc_run(e, m, input) {
            ERun::Done { .. } => true,
            ERun::Halt { at, .. } => 0 <= at && at < input.len(),
        }),
    decreases input.len(),
{
    if input.len() == 0 {
    } else {
        match enc_step(e, m, input[0]) {
            EStep::Put { m: m2, .. } => {
                lemma_enc_run_bounds(e, m2, input.drop_first());
            },
            EStep::Unmap => {},
        }
    }
}

/// Unfolding [`dec_run`] from the right: running a chunk extended by one
/// byte is running the chunk, then stepping on the byte.
pub proof fn lemma_dec_run_snoc(e: Encoding, m: u8, p: Seq<u8>, xs: Seq<u8>, b: u8)
    ensures
        (dec_run(e, m, p, xs.push(b)) == (match dec_run(e, m, p, xs) {
            Run::Done { m: m2, p: p2, out } => (match dec_step(e, m2, p2, b) {
                Step::Next { m: m3, p: p3, out: out2 } => Run::Done {
                    m: m3,
                    p: p3,
                    out: out + out2,
                },
                Step::Fail { plen, eat } => {
                    let start: int = if plen > 0 {
                        xs.len() - p2.len()
                    } else {
                        xs.len() as int
                    };
                    let upto: int = if eat {
                        xs.len() + 1int
                    } else {
                        start + plen
                    };
                    Run::Halt { out, start, upto }
                },
            }),
            Run::Halt { out, start, upto } => Run::Halt { out, start, upto },
        })),
    decreases xs.len(),
{
    reveal_with_fuel(dec_run, 3);
    if xs.len() == 0 {
        assert(xs.push(b).drop_first() =~= Seq::<u8>::empty());
        assert(xs.push(b)[0] == b);
        match dec_step(e, m, p, b) {
            Step::Next { m: m2, p: p2, out } => {
                assert(Seq::<char>::empty() + out =~= out + Seq::<char>::empty());
            },
            Step::Fail { .. } => {},
        }
    } else {
        assert(xs.push(b)[0] == xs[0]);
        assert(xs.push(b).drop_first() =~= xs.drop_first().push(b));
        match dec_step(e, m, p, xs[0]) {
            Step::Next { m: m2, p: p2, out } => {
                lemma_dec_run_snoc(e, m2, p2, xs.drop_first(), b);
                match dec_run(e, m2, p2, xs.drop_first()) {
                    Run::Done { m: m3, p: p3, out: out2 } => {
                        match dec_step(e, m3, p3, b) {
                            Step::Next { out: out3, .. } => {
                                assert(out + (out2 + out3) =~= (out + out2) + out3);
                            },
                            Step::Fail { .. } => {},
                        }
                    },
                    Run::Halt { .. } => {},
                }
            },
            Step::Fail { .. } => {},
        }
    }
}

/// Once a run halts, feeding more bytes changes nothing: the fold on any
/// longer chunk with the same prefix halts identically.
pub proof fn lemma_dec_run_halts(e: Encoding, m: u8, p: Seq<u8>, xs: Seq<u8>, ys: Seq<u8>)
    requires
        xs.len() <= ys.len(),
        xs == ys.take(xs.len() as int),
        dec_run(e, m, p, xs) is Halt,
    ensures
        dec_run(e, m, p, ys) == dec_run(e, m, p, xs),
    decreases xs.len(),
{
    reveal_with_fuel(dec_run, 3);
    if xs.len() == 0 {
    } else {
        assert(ys[0] == xs[0]);
        match dec_step(e, m, p, xs[0]) {
            Step::Next { m: m2, p: p2, out } => {
                assert(xs.drop_first() =~= ys.drop_first().take(xs.len() - 1));
                lemma_dec_run_halts(e, m2, p2, xs.drop_first(), ys.drop_first());
            },
            Step::Fail { .. } => {},
        }
    }
}


/// Composing runs: a chunk that decodes cleanly followed by any second
/// chunk behaves exactly like the concatenation fed at once, with the
/// second chunk's positions shifted by the first chunk's length.
pub proof fn lemma_dec_run_concat(e: Encoding, m: u8, p: Seq<u8>, a: Seq<u8>, b: Seq<u8>)
    requires
        dec_run(e, m, p, a) is Done,
    ensures
        (match dec_run(e, m, p, a) {
            Run::Done { m: m1, p: p1, out: out1 } => dec_run(e, m, p, a + b) == (match dec_run(
                e,
                m1,
                p1,
                b,
            ) {
                Run::Done { m: m2, p: p2, out: out2 } => Run::Done {
                    m: m2,
                    p: p2,
                    out: out1 + out2,
                },
                Run::Halt { out: out2, start, upto } => Run::Halt {
                    out: out1 + out2,
                    start: start + a.len(),
                    upto: upto + a.len(),
                },
            }),
            Run::Halt { .. } => true,
        }),
    decreases a.len(),
{
    reveal_with_fuel(dec_run, 3);
    if a.len() == 0 {
        assert(a + b =~= b);
        match dec_run(e, m, p, b) {
            Run::Done { out: out2, .. } => {
                assert(Seq::<char>::empty() + out2 =~= out2);
            },
            Run::Halt { out: out2, .. } => {
                assert(Seq::<char>::empty() + out2 =~= out2);
            },
        }
    } else {
        assert((a + b)[0] == a[0]);
        assert((a + b).drop_first() =~= a.drop_first() + b);
        match dec_step(e, m, p, a[0]) {
            Step::Next { m: m2, p: p2, out } => {
                lemma_dec_run_concat(e, m2, p2, a.drop_first(), b);
                match dec_run(e, m2, p2, a.drop_first()) {
                    Run::Done { m: m1, p: p1, out: out1 } => {
                        match dec_run(e, m1, p1, b) {
                            Run::Done { out: out2, .. } => {
                                assert(out + (out1 + out2) =~= (out + out1) + out2);
                            },
                            Run::Halt { out: out2, .. } => {
                                assert(out + (out1 + out2) =~= (out + out1) + out2);
                            },
                        }
                    },
                    Run::Halt { .. } => {},
                }
            },
            Step::Fail { .. } => {},
        }
    }
}

/// Feeding a list of chunks through [`dec_run`] one after another,
/// carrying the machine state across the chunk boundaries.
pub open spec fn dec_run_chunks(e: Encoding, m: u8, p: Seq<u8>, chunks: Seq<Seq<u8>>) -> Run
    decreases chunks.len(),
{
    if chunks.len() == 0 {
        Run::Done { m, p, out: Seq::empty() }
    } else {
        match dec_run(e, m, p, chunks[0]) {
            Run::Done { m: m2, p: p2, out } => (match dec_run_chunks(
                e,
                m2,
                p2,
                chunks.drop_first(),
            ) {
                Run::Done { m: m3, p: p3, out: out2 } => Run::Done { m: m3, p: p3, out: out + out2 },
                Run::Halt { out: out2, start, upto } => Run::Halt {
                    out: out + out2,
                    start: start + chunks[0].len(),
                    upto: upto + chunks[0].len(),
                },
            }),
            Run::Halt { out, start, upto } => Run::Halt { out, start, upto },
        }
    }
}

/// Chunk-split invariance: for every way of splitting a byte stream into
/// consecutive chunks, streaming the chunks through the decoder one call at
/// a time produces exactly the run of the whole stream fed at once - the
/// same decoded text, the same final state, and on malformed input the same
/// erroneous span, at its position in the whole stream.
pub proof fn lemma_chunk_split_invariance(e: Encoding, m: u8, p: Seq<u8>, chunks: Seq<Seq<u8>>)
    ensures
        dec_run_chunks(e, m, p, chunks) == dec_run(e, m, p, chunks.flatten()),
    decreases chunks.len(),
{
    reveal_with_fuel(dec_run, 2);
    if chunks.len() == 0 {
        assert(chunks.flatten() =~= Seq::<u8>::empty());
    } else {
        assert(chunks.flatten() =~= chunks[0] + chunks.drop_first().flatten());
        match dec_run(e, m, p, chunks[0]) {
            Run::Done { m: m2, p: p2, out } => {
                lemma_chunk_split_invariance(e, m2, p2, chunks.drop_first());
                lemma_dec_run_concat(e, m, p, chunks[0], chunks.drop_first().flatten());
            },
            Run::Halt { .. } => {
                assert(chunks[0] =~= chunks.flatten().take(chunks[0].len() as int));
                lemma_dec_run_halts(e, m, p, chunks[0], chunks.flatten());
            },
        }
    }
}


/// Round trip: for every character an encoding can represent, decoding
/// what the encoder emitted yields that character again.  Stated here for
/// the encodings whose mapping is arithmetic or carried as a table by this
/// crate: ASCII, UTF-8, UTF-16 in both byte orders, x-user-defined, the
/// windows-874 and windows-1254 code pages, and the four-byte linear form
/// of GB18030 (every supplementary-plane character).
pub proof fn lemma_round_trip(e: Encoding, c: char)
    requires
        e == Encoding::Ascii || e == Encoding::Utf8 || e == Encoding::Utf16Le || e
            == Encoding::Utf16Be || e == Encoding::XUserDefined || e == Encoding::Windows874 || e
            == Encoding::Windows1254 || (e == Encoding::Gb18030 && c as u32 >= 0x10000),
    ensures
        (match enc_run(e, 0, seq![c]) {
            ERun::Done { m, out } => dec_run(e, 0, Seq::empty(), out) == (Run::Done {
                m: 0,
                p: Seq::empty(),
                out: seq![c],
            }),
            ERun::Halt { .. } => true,
        }),
{
    match e {
        Encoding::Ascii => lemma_round_trip_one_byte(e, c),
        Encoding::Utf8 => lemma_round_trip_utf8(c),
        Encoding::Utf16Le => lemma_round_trip_utf16(false, c),
        Encoding::Utf16Be => lemma_round_trip_utf16(true, c),
        Encoding::XUserDefined => lemma_round_trip_one_byte(e, c),
        Encoding::Windows874 => lemma_round_trip_one_byte(e, c),
        Encoding::Windows1254 => lemma_round_trip_one_byte(e, c),
        Encoding::Gb18030 => lemma_round_trip_gb_four(c),
        _ => {},
    }
}

/// Encoding a single character yields the run that decodes it back: the
/// one-shot form, given the per-byte walk.
proof fn lemma_enc_single(e: Encoding, c: char, out: Seq<u8>)
    requires
        enc_step(e, 0, c) == (EStep::Put { m: 0, out }),
        1 <= out.len() <= 4,
        decode_steps_to(e, out, c),
    ensures
        (match enc_run(e, 0, seq![c]) {
            ERun::Done { m, out: o } => dec_run(e, 0, Seq::empty(), o) == (Run::Done {
                m: 0,
                p: Seq::empty(),
                out: seq![c],
            }),
            ERun::Halt { .. } => true,
        }),
{
    reveal_with_fuel(enc_run, 3);
    assert(seq![c].drop_first() =~= Seq::<char>::empty());
    assert(enc_run(e, 0, seq![c]) == ERun::Done { m: 0, out: out + Seq::<u8>::empty() });
    assert(out + Seq::<u8>::empty() =~= out);
    lemma_decode_steps(e, out, c);
}

/// Round trip for the encodings that emit one byte per character.
#[verifier::rlimit(100)]
proof fn lemma_round_trip_one_byte(e: Encoding, c: char)
    requires
        e == Encoding::Ascii || e == Encoding::XUserDefined || e == Encoding::Windows874 || e
            == Encoding::Windows1254,
    ensures
        (match enc_run(e, 0, seq![c]) {
            ERun::Done { m, out } => dec_run(e, 0, Seq::empty(), out) == (Run::Done {
                m: 0,
                p: Seq::empty(),
                out: seq![c],
            }),
            ERun::Halt { .. } => true,
        }),
{
    reveal(enc_step);
    reveal(dec_step);
    reveal(singlebyte::ascii_step);
    reveal(singlebyte::xud_step);
    reveal(singlebyte::sb_step);
    reveal(singlebyte::ascii_enc_step);
    reveal(singlebyte::xud_enc_step);
    reveal(singlebyte::sb_enc_step);
    reveal_with_fuel(enc_run, 3);
    vstd::utf8::char_is_scalar(c);
    vstd::utf8::char_u32_cast(c, c as u32);
    let u = c as u32;
    if e == Encoding::Windows874 {
        crate::index::windows_874::lemma_tables_inverse(u);
    }
    if e == Encoding::Windows1254 {
        crate::index::windows_1254::lemma_tables_inverse(u);
    }
    match enc_step(e, 0, c) {
        EStep::Unmap => {
            assert(seq![c].drop_first() =~= Seq::<char>::empty());
            assert(enc_run(e, 0, seq![c]) is Halt);
        },
        EStep::Put { m: m1, out } => {
            assert(out.len() == 1);
            assert(dec_step(e, 0, Seq::empty(), out[0]) =~= (Step::Next {
                m: 0,
                p: Seq::empty(),
                out: seq![c],
            }));
            assert(decode_steps_to(e, out, c));
            lemma_enc_single(e, c, out);
        },
    }
}

/// Round trip for UTF-16 in either byte order.
#[verifier::rlimit(100)]
proof fn lemma_round_trip_utf16(be: bool, c: char)
    ensures
        (match enc_run((if be {
            Encoding::Utf16Be
        } else {
            Encoding::Utf16Le
        }), 0, seq![c]) {
            ERun::Done { m, out } => dec_run((if be {
                Encoding::Utf16Be
            } else {
                Encoding::Utf16Le
            }), 0, Seq::empty(), out) == (Run::Done { m: 0, p: Seq::empty(), out: seq![c] }),
            ERun::Halt { .. } => true,
        }),
{
    reveal(enc_step);
    reveal(dec_step);
    reveal(utf_16::utf16_step);
    reveal(utf_16::utf16_enc_step);
    vstd::utf8::char_is_scalar(c);
    vstd::utf8::char_u32_cast(c, c as u32);
    let e = if be {
        Encoding::Utf16Be
    } else {
        Encoding::Utf16Le
    };
    let u = c as u32;
    match enc_step(e, 0, c) {
        EStep::Unmap => {},
        EStep::Put { m: m1, out } => {
            if u < 0x10000 {
                assert(out.len() == 2);
                lemma_utf16_unit_inverse(be, u);
                assert(utf_16::unit_val(be, out[0], out[1]) == u);
                assert(dec_step(e, 0, Seq::empty(), out[0]) =~= (Step::Next {
                    m: 0,
                    p: seq![out[0]],
                    out: Seq::empty(),
                }));
                assert(dec_step(e, 0, seq![out[0]], out[1]) =~= (Step::Next {
                    m: 0,
                    p: Seq::empty(),
                    out: seq![c],
                }));
                assert(decode_steps_from(e, 0, seq![out[0]], out, 1, c));
                assert(decode_steps_to(e, out, c));
            } else {
                let v = u - 0x10000;
                let hi = (0xD800 + v / 0x400) as u32;
                let lo = (0xDC00 + v % 0x400) as u32;
                assert(out =~= utf_16::unit_bytes(be, hi) + utf_16::unit_bytes(be, lo));
                assert(out.len() == 4);
                lemma_utf16_unit_inverse(be, hi);
                lemma_utf16_unit_inverse(be, lo);
                assert(utf_16::unit_val(be, out[0], out[1]) == hi);
                assert(utf_16::unit_val(be, out[2], out[3]) == lo);
                assert(utf_16::combine_surrogates(hi, lo) == u);
                assert(dec_step(e, 0, Seq::empty(), out[0]) =~= (Step::Next {
                    m: 0,
                    p: seq![out[0]],
                    out: Seq::empty(),
                }));
                assert(dec_step(e, 0, seq![out[0]], out[1]) =~= (Step::Next {
                    m: 0,
                    p: seq![out[0], out[1]],
                    out: Seq::empty(),
                }));
                assert(dec_step(e, 0, seq![out[0], out[1]], out[2]) =~= (Step::Next {
                    m: 0,
                    p: seq![out[0], out[1], out[2]],
                    out: Seq::empty(),
                }));
                assert(dec_step(e, 0, seq![out[0], out[1], out[2]], out[3]) =~= (Step::Next {
                    m: 0,
                    p: Seq::empty(),
                    out: seq![c],
                }));
                assert(decode_steps_from(e, 0, seq![out[0], out[1], out[2]], out, 3, c));
                assert(decode_steps_from(e, 0, seq![out[0], out[1]], out, 2, c));
                assert(decode_steps_from(e, 0, seq![out[0]], out, 1, c));
                assert(decode_steps_to(e, out, c));
            }
            lemma_enc_single(e, c, out);
        },
    }
}

/// Round trip for UTF-8.
#[verifier::rlimit(100)]
proof fn lemma_round_trip_utf8(c: char)
    ensures
        (match enc_run(Encoding::Utf8, 0, seq![c]) {
            ERun::Done { m, out } => dec_run(Encoding::Utf8, 0, Seq::empty(), out) == (Run::Done {
                m: 0,
                p: Seq::empty(),
                out: seq![c],
            }),
            ERun::Halt { .. } => true,
        }),
{
    reveal(enc_step);
    reveal(dec_step);
    reveal(utf_8::utf8_step);
    reveal(utf_8::utf8_enc_step);
    vstd::utf8::char_is_scalar(c);
    vstd::utf8::char_u32_cast(c, c as u32);
    let e = Encoding::Utf8;
    let u = c as u32;
    match enc_step(e, 0, c) {
        EStep::Unmap => {},
        EStep::Put { m: m1, out } => {
            if u < 0x80 {
                assert(decode_steps_to(e, out, c));
            } else if u < 0x800 {
                assert(out.len() == 2);
                assert(utf_8::cp2(out[0], out[1]) == u);
                assert(dec_step(e, 0, seq![out[0]], out[1]) =~= (Step::Next {
                    m: 0,
                    p: Seq::empty(),
                    out: seq![c],
                }));
                assert(decode_steps_from(e, 0, seq![out[0]], out, 1, c));
                assert(decode_steps_to(e, out, c));
            } else if u < 0x10000 {
                assert(out.len() == 3);
                assert(utf_8::cp3(out[0], out[1], out[2]) == u);
                assert(dec_step(e, 0, seq![out[0]], out[1]) =~= (Step::Next {
                    m: 0,
                    p: seq![out[0], out[1]],
                    out: Seq::empty(),
                }));
                assert(dec_step(e, 0, seq![out[0], out[1]], out[2]) =~= (Step::Next {
                    m: 0,
                    p: Seq::empty(),
                    out: seq![c],
                }));
                assert(decode_steps_from(e, 0, seq![out[0], out[1]], out, 2, c));
                assert(decode_steps_from(e, 0, seq![out[0]], out, 1, c));
                assert(decode_steps_to(e, out, c));
            } else {
                assert(out.len() == 4);
                assert(utf_8::cp4(out[0], out[1], out[2], out[3]) == u);
                assert(dec_step(e, 0, seq![out[0]], out[1]) =~= (Step::Next {
                    m: 0,
                    p: seq![out[0], out[1]],
                    out: Seq::empty(),
                }));
                assert(dec_step(e, 0, seq![out[0], out[1]], out[2]) =~= (Step::Next {
                    m: 0,
                    p: seq![out[0], out[1], out[2]],
                    out: Seq::empty(),
                }));
                assert(dec_step(e, 0, seq![out[0], out[1], out[2]], out[3]) =~= (Step::Next {
                    m: 0,
                    p: Seq::empty(),
                    out: seq![c],
                }));
                assert(decode_steps_from(e, 0, seq![out[0], out[1], out[2]], out, 3, c));
                assert(decode_steps_from(e, 0, seq![out[0], out[1]], out, 2, c));
                assert(decode_steps_from(e, 0, seq![out[0]], out, 1, c));
                assert(decode_steps_to(e, out, c));
            }
            lemma_enc_single(e, c, out);
        },
    }
}

/// Round trip for the four-byte linear form of GB18030.
#[verifier::rlimit(100)]
proof fn lemma_round_trip_gb_four(c: char)
    requires
        c as u32 >= 0x10000,
    ensures
        (match enc_run(Encoding::Gb18030, 0, seq![c]) {
            ERun::Done { m, out } => dec_run(Encoding::Gb18030, 0, Seq::empty(), out)
                == (Run::Done { m: 0, p: Seq::empty(), out: seq![c] }),
            ERun::Halt { .. } => true,
        }),
{
    reveal(enc_step);
    reveal(dec_step);
    reveal(simpchinese::gb_step);
    reveal(simpchinese::gb18030_enc_step);
    vstd::utf8::char_is_scalar(c);
    vstd::utf8::char_u32_cast(c, c as u32);
    let e = Encoding::Gb18030;
    let u = c as u32;
    match enc_step(e, 0, c) {
        EStep::Unmap => {},
        EStep::Put { m: m1, out } => {
            let ptr = (u - 0x10000 + 189000) as int;
            assert(out =~= simpchinese::gb_four_bytes(ptr));
            assert(out.len() == 4);
            lemma_gb_pointer_inverse(ptr);
            assert(0x81 <= out[0] <= 0xFE);
            assert(0x30 <= out[1] <= 0x39);
            assert(0x81 <= out[2] <= 0xFE);
            assert(0x30 <= out[3] <= 0x39);
            assert(simpchinese::gb_pointer(out[0], out[1], out[2], out[3]) == ptr);
            assert(dec_step(e, 0, Seq::empty(), out[0]) =~= (Step::Next {
                m: 0,
                p: seq![out[0]],
                out: Seq::empty(),
            }));
            assert(dec_step(e, 0, seq![out[0]], out[1]) =~= (Step::Next {
                m: 0,
                p: seq![out[0], out[1]],
                out: Seq::empty(),
            }));
            assert(dec_step(e, 0, seq![out[0], out[1]], out[2]) =~= (Step::Next {
                m: 0,
                p: seq![out[0], out[1], out[2]],
                out: Seq::empty(),
            }));
            assert(dec_step(e, 0, seq![out[0], out[1], out[2]], out[3]) =~= (Step::Next {
                m: 0,
                p: Seq::empty(),
                out: seq![c],
            }));
            assert(decode_steps_from(e, 0, seq![out[0], out[1], out[2]], out, 3, c));
            assert(decode_steps_from(e, 0, seq![out[0], out[1]], out, 2, c));
            assert(decode_steps_from(e, 0, seq![out[0]], out, 1, c));
            assert(decode_steps_to(e, out, c));
            lemma_enc_single(e, c, out);
        },
    }
}

/// The byte pair of a 16-bit unit reassembles to the unit.
proof fn lemma_utf16_unit_inverse(be: bool, u: u32)
    ensures
        u < 0x10000 ==> utf_16::unit_val(
            be,
            utf_16::unit_bytes(be, u)[0],
            utf_16::unit_bytes(be, u)[1],
        ) == u,
{
}

/// The four digit positions of a GB18030 pointer reassemble to the pointer.
proof fn lemma_gb_pointer_inverse(ptr: int)
    ensures
        0 <= ptr <= 1237575 ==> (ptr / 12600) * 12600 + ((ptr / 1260) % 10) * 1260 + ((ptr / 10)
            % 126) * 10 + ptr % 10 == ptr,
{
    if 0 <= ptr <= 1237575 {
        assert((ptr / 12600) * 12600 + ((ptr / 1260) % 10) * 1260 + ((ptr / 10) % 126) * 10 + ptr
            % 10 == ptr) by (nonlinear_arith)
            requires
                0 <= ptr <= 1237575,
        ;
    }
}

/// A single-character emission decodes in one step.
proof fn lemma_decode_single(e: Encoding, out: Seq<u8>, c: char)
    requires
        out.len() == 1,
        (dec_step(e, 0, Seq::empty(), out[0]) == Step::Next {
            m: 0,
            p: Seq::empty(),
            out: seq![c],
        }),
    ensures
        dec_run(e, 0, Seq::empty(), out) == (Run::Done { m: 0, p: Seq::empty(), out: seq![c] }),
{
    reveal_with_fuel(dec_run, 3);
    assert(out.drop_first() =~= Seq::<u8>::empty());
    assert(seq![c] + Seq::<char>::empty() =~= seq![c]);
}

/// Walking the decoder through the emitted bytes of one character.
proof fn lemma_decode_steps(e: Encoding, out: Seq<u8>, c: char)
    requires
        1 <= out.len() <= 4,
        decode_steps_to(e, out, c),
    ensures
        dec_run(e, 0, Seq::empty(), out) == (Run::Done { m: 0, p: Seq::empty(), out: seq![c] }),
{
    reveal_with_fuel(dec_run, 6);
    assert(out =~= out.take(out.len() as int));
    lemma_decode_steps_tail(e, 0, Seq::empty(), out, 0, c);
}

/// The decoder, started on any prefix position, accepts the rest of the
/// bytes and finally emits exactly `c`.
spec fn decode_steps_to(e: Encoding, out: Seq<u8>, c: char) -> bool {
    decode_steps_from(e, 0, Seq::empty(), out, 0, c)
}

/// From byte `i` on, each step buffers its byte until the last byte emits
/// `c` and returns to the fresh state.
spec fn decode_steps_from(e: Encoding, m: u8, p: Seq<u8>, out: Seq<u8>, i: int, c: char) -> bool
    decreases out.len() - i,
{
    if i < 0 || i >= out.len() {
        false
    } else if i == out.len() - 1 {
        dec_step(e, m, p, out[i]) == Step::Next { m: 0, p: Seq::empty(), out: seq![c] }
    } else {
        match dec_step(e, m, p, out[i]) {
            Step::Next { m: m2, p: p2, out: o } => o == Seq::<char>::empty()
                && decode_steps_from(e, m2, p2, out, i + 1, c),
            Step::Fail { .. } => false,
        }
    }
}

/// Induction for [`lemma_decode_steps`].
proof fn lemma_decode_steps_tail(e: Encoding, m: u8, p: Seq<u8>, out: Seq<u8>, i: int, c: char)
    requires
        0 <= i < out.len(),
        decode_steps_from(e, m, p, out, i, c),
    ensures
        dec_run(e, m, p, out.skip(i)) == (Run::Done { m: 0, p: Seq::empty(), out: seq![c] }),
    decreases out.len() - i,
{
    reveal_with_fuel(dec_run, 2);
    let rest = out.skip(i);
    assert(rest[0] == out[i]);
    if i == out.len() - 1 {
        assert(rest.drop_first() =~= Seq::<u8>::empty());
        assert(seq![c] + Seq::<char>::empty() =~= seq![c]);
    } else {
        match dec_step(e, m, p, out[i]) {
            Step::Next { m: m2, p: p2, out: o } => {
                assert(rest.drop_first() =~= out.skip(i + 1));
                lemma_decode_steps_tail(e, m2, p2, out, i + 1, c);
                assert(Seq::<char>::empty() + seq![c] =~= seq![c]);
            },
            Step::Fail { .. } => {},
        }
    }
}

} // verus!
