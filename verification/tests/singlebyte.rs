//! Tests for the single-byte code pages.

use encoding::all;
use encoding::raw::RawDecoderImpl;
use encoding::raw::RawEncoderImpl;

fn feed_ok(d: &mut RawDecoderImpl, processed: &[u8], unprocessed: &[u8], expected: &str) {
    let mut input = processed.to_vec();
    input.extend_from_slice(unprocessed);
    let mut out: Vec<char> = Vec::new();
    let (n, err) = d.raw_feed(&input, &mut out);
    assert!(err.is_none());
    assert_eq!(n, processed.len());
    let s: String = out.into_iter().collect();
    assert_eq!(s, expected);
}

fn feed_err(d: &mut RawDecoderImpl, preceding: &[u8], problem: &[u8], remaining: &[u8], expected: &str) {
    let mut input = preceding.to_vec();
    input.extend_from_slice(problem);
    input.extend_from_slice(remaining);
    let mut out: Vec<char> = Vec::new();
    let (n, err) = d.raw_feed(&input, &mut out);
    let e = err.expect("a decoder error was expected");
    assert_eq!(n, preceding.len());
    assert_eq!(e.upto, (preceding.len() + problem.len()) as isize);
    let s: String = out.into_iter().collect();
    assert_eq!(s, expected);
}

fn finish_ok(d: &mut RawDecoderImpl, expected: &str) {
    let mut out: Vec<char> = Vec::new();
    let err = d.raw_finish(&mut out);
    assert!(err.is_none());
    let s: String = out.into_iter().collect();
    assert_eq!(s, expected);
}

fn finish_err(d: &mut RawDecoderImpl, expected: &str) {
    let mut out: Vec<char> = Vec::new();
    let err = d.raw_finish(&mut out);
    let e = err.expect("a finish error was expected");
    assert_eq!(e.upto, 0);
    let s: String = out.into_iter().collect();
    assert_eq!(s, expected);
}

fn efeed_ok(e: &mut RawEncoderImpl, processed: &str, unprocessed: &str, expected: &[u8]) {
    let mut input: Vec<char> = processed.chars().collect();
    input.extend(unprocessed.chars());
    let mut out: Vec<u8> = Vec::new();
    let (n, err) = e.raw_feed(&input, &mut out);
    assert!(err.is_none());
    assert_eq!(n, processed.chars().count());
    assert_eq!(out, expected);
}

fn efeed_err(e: &mut RawEncoderImpl, preceding: &str, problem: &str, remaining: &str, expected: &[u8]) {
    let mut input: Vec<char> = preceding.chars().collect();
    input.extend(problem.chars());
    input.extend(remaining.chars());
    let mut out: Vec<u8> = Vec::new();
    let (n, err) = e.raw_feed(&input, &mut out);
    let er = err.expect("an encoder error was expected");
    assert_eq!(n, preceding.chars().count());
    assert_eq!(er.upto, (preceding.chars().count() + problem.chars().count()) as isize);
    assert_eq!(out, expected);
}

#[test]
fn test_encoder_non_bmp() {
    let mut e = all::ISO_8859_2.raw_encoder();
    efeed_err(&mut e, "A", "\u{FFFF}", "B", &[0x41]);
    let mut e = all::ISO_8859_2.raw_encoder();
    efeed_err(&mut e, "A", "\u{10000}", "B", &[0x41]);
}

#[test]
fn test_windows_874_tables() {
    // the euro sign, a hole in the index, and the round trip through both tables
    assert_eq!(encoding::index::windows_874::forward(0x80), 8364);
    assert_eq!(encoding::index::windows_874::forward(0xdb), 0xffff);
    assert_eq!(encoding::index::windows_874::backward(8364), 0x80);
    assert_eq!(encoding::index::windows_874::backward(3585), 0xa1);
    assert_eq!(encoding::index::windows_874::backward(0x10ffff), 0);
    for b in 0x80u32..0x100 {
        let b = b as u8;
        let cp = encoding::index::windows_874::forward(b);
        if cp != 0xffff {
            assert_eq!(encoding::index::windows_874::backward(cp as u32), b);
        }
    }
}

#[test]
fn test_windows_1254_tables() {
    assert_eq!(encoding::index::windows_1254::forward(0x80), 8364);
    assert_eq!(encoding::index::windows_1254::forward(0xd0), 286);
    assert_eq!(encoding::index::windows_1254::backward(286), 0xd0);
    assert_eq!(encoding::index::windows_1254::backward(0x10ffff), 0);
    for b in 0x80u32..0x100 {
        let b = b as u8;
        let cp = encoding::index::windows_1254::forward(b);
        if cp != 0xffff {
            assert_eq!(encoding::index::windows_1254::backward(cp as u32), b);
        }
    }
}

#[test]
fn test_windows_874_decode_encode() {
    let mut d = all::WINDOWS_874.raw_decoder();
    feed_ok(&mut d, &[0x41, 0xa1, 0x80], &[], "A\u{e01}\u{20ac}");
    feed_err(&mut d, &[], &[0xdb], &[0x41], "");
    finish_ok(&mut d, "");

    let mut e = all::WINDOWS_874.raw_encoder();
    efeed_ok(&mut e, "A\u{e01}\u{20ac}", "", &[0x41, 0xa1, 0x80]);
    efeed_err(&mut e, "", "\u{4e00}", "", &[]);
}

#[test]
fn test_windows_1254_decode_encode() {
    let mut d = all::WINDOWS_1254.raw_decoder();
    feed_ok(&mut d, &[0x41, 0xd0, 0xfd], &[], "A\u{11e}\u{131}");
    finish_ok(&mut d, "");

    let mut e = all::WINDOWS_1254.raw_encoder();
    efeed_ok(&mut e, "A\u{11e}\u{131}\u{20ac}", "", &[0x41, 0xd0, 0xfd, 0x80]);
    efeed_err(&mut e, "", "\u{4e00}", "", &[]);
}

#[test]
fn test_x_user_defined() {
    let mut d = all::X_USER_DEFINED.raw_decoder();
    feed_ok(&mut d, &[0x41, 0x80, 0xff], &[], "A\u{f780}\u{f7ff}");
    finish_ok(&mut d, "");

    let mut e = all::X_USER_DEFINED.raw_encoder();
    efeed_ok(&mut e, "A\u{f780}\u{f7ff}", "", &[0x41, 0x80, 0xff]);
    efeed_err(&mut e, "A", "\u{100}", "", &[0x41]);
}

#[test]
fn test_ascii() {
    let mut d = all::ASCII.raw_decoder();
    feed_ok(&mut d, &[0x41, 0x42], &[], "AB");
    feed_err(&mut d, &[0x43], &[0x80], &[0x44], "C");
    finish_ok(&mut d, "");

    let mut e = all::ASCII.raw_encoder();
    efeed_ok(&mut e, "AB", "", &[0x41, 0x42]);
    efeed_err(&mut e, "C", "\u{80}", "D", &[0x43]);
}
