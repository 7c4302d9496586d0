//! Streaming tests for Big5.

use encoding::all;
use encoding::raw::RawDecoderImpl;
use encoding::raw::RawEncoderImpl;

fn feed_ok(d: &mut RawDecoderImpl, processed: &[u8], unprocessed: &[u8], expected: &str) {
    let mut input = processed.to_vec();
    input.extend_from_slice(unprocessed);
    let mut out: Vec<char> = Vec::new();
    let (n, err) = d.raw_feed(&input, &mut out);
    assert!(err.is_none());
    assert_eq!(n, processed.len());
    let s: String = out.into_iter().collect();
    assert_eq!(s, expected);
}

fn feed_err(d: &mut RawDecoderImpl, preceding: &[u8], problem: &[u8], remaining: &[u8], expected: &str) {
    feed_err_backup(d, 0, preceding, problem, remaining, expected);
}

fn feed_err_backup(
    d: &mut RawDecoderImpl,
    backup: isize,
    preceding: &[u8],
    problem: &[u8],
    remaining: &[u8],
    expected: &str,
) {
    let mut input = preceding.to_vec();
    input.extend_from_slice(problem);
    input.extend_from_slice(remaining);
    let mut out: Vec<char> = Vec::new();
    let (n, err) = d.raw_feed(&input, &mut out);
    let e = err.expect("a decoder error was expected");
    assert_eq!(n, preceding.len());
    assert_eq!(e.upto, backup + (preceding.len() + problem.len()) as isize);
    let s: String = out.into_iter().collect();
    assert_eq!(s, expected);
}

fn finish_ok(d: &mut RawDecoderImpl, expected: &str) {
    let mut out: Vec<char> = Vec::new();
    let err = d.raw_finish(&mut out);
    assert!(err.is_none());
    let s: String = out.into_iter().collect();
    assert_eq!(s, expected);
}

fn finish_err(d: &mut RawDecoderImpl, expected: &str) {
    let mut out: Vec<char> = Vec::new();
    let err = d.raw_finish(&mut out);
    let e = err.expect("a finish error was expected");
    assert_eq!(e.upto, 0);
    let s: String = out.into_iter().collect();
    assert_eq!(s, expected);
}

fn efeed_ok(e: &mut RawEncoderImpl, processed: &str, unprocessed: &str, expected: &[u8]) {
    let mut input: Vec<char> = processed.chars().collect();
    input.extend(unprocessed.chars());
    let mut out: Vec<u8> = Vec::new();
    let (n, err) = e.raw_feed(&input, &mut out);
    assert!(err.is_none());
    assert_eq!(n, processed.chars().count());
    assert_eq!(out, expected);
}

fn efeed_err(e: &mut RawEncoderImpl, preceding: &str, problem: &str, remaining: &str, expected: &[u8]) {
    let mut input: Vec<char> = preceding.chars().collect();
    input.extend(problem.chars());
    input.extend(remaining.chars());
    let mut out: Vec<u8> = Vec::new();
    let (n, err) = e.raw_feed(&input, &mut out);
    let er = err.expect("an encoder error was expected");
    assert_eq!(n, preceding.chars().count());
    assert_eq!(er.upto, (preceding.chars().count() + problem.chars().count()) as isize);
    assert_eq!(out, expected);
}

fn efinish_ok(e: &mut RawEncoderImpl, expected: &[u8]) {
    let mut out: Vec<u8> = Vec::new();
    let err = e.raw_finish(&mut out);
    assert!(err.is_none());
    assert_eq!(out, expected);
}

#[test]
fn tradchinese_test_encoder_valid() {
    let mut e = all::BIG5_2003.raw_encoder();
    efeed_ok(&mut e, "A", "", &[0x41]);
    efeed_ok(&mut e, "BC", "", &[0x42, 0x43]);
    efeed_ok(&mut e, "", "", &[]);
    efeed_ok(
        &mut e,
        "\u{4e2d}\u{83ef}\u{6c11}\u{570b}",
        "",
        &[0xa4, 0xa4, 0xb5, 0xd8, 0xa5, 0xc1, 0xb0, 0xea],
    );
    efeed_ok(&mut e, "1\u{20ac}/m", "", &[0x31, 0xa3, 0xe1, 0x2f, 0x6d]);
    efeed_ok(&mut e, "\u{ffed}", "", &[0xf9, 0xfe]);
    efinish_ok(&mut e, &[]);
}

#[test]
fn tradchinese_test_encoder_invalid() {
    let mut e = all::BIG5_2003.raw_encoder();
    efeed_err(&mut e, "", "\u{ffff}", "", &[]);
    efeed_err(&mut e, "?", "\u{ffff}", "!", &[0x3f]);
    efeed_err(&mut e, "", "\u{3eec}", "\u{4e00}", &[]); // HKSCS-2008 addition
    efinish_ok(&mut e, &[]);
}

#[test]
fn tradchinese_test_decoder_valid() {
    let mut d = all::BIG5_2003.raw_decoder();
    feed_ok(&mut d, &[0x41], &[], "A");
    feed_ok(&mut d, &[0x42, 0x43], &[], "BC");
    feed_ok(&mut d, &[], &[], "");
    feed_ok(
        &mut d,
        &[0xa4, 0xa4, 0xb5, 0xd8, 0xa5, 0xc1, 0xb0, 0xea],
        &[],
        "\u{4e2d}\u{83ef}\u{6c11}\u{570b}",
    );
    feed_ok(&mut d, &[], &[0xa4], "");
    feed_ok(&mut d, &[0xa4, 0xb5, 0xd8], &[0xa5], "\u{4e2d}\u{83ef}");
    feed_ok(&mut d, &[0xc1, 0xb0, 0xea], &[], "\u{6c11}\u{570b}");
    feed_ok(&mut d, &[0x31, 0xa3, 0xe1, 0x2f, 0x6d], &[], "1\u{20ac}/m");
    feed_ok(&mut d, &[0xf9, 0xfe], &[], "\u{ffed}");
    feed_ok(&mut d, &[0x87, 0x7e], &[], "\u{3eec}"); // HKSCS-2008 addition
    feed_ok(
        &mut d,
        &[0x88, 0x62, 0x88, 0x64, 0x88, 0xa3, 0x88, 0xa5],
        &[],
        "\u{ca}\u{304}\u{00ca}\u{30c}\u{ea}\u{304}\u{ea}\u{30c}",
    ); // two-character output
    finish_ok(&mut d, "");
}

#[test]
fn tradchinese_test_decoder_invalid_lone_lead_immediate_test_finish() {
    for i in 0x81u8..0xff {
        let mut d = all::BIG5_2003.raw_decoder();
        feed_ok(&mut d, &[], &[i], ""); // wait for a trail
        finish_err(&mut d, "");
    }

    // 80/FF: immediate failure
    let mut d = all::BIG5_2003.raw_decoder();
    feed_err(&mut d, &[], &[0x80], &[], "");
    feed_err(&mut d, &[], &[0xff], &[], "");
    finish_ok(&mut d, "");
}

#[test]
fn tradchinese_test_decoder_invalid_lone_lead_followed_by_space() {
    for i in 0x80u32..0x100 {
        let i = i as u8;
        let mut d = all::BIG5_2003.raw_decoder();
        feed_err(&mut d, &[], &[i], &[0x20], "");
        finish_ok(&mut d, "");
    }
}

#[test]
fn tradchinese_test_decoder_invalid_lead_followed_by_invalid_trail() {
    // unlike most other cases, valid lead + invalid MSB-set trail are entirely consumed.
    for i in 0x81u8..0xff {
        let mut d = all::BIG5_2003.raw_decoder();
        feed_err(&mut d, &[], &[i, 0x80], &[0x20], "");
        feed_err(&mut d, &[], &[i, 0xff], &[0x20], "");
        finish_ok(&mut d, "");

        let mut d = all::BIG5_2003.raw_decoder();
        feed_ok(&mut d, &[], &[i], "");
        feed_err(&mut d, &[], &[0x80], &[0x20], "");
        feed_ok(&mut d, &[], &[i], "");
        feed_err(&mut d, &[], &[0xff], &[0x20], "");
        finish_ok(&mut d, "");
    }

    // 80/FF is not a valid lead and the trail is not consumed
    let mut d = all::BIG5_2003.raw_decoder();
    feed_err(&mut d, &[], &[0x80], &[0x80], "");
    feed_err(&mut d, &[], &[0x80], &[0xff], "");
    feed_err(&mut d, &[], &[0xff], &[0x80], "");
    feed_err(&mut d, &[], &[0xff], &[0xff], "");
    finish_ok(&mut d, "");
}

#[test]
fn tradchinese_test_decoder_feed_after_finish() {
    let mut d = all::BIG5_2003.raw_decoder();
    feed_ok(&mut d, &[0xa4, 0x40], &[0xa4], "\u{4e00}");
    finish_err(&mut d, "");
    feed_ok(&mut d, &[0xa4, 0x40], &[], "\u{4e00}");
    finish_ok(&mut d, "");
}
