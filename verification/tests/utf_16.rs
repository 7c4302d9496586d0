//! Streaming tests for UTF-16.
//!
//! Little endian and big endian are symmetric to each other; since big
//! endian is easier to inspect, most tests use UTF-16BE.

use encoding::all;
use encoding::raw::RawDecoderImpl;
use encoding::raw::RawEncoderImpl;

fn feed_ok(d: &mut RawDecoderImpl, processed: &[u8], unprocessed: &[u8], expected: &str) {
    let mut input = processed.to_vec();
    input.extend_from_slice(unprocessed);
    let mut out: Vec<char> = Vec::new();
    let (n, err) = d.raw_feed(&input, &mut out);
    assert!(err.is_none());
    assert_eq!(n, processed.len());
    let s: String = out.into_iter().collect();
    assert_eq!(s, expected);
}

fn feed_err(d: &mut RawDecoderImpl, preceding: &[u8], problem: &[u8], remaining: &[u8], expected: &str) {
    feed_err_backup(d, 0, preceding, problem, remaining, expected);
}

fn feed_err_backup(
    d: &mut RawDecoderImpl,
    backup: isize,
    preceding: &[u8],
    problem: &[u8],
    remaining: &[u8],
    expected: &str,
) {
    let mut input = preceding.to_vec();
    input.extend_from_slice(problem);
    input.extend_from_slice(remaining);
    let mut out: Vec<char> = Vec::new();
    let (n, err) = d.raw_feed(&input, &mut out);
    let e = err.expect("a decoder error was expected");
    assert_eq!(n, preceding.len());
    assert_eq!(e.upto, backup + (preceding.len() + problem.len()) as isize);
    let s: String = out.into_iter().collect();
    assert_eq!(s, expected);
}

fn finish_ok(d: &mut RawDecoderImpl, expected: &str) {
    let mut out: Vec<char> = Vec::new();
    let err = d.raw_finish(&mut out);
    assert!(err.is_none());
    let s: String = out.into_iter().collect();
    assert_eq!(s, expected);
}

fn finish_err(d: &mut RawDecoderImpl, expected: &str) {
    let mut out: Vec<char> = Vec::new();
    let err = d.raw_finish(&mut out);
    let e = err.expect("a finish error was expected");
    assert_eq!(e.upto, 0);
    let s: String = out.into_iter().collect();
    assert_eq!(s, expected);
}

fn efeed_ok(e: &mut RawEncoderImpl, processed: &str, unprocessed: &str, expected: &[u8]) {
    let mut input: Vec<char> = processed.chars().collect();
    input.extend(unprocessed.chars());
    let mut out: Vec<u8> = Vec::new();
    let (n, err) = e.raw_feed(&input, &mut out);
    assert!(err.is_none());
    assert_eq!(n, processed.chars().count());
    assert_eq!(out, expected);
}

fn efinish_ok(e: &mut RawEncoderImpl, expected: &[u8]) {
    let mut out: Vec<u8> = Vec::new();
    let err = e.raw_finish(&mut out);
    assert!(err.is_none());
    assert_eq!(out, expected);
}

#[test]
fn utf_16_test_encoder_valid() {
    let mut e = all::UTF_16BE.raw_encoder();
    efeed_ok(
        &mut e,
        "\u{0}\u{1}\u{02}\u{004}\u{0008}\u{10}\u{020}\u{0040}\u{80}\u{100}\u{0200}\u{400}\u{800}\u{1000}\u{2000}\u{4000}\u{8000}\u{ffff}",
        "",
        &[
            0x00, 0x00, 0x00, 0x01, 0x00, 0x02, 0x00, 0x04, 0x00, 0x08, 0x00, 0x10, 0x00, 0x20,
            0x00, 0x40, 0x00, 0x80, 0x01, 0x00, 0x02, 0x00, 0x04, 0x00, 0x08, 0x00, 0x10, 0x00,
            0x20, 0x00, 0x40, 0x00, 0x80, 0x00, 0xff, 0xff,
        ],
    );
    efeed_ok(
        &mut e,
        "\u{10000}\u{10001}\u{010002}\u{10004}\u{010008}\u{10010}\u{010020}\u{10040}\u{010080}\u{10100}\u{010200}\u{10400}\u{010800}\u{11000}\u{012000}\u{14000}\u{018000}\u{20000}\u{030000}\u{50000}\u{090000}\u{10FFFF}",
        "",
        &[
            0xd8, 0x00, 0xdc, 0x00, 0xd8, 0x00, 0xdc, 0x01, 0xd8, 0x00, 0xdc, 0x02, 0xd8, 0x00,
            0xdc, 0x04, 0xd8, 0x00, 0xdc, 0x08, 0xd8, 0x00, 0xdc, 0x10, 0xd8, 0x00, 0xdc, 0x20,
            0xd8, 0x00, 0xdc, 0x40, 0xd8, 0x00, 0xdc, 0x80, 0xd8, 0x00, 0xdd, 0x00, 0xd8, 0x00,
            0xde, 0x00, 0xd8, 0x01, 0xdc, 0x00, 0xd8, 0x02, 0xdc, 0x00, 0xd8, 0x04, 0xdc, 0x00,
            0xd8, 0x08, 0xdc, 0x00, 0xd8, 0x10, 0xdc, 0x00, 0xd8, 0x20, 0xdc, 0x00, 0xd8, 0x40,
            0xdc, 0x00, 0xd8, 0x80, 0xdc, 0x00, 0xd9, 0x00, 0xdc, 0x00, 0xda, 0x00, 0xdc, 0x00,
            0xdb, 0xff, 0xdf, 0xff,
        ],
    );
    efinish_ok(&mut e, &[]);
}

#[test]
fn utf_16_test_decoder_valid() {
    let mut d = all::UTF_16BE.raw_decoder();
    feed_ok(
        &mut d,
        &[
            0x00, 0x00, 0x00, 0x01, 0x00, 0x02, 0x00, 0x04, 0x00, 0x08, 0x00, 0x10, 0x00, 0x20,
            0x00, 0x40, 0x00, 0x80, 0x01, 0x00, 0x02, 0x00, 0x04, 0x00, 0x08, 0x00, 0x10, 0x00,
            0x20, 0x00, 0x40, 0x00, 0x80, 0x00, 0xff, 0xff,
        ],
        &[],
        "\u{0}\u{1}\u{02}\u{004}\u{0008}\u{10}\u{020}\u{0040}\u{80}\u{100}\u{0200}\u{400}\u{800}\u{1000}\u{2000}\u{4000}\u{8000}\u{ffff}",
    );
    feed_ok(
        &mut d,
        &[
            0xd8, 0x00, 0xdc, 0x00, 0xd8, 0x00, 0xdc, 0x01, 0xd8, 0x00, 0xdc, 0x02, 0xd8, 0x00,
            0xdc, 0x04, 0xd8, 0x00, 0xdc, 0x08, 0xd8, 0x00, 0xdc, 0x10, 0xd8, 0x00, 0xdc, 0x20,
            0xd8, 0x00, 0xdc, 0x40, 0xd8, 0x00, 0xdc, 0x80, 0xd8, 0x00, 0xdd, 0x00, 0xd8, 0x00,
            0xde, 0x00, 0xd8, 0x01, 0xdc, 0x00, 0xd8, 0x02, 0xdc, 0x00, 0xd8, 0x04, 0xdc, 0x00,
            0xd8, 0x08, 0xdc, 0x00, 0xd8, 0x10, 0xdc, 0x00, 0xd8, 0x20, 0xdc, 0x00, 0xd8, 0x40,
            0xdc, 0x00, 0xd8, 0x80, 0xdc, 0x00, 0xd9, 0x00, 0xdc, 0x00, 0xda, 0x00, 0xdc, 0x00,
            0xdb, 0xff, 0xdf, 0xff,
        ],
        &[],
        "\u{10000}\u{10001}\u{010002}\u{10004}\u{010008}\u{10010}\u{010020}\u{10040}\u{010080}\u{10100}\u{010200}\u{10400}\u{010800}\u{11000}\u{012000}\u{14000}\u{018000}\u{20000}\u{030000}\u{50000}\u{090000}\u{10FFFF}",
    );
    finish_ok(&mut d, "");
}

#[test]
fn test_decoder_valid_partial_bmp() {
    let mut d = all::UTF_16BE.raw_decoder();
    feed_ok(&mut d, &[], &[0x12], "");
    feed_ok(&mut d, &[0x34], &[], "\u{1234}");
    feed_ok(&mut d, &[], &[0x56], "");
    feed_ok(&mut d, &[0x78], &[], "\u{5678}");
    finish_ok(&mut d, "");

    let mut d = all::UTF_16BE.raw_decoder();
    feed_ok(&mut d, &[], &[0x12], "");
    feed_ok(&mut d, &[0x34], &[0x56], "\u{1234}");
    feed_ok(&mut d, &[0x78, 0xab, 0xcd], &[], "\u{5678}\u{abcd}");
    finish_ok(&mut d, "");
}

#[test]
fn test_decoder_valid_partial_non_bmp() {
    let mut d = all::UTF_16BE.raw_decoder();
    feed_ok(&mut d, &[], &[0xd8], "");
    feed_ok(&mut d, &[], &[0x08], "");
    feed_ok(&mut d, &[], &[0xdf], "");
    feed_ok(&mut d, &[0x45], &[0xd9], "\u{12345}");
    feed_ok(&mut d, &[], &[0x5e], "");
    feed_ok(&mut d, &[], &[0xdc], "");
    feed_ok(&mut d, &[0x90], &[], "\u{67890}");
    finish_ok(&mut d, "");

    let mut d = all::UTF_16BE.raw_decoder();
    feed_ok(&mut d, &[], &[0xd8], "");
    feed_ok(&mut d, &[], &[0x08, 0xdf], "");
    feed_ok(&mut d, &[0x45], &[0xd9, 0x5e], "\u{12345}");
    feed_ok(&mut d, &[0xdc, 0x90], &[], "\u{67890}");
    finish_ok(&mut d, "");

    let mut d = all::UTF_16BE.raw_decoder();
    feed_ok(&mut d, &[], &[0xd8, 0x08, 0xdf], "");
    feed_ok(&mut d, &[0x45], &[0xd9, 0x5e, 0xdc], "\u{12345}");
    feed_ok(&mut d, &[0x90], &[], "\u{67890}");
    finish_ok(&mut d, "");
}

#[test]
fn utf_16_test_decoder_invalid_partial() {
    let mut d = all::UTF_16BE.raw_decoder();
    feed_ok(&mut d, &[], &[0x12], "");
    finish_err(&mut d, "");

    let mut d = all::UTF_16BE.raw_decoder();
    feed_ok(&mut d, &[], &[0xd8], "");
    finish_err(&mut d, "");

    let mut d = all::UTF_16BE.raw_decoder();
    feed_ok(&mut d, &[], &[0xd8, 0x08], "");
    finish_err(&mut d, "");

    let mut d = all::UTF_16BE.raw_decoder();
    feed_ok(&mut d, &[], &[0xd8, 0x08, 0xdf], "");
    finish_err(&mut d, "");
}

#[test]
fn test_decoder_invalid_lone_upper_surrogate() {
    let mut d = all::UTF_16BE.raw_decoder();
    feed_ok(&mut d, &[], &[0xd8, 0x00], "");
    feed_err(&mut d, &[], &[], &[0x12, 0x34], "");
    feed_err(&mut d, &[], &[0xd8, 0x00], &[0x56, 0x78], "");
    feed_ok(&mut d, &[], &[0xd8, 0x00], "");
    feed_err(&mut d, &[], &[], &[0xd8, 0x00], "");
    feed_ok(&mut d, &[], &[0xd8, 0x00], "");
    finish_err(&mut d, "");

    let mut d = all::UTF_16BE.raw_decoder();
    feed_ok(&mut d, &[], &[0xdb, 0xff], "");
    feed_err(&mut d, &[], &[], &[0x12, 0x34], "");
    feed_err(&mut d, &[], &[0xdb, 0xff], &[0x56, 0x78], "");
    feed_ok(&mut d, &[], &[0xdb, 0xff], "");
    feed_err(&mut d, &[], &[], &[0xdb, 0xff], "");
    feed_ok(&mut d, &[], &[0xdb, 0xff], "");
    finish_err(&mut d, "");
}

#[test]
fn test_decoder_invalid_lone_upper_surrogate_partial() {
    let mut d = all::UTF_16BE.raw_decoder();
    feed_ok(&mut d, &[], &[0xd8], "");
    feed_err(&mut d, &[], &[0x00], &[0x12, 0x34], "");
    feed_ok(&mut d, &[], &[0xd8, 0x00, 0x56], "");
    feed_err_backup(&mut d, -1, &[], &[], &[0x56, 0x78], "");
    feed_ok(&mut d, &[], &[0xd8], "");
    feed_err(&mut d, &[], &[0x00], &[0xd8, 0x00], "");
    feed_ok(&mut d, &[], &[0xd8, 0x00, 0xdb], "");
    feed_err_backup(&mut d, -1, &[], &[], &[0xdb, 0xff], "");
    feed_ok(&mut d, &[], &[0xd8], "");
    finish_err(&mut d, "");

    let mut d = all::UTF_16BE.raw_decoder();
    feed_ok(&mut d, &[], &[0xdb], "");
    feed_err(&mut d, &[], &[0xff], &[0x12, 0x34], "");
    feed_ok(&mut d, &[], &[0xdb, 0xff, 0x56], "");
    feed_err_backup(&mut d, -1, &[], &[], &[0x56, 0x78], "");
    feed_ok(&mut d, &[], &[0xdb], "");
    feed_err(&mut d, &[], &[0xff], &[0xdb, 0xff], "");
    feed_ok(&mut d, &[], &[0xdb, 0xff, 0xd8], "");
    feed_err_backup(&mut d, -1, &[], &[], &[0xd8, 0x00], "");
    feed_ok(&mut d, &[], &[0xdb], "");
    finish_err(&mut d, "");
}

#[test]
fn test_decoder_invalid_lone_lower_surrogate() {
    let mut d = all::UTF_16BE.raw_decoder();
    feed_err(&mut d, &[], &[0xdc, 0x00], &[], "");
    feed_err(&mut d, &[0x12, 0x34], &[0xdc, 0x00], &[0x56, 0x78], "\u{1234}");
    finish_ok(&mut d, "");

    let mut d = all::UTF_16BE.raw_decoder();
    feed_err(&mut d, &[], &[0xdf, 0xff], &[], "");
    feed_err(&mut d, &[0x12, 0x34], &[0xdf, 0xff], &[0x56, 0x78], "\u{1234}");
    finish_ok(&mut d, "");
}

#[test]
fn test_decoder_invalid_lone_lower_surrogate_partial() {
    let mut d = all::UTF_16BE.raw_decoder();
    feed_ok(&mut d, &[], &[0xdc], "");
    feed_err(&mut d, &[], &[0x00], &[], "");
    feed_ok(&mut d, &[0x12, 0x34], &[0xdc], "\u{1234}");
    feed_err(&mut d, &[], &[0x00], &[0x56, 0x78], "");
    finish_ok(&mut d, "");

    feed_ok(&mut d, &[], &[0xdf], "");
    feed_err(&mut d, &[], &[0xff], &[], "");
    feed_ok(&mut d, &[0x12, 0x34], &[0xdf], "\u{1234}");
    feed_err(&mut d, &[], &[0xff], &[0x56, 0x78], "");
    finish_ok(&mut d, "");
}

#[test]
fn test_decoder_invalid_one_byte_before_finish() {
    let mut d = all::UTF_16BE.raw_decoder();
    feed_ok(&mut d, &[], &[0x12], "");
    finish_err(&mut d, "");

    let mut d = all::UTF_16BE.raw_decoder();
    feed_ok(&mut d, &[0x12, 0x34], &[0x56], "\u{1234}");
    finish_err(&mut d, "");
}

#[test]
fn test_decoder_invalid_three_bytes_before_finish() {
    let mut d = all::UTF_16BE.raw_decoder();
    feed_ok(&mut d, &[], &[0xd8, 0x00, 0xdc], "");
    finish_err(&mut d, "");

    let mut d = all::UTF_16BE.raw_decoder();
    feed_ok(&mut d, &[0x12, 0x34], &[0xd8, 0x00, 0xdc], "\u{1234}");
    finish_err(&mut d, "");
}

#[test]
fn test_decoder_invalid_three_bytes_before_finish_partial() {
    let mut d = all::UTF_16BE.raw_decoder();
    feed_ok(&mut d, &[], &[0xd8], "");
    feed_ok(&mut d, &[], &[0x00], "");
    feed_ok(&mut d, &[], &[0xdc], "");
    finish_err(&mut d, "");

    let mut d = all::UTF_16BE.raw_decoder();
    feed_ok(&mut d, &[0x12, 0x34], &[0xd8], "\u{1234}");
    feed_ok(&mut d, &[], &[0x00, 0xdc], "");
    finish_err(&mut d, "");

    let mut d = all::UTF_16BE.raw_decoder();
    feed_ok(&mut d, &[0x12, 0x34], &[0xd8, 0x00], "\u{1234}");
    feed_ok(&mut d, &[], &[0xdc], "");
    finish_err(&mut d, "");
}

#[test]
fn utf_16_test_decoder_feed_after_finish() {
    let mut d = all::UTF_16BE.raw_decoder();
    feed_ok(&mut d, &[0x12, 0x34], &[0x12], "\u{1234}");
    finish_err(&mut d, "");
    feed_ok(&mut d, &[0x12, 0x34], &[], "\u{1234}");
    finish_ok(&mut d, "");

    let mut d = all::UTF_16BE.raw_decoder();
    feed_ok(&mut d, &[0xd8, 0x08, 0xdf, 0x45], &[0xd8, 0x08, 0xdf], "\u{12345}");
    finish_err(&mut d, "");
    feed_ok(&mut d, &[0xd8, 0x08, 0xdf, 0x45], &[0xd8, 0x08], "\u{12345}");
    finish_err(&mut d, "");
    feed_ok(&mut d, &[0xd8, 0x08, 0xdf, 0x45], &[0xd8], "\u{12345}");
    finish_err(&mut d, "");
    feed_ok(&mut d, &[0xd8, 0x08, 0xdf, 0x45], &[], "\u{12345}");
    finish_ok(&mut d, "");
}
