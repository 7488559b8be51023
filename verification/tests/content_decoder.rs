//! The Content Decoder: whitespace stripping, base64 decoding, lossy UTF-8
//! reading, and the encode-decode round trip.

use std::collections::HashMap;

use base64::Engine;
use mosaic_github::content::encode_content;
use mosaic_github::error::AppError;
use mosaic_github::GitHubContentObject;

fn content_object(content: Option<String>) -> GitHubContentObject {
    GitHubContentObject {
        name: "file.txt".to_string(),
        path: "dir/file.txt".to_string(),
        sha: "abc".to_string(),
        size: 0,
        url: "u".to_string(),
        html_url: "h".to_string(),
        git_url: "g".to_string(),
        download_url: "d".to_string(),
        object_type: "file".to_string(),
        content,
        encoding: "base64".to_string(),
        links: HashMap::new(),
    }
}

#[test]
fn absent_content_yields_an_absent_result_not_an_error() {
    let c = content_object(None);
    assert_eq!(c.decoded_content().expect("no content is not an error"), None);
}

#[test]
fn plain_base64_decodes_to_its_text() {
    let c = content_object(Some("aGVsbG8=".to_string()));
    assert_eq!(c.decoded_content().unwrap(), Some("hello".to_string()));
}

#[test]
fn round_trip_with_interleaved_whitespace_yields_the_original_text() {
    let text = "Hello, upstream world! \u{2713}";
    let encoded = base64::prelude::BASE64_STANDARD.encode(text.as_bytes());
    let mut noisy = String::new();
    for (i, ch) in encoded.chars().enumerate() {
        noisy.push(ch);
        match i % 4 {
            0 => noisy.push('\n'),
            1 => noisy.push(' '),
            2 => noisy.push('\t'),
            _ => noisy.push('\r'),
        }
    }
    noisy.insert(0, '\u{b}');
    noisy.push('\u{c}');
    let c = content_object(Some(noisy));
    assert_eq!(c.decoded_content().unwrap(), Some(text.to_string()));
}

#[test]
fn encode_content_round_trips_through_the_decoder() {
    let bytes: Vec<u8> = "verified bytes".as_bytes().to_vec();
    let body = encode_content(&bytes);
    let c = content_object(Some(body));
    assert_eq!(c.decoded_content().unwrap(), Some("verified bytes".to_string()));
}

#[test]
fn encode_content_uses_the_standard_alphabet() {
    let bytes: Vec<u8> = vec![97, 98, 99];
    assert_eq!(encode_content(&bytes), "YWJj");
}

#[test]
fn malformed_base64_is_a_typed_failure_not_a_panic() {
    let c = content_object(Some("!!!not base64!!!".to_string()));
    match c.decoded_content() {
        Err(AppError::DecodeError(m)) => {
            assert_eq!(m, "could not decode github content");
        }
        other => panic!("expected a typed decode failure, got {:?}", other),
    }
}

#[test]
fn invalid_utf8_bytes_decode_with_replacement_characters() {
    let encoded = base64::prelude::BASE64_STANDARD.encode([0xffu8, 0x68, 0x69]);
    let c = content_object(Some(encoded));
    assert_eq!(c.decoded_content().unwrap(), Some("\u{fffd}hi".to_string()));
}
