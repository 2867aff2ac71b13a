use chromaprint::algorithm::Algorithm;
use chromaprint::error::ChromaprintError;
use chromaprint::fingerprint::{Fingerprint, RawReply};
use chromaprint::sys::ChromaprintAlgorithm;

fn reply<T>(status: i32, size: i32, buffer: Option<Vec<T>>) -> RawReply<T> {
    RawReply { status, size, is_null: false, buffer }
}

fn null_reply<T>(status: i32, size: i32) -> RawReply<T> {
    RawReply { status, size, is_null: true, buffer: None }
}

fn sample_fingerprint() -> Fingerprint {
    let input = [1u8, 2, 3];
    Fingerprint::decode_binary(&input)
        .unwrap()
        .finish(reply(1, 3, Some(vec![10, 20, 30])), ChromaprintAlgorithm(2))
        .unwrap()
}

#[test]
fn decode_binary_call_arguments() {
    let input = [7u8, 8, 9, 10];
    let call = Fingerprint::decode_binary(&input).unwrap();
    assert_eq!(call.encoded, &input[..]);
    assert_eq!(call.encoded_size, 4);
    assert_eq!(call.base64, 0);
}

#[test]
fn decode_base64_call_arguments() {
    let call = Fingerprint::decode_base64("AQAAEw").unwrap();
    assert_eq!(call.encoded, b"AQAAEw");
    assert_eq!(call.encoded_size, 6);
    assert_eq!(call.base64, 1);
}

#[test]
fn decode_base64_counts_bytes_not_chars() {
    let call = Fingerprint::decode_base64("é").unwrap();
    assert_eq!(call.encoded, &[0xc3u8, 0xa9][..]);
    assert_eq!(call.encoded_size, 2);
}

#[test]
fn decode_buffer_len() {
    let input = [1u8];
    let call = Fingerprint::decode_binary(&input).unwrap();
    assert_eq!(call.buffer_len(1, 5), Ok(5));
    assert_eq!(call.buffer_len(0, 5), Err(ChromaprintError::Chromaprint));
    assert_eq!(call.buffer_len(1, -2), Err(ChromaprintError::InvalidSize));
}

#[test]
fn decode_success() {
    let fp = sample_fingerprint();
    assert_eq!(fp.algorithm(), Algorithm::Test3);
    assert_eq!(fp.as_raw(), &[10u32, 20, 30][..]);
    assert_eq!(&*fp.into_raw(), &[10u32, 20, 30][..]);
}

#[test]
fn decode_empty_fingerprint() {
    let input = [0u8];
    let fp = Fingerprint::decode_binary(&input)
        .unwrap()
        .finish(reply(1, 0, Some(vec![])), ChromaprintAlgorithm(0))
        .unwrap();
    assert_eq!(fp.algorithm(), Algorithm::Test1);
    assert!(fp.as_raw().is_empty());
}

#[test]
fn decode_failing_status() {
    let input = [0u8];
    let res = Fingerprint::decode_binary(&input).unwrap().finish(reply(0, 3, None), ChromaprintAlgorithm(1));
    assert_eq!(res, Err(ChromaprintError::Chromaprint));
}

#[test]
fn decode_negative_size() {
    let input = [0u8];
    let res = Fingerprint::decode_binary(&input).unwrap().finish(reply(1, -1, None), ChromaprintAlgorithm(1));
    assert_eq!(res, Err(ChromaprintError::InvalidSize));
}

#[test]
fn decode_null_buffer() {
    let res = Fingerprint::decode_base64("AQ").unwrap().finish(null_reply(1, 2), ChromaprintAlgorithm(1));
    assert_eq!(res, Err(ChromaprintError::InvalidBuffer));
}

#[test]
fn decode_unknown_algorithm() {
    let res = Fingerprint::decode_base64("AQ")
        .unwrap()
        .finish(reply(1, 1, Some(vec![5])), ChromaprintAlgorithm(9));
    assert_eq!(res, Err(ChromaprintError::UnkownAlgorithm));
}

#[test]
fn decode_status_checked_before_algorithm() {
    let res = Fingerprint::decode_base64("AQ").unwrap().finish(reply(0, 1, None), ChromaprintAlgorithm(9));
    assert_eq!(res, Err(ChromaprintError::Chromaprint));
}

#[test]
fn encode_binary_call_arguments() {
    let fp = sample_fingerprint();
    let call = fp.encode_binary();
    assert_eq!(call.data, &[10u32, 20, 30][..]);
    assert_eq!(call.size, 3);
    assert_eq!(call.algorithm, ChromaprintAlgorithm(2));
    assert_eq!(call.base64, 0);
}

#[test]
fn encode_base64_call_arguments() {
    let fp = sample_fingerprint();
    let call = fp.encode_base64();
    assert_eq!(call.data, &[10u32, 20, 30][..]);
    assert_eq!(call.size, 3);
    assert_eq!(call.algorithm, ChromaprintAlgorithm(2));
    assert_eq!(call.base64, 1);
}

#[test]
fn encode_buffer_len() {
    let fp = sample_fingerprint();
    let call = fp.encode_binary();
    assert_eq!(call.buffer_len(1, 12), Ok(12));
    assert_eq!(call.buffer_len(1, 0), Err(ChromaprintError::InvalidSize));
    assert_eq!(call.buffer_len(1, -4), Err(ChromaprintError::InvalidSize));
    assert_eq!(call.buffer_len(0, 12), Err(ChromaprintError::Chromaprint));
}

#[test]
fn encode_binary_success() {
    let fp = sample_fingerprint();
    let res = fp.encode_binary().finish(reply(1, 3, Some(vec![0xffu8, 0, 7])));
    assert_eq!(&*res.unwrap(), &[0xffu8, 0, 7][..]);
}

#[test]
fn encode_binary_errors() {
    let fp = sample_fingerprint();
    assert_eq!(
        fp.encode_binary().finish(reply(0, 3, None)),
        Err(ChromaprintError::Chromaprint)
    );
    assert_eq!(
        fp.encode_binary().finish(reply(1, 0, None)),
        Err(ChromaprintError::InvalidSize)
    );
    assert_eq!(
        fp.encode_binary().finish(null_reply(1, 3)),
        Err(ChromaprintError::InvalidBuffer)
    );
}

#[test]
fn encode_base64_success() {
    let fp = sample_fingerprint();
    let res = fp.encode_base64().finish_text(reply(1, 6, Some(b"AQAAEw".to_vec())));
    assert_eq!(&*res.unwrap(), "AQAAEw");
}

#[test]
fn encode_base64_multibyte_text() {
    let fp = sample_fingerprint();
    let res = fp.encode_base64().finish_text(reply(1, 3, Some(vec![b'a', 0xc3, 0xa9])));
    assert_eq!(&*res.unwrap(), "aé");
}

#[test]
fn encode_base64_invalid_utf8() {
    let fp = sample_fingerprint();
    let res = fp.encode_base64().finish_text(reply(1, 2, Some(vec![b'a', 0xff])));
    assert_eq!(res, Err(ChromaprintError::InvalidString));
}

#[test]
fn encode_base64_errors_before_text() {
    let fp = sample_fingerprint();
    assert_eq!(
        fp.encode_base64().finish_text(reply(2, 2, None)),
        Err(ChromaprintError::Chromaprint)
    );
    assert_eq!(
        fp.encode_base64().finish_text(reply(1, -2, None)),
        Err(ChromaprintError::InvalidSize)
    );
    assert_eq!(
        fp.encode_base64().finish_text(null_reply(1, 2)),
        Err(ChromaprintError::InvalidBuffer)
    );
}

#[test]
fn hash_call_and_result() {
    let fp = sample_fingerprint();
    let call = fp.hash();
    assert_eq!(call.data, &[10u32, 20, 30][..]);
    assert_eq!(call.size, 3);
    assert_eq!(call.finish(1, 0xdead_beef), Ok(0xdead_beef));
    assert_eq!(fp.hash().finish(0, 5), Err(ChromaprintError::Chromaprint));
}

#[test]
fn encoded_fingerprint_decodes_back() {
    let fp = sample_fingerprint();
    let enc = fp.encode_binary();
    let input = [1u8];
    let back = Fingerprint::decode_binary(&input)
        .unwrap()
        .finish(reply(1, enc.size, Some(enc.data.to_vec())), enc.algorithm)
        .unwrap();
    assert_eq!(back, fp);
}

#[test]
fn clone_and_equality() {
    let fp = sample_fingerprint();
    let copy = fp.clone();
    assert_eq!(copy, fp);
}

#[test]
fn decode_null_buffer_checked_before_size() {
    let res = Fingerprint::decode_base64("AQ").unwrap().finish(null_reply(1, -1), ChromaprintAlgorithm(1));
    assert_eq!(res, Err(ChromaprintError::InvalidBuffer));
}

#[test]
fn decode_status_checked_before_null_buffer() {
    let res = Fingerprint::decode_base64("AQ").unwrap().finish(null_reply(0, -1), ChromaprintAlgorithm(1));
    assert_eq!(res, Err(ChromaprintError::Chromaprint));
}

#[test]
fn encode_size_checked_before_null_buffer() {
    let fp = sample_fingerprint();
    assert_eq!(
        fp.encode_binary().finish(null_reply(1, 0)),
        Err(ChromaprintError::InvalidSize)
    );
}

#[test]
fn decode_call_of_empty_input() {
    let call = Fingerprint::decode_binary(&[]).unwrap();
    assert_eq!(call.encoded_size, 0);
    assert_eq!(call.base64, 0);
}

#[test]
fn hash_depends_on_items_only() {
    let input = [1u8];
    let a = Fingerprint::decode_binary(&input)
        .unwrap()
        .finish(reply(1, 2, Some(vec![3, 4])), ChromaprintAlgorithm(0))
        .unwrap();
    let b = Fingerprint::decode_binary(&input)
        .unwrap()
        .finish(reply(1, 2, Some(vec![3, 4])), ChromaprintAlgorithm(4))
        .unwrap();
    let (ca, cb) = (a.hash(), b.hash());
    assert_eq!(ca.data, cb.data);
    assert_eq!(ca.size, cb.size);
}
