use entry_transactions::ids::Timestamp;
use std::io::{Read, Write};
use entry_transactions::message::{compress_message, decompress_message, DataError, DeviceId,
    MessageContent, RealmId};

fn ts(micros: i64) -> Timestamp {
    Timestamp { micros }
}

fn device(s: &str) -> DeviceId {
    DeviceId { bytes: s.as_bytes().to_vec() }
}

fn ping(author: &str, micros: i64) -> MessageContent {
    MessageContent::Ping { author: device(author), timestamp: ts(micros), ping: "hi".to_string() }
}

#[test]
fn compress_then_decompress_restores_the_bytes() {
    let data = b"a body worth compressing, a body worth compressing".to_vec();
    let compressed = compress_message(&data);
    let restored = decompress_message(&compressed).expect("valid stream");
    assert_eq!(restored, data);
}

#[test]
fn compress_shrinks_repetitive_input() {
    let data = vec![0u8; 4096];
    let compressed = compress_message(&data);
    assert!(compressed.len() < data.len());
    assert_ne!(compressed, data);
}

#[test]
fn decompress_rejects_garbage() {
    match decompress_message(&[0x00, 0x01, 0x02, 0x03]) {
        Err(DataError::Compression) => {}
        other => panic!("garbage must fail decompression, got {:?}", other),
    }
}

#[test]
fn decompress_matches_flate2_directly() {
    let data = b"cross-checked against the compression crate".to_vec();
    let mut enc =
        flate2::write::ZlibEncoder::new(Vec::new(), flate2::Compression::default());
    enc.write_all(&data).unwrap();
    let stream = enc.finish().unwrap();
    let restored = decompress_message(&stream).expect("valid stream");
    assert_eq!(restored, data);
}

#[test]
fn compress_matches_flate2_directly() {
    let data = b"cross-checked the other way round".to_vec();
    let stream = compress_message(&data);
    let mut restored = Vec::new();
    flate2::read::ZlibDecoder::new(stream.as_slice()).read_to_end(&mut restored).unwrap();
    assert_eq!(restored, data);
}

#[test]
fn check_expected_accepts_matching_author_and_timestamp() {
    let msg = ping("alice@laptop", 1000);
    assert!(msg.check_expected(&device("alice@laptop"), ts(1000)).is_ok());
}

#[test]
fn check_expected_rejects_wrong_author_first() {
    // even with the timestamp also wrong, the author mismatch is reported
    let msg = ping("mallory@laptop", 1000);
    match msg.check_expected(&device("alice@laptop"), ts(9999)) {
        Err(DataError::UnexpectedAuthor { expected, got }) => {
            assert_eq!(expected.bytes, b"alice@laptop".to_vec());
            assert_eq!(got.expect("author known").bytes, b"mallory@laptop".to_vec());
        }
        other => panic!("the author mismatch must win, got {:?}", other),
    }
}

#[test]
fn check_expected_rejects_wrong_timestamp() {
    let msg = ping("alice@laptop", 1000);
    match msg.check_expected(&device("alice@laptop"), ts(2000)) {
        Err(DataError::UnexpectedTimestamp { expected, got }) => {
            assert_eq!(expected, ts(2000));
            assert_eq!(got, ts(1000));
        }
        other => panic!("the timestamp mismatch must surface, got {:?}", other),
    }
}

#[test]
fn author_and_timestamp_read_from_every_variant() {
    let sharing = MessageContent::SharingRevoked {
        author: device("bob@desk"),
        timestamp: ts(5),
        id: RealmId(77),
    };
    assert_eq!(sharing.author().bytes, b"bob@desk".to_vec());
    assert_eq!(sharing.timestamp(), ts(5));
    let p = ping("carol@tablet", 6);
    assert_eq!(p.author().bytes, b"carol@tablet".to_vec());
    assert_eq!(p.timestamp(), ts(6));
}
