//! User-to-user message content and the computable stages of its envelope.
//!
//! A message travels serialized, compressed, signed, and encrypted.  The
//! cryptographic stages and the serialization to bytes live outside the
//! library; here stand the compression stage — behind contracts over named
//! results — and the check that a loaded message names the author and
//! timestamp the caller expected.

use vstd::prelude::*;
use crate::bytes::{bytes_eq, clone_bytes};
use crate::ids::Timestamp;
use crate::name::EntryName;

verus! {

/// Stable 128-bit identity of a realm (a shared workspace).
#[derive(Clone, Copy, PartialEq, Eq, Structural, Debug)]
pub struct RealmId(pub u128);

/// The identity of a device, as validated elsewhere; messages compare
/// device identities byte-wise.
#[derive(Debug)]
pub struct DeviceId {
    pub bytes: Vec<u8>,
}

/// Symmetric key material handed over when a realm is shared.
#[derive(Debug)]
pub struct SecretKey {
    pub bytes: Vec<u8>,
}

/// The content of a user-to-user message.
#[derive(Debug)]
pub enum MessageContent {
    SharingGranted {
        author: DeviceId,
        timestamp: Timestamp,
        name: EntryName,
        id: RealmId,
        encryption_revision: u64,
        encrypted_on: Timestamp,
        key: SecretKey,
    },
    /// Processed interchangeably with `SharingGranted`, which avoids
    /// concurrency trouble when a sharing lands right before a reencryption.
    SharingReencrypted {
        author: DeviceId,
        timestamp: Timestamp,
        name: EntryName,
        id: RealmId,
        encryption_revision: u64,
        encrypted_on: Timestamp,
        key: SecretKey,
    },
    SharingRevoked {
        author: DeviceId,
        timestamp: Timestamp,
        id: RealmId,
    },
    Ping {
        author: DeviceId,
        timestamp: Timestamp,
        ping: String,
    },
}

/// How loading a message envelope can fail.
#[derive(Debug)]
pub enum DataError {
    Decryption,
    Signature,
    Compression,
    Serialization,
    UnexpectedAuthor { expected: DeviceId, got: Option<DeviceId> },
    UnexpectedTimestamp { expected: Timestamp, got: Timestamp },
}

impl MessageContent {
    /// The message's author.
    pub open spec fn spec_author(&self) -> &DeviceId {
        match self {
            MessageContent::SharingGranted { author, .. } => author,
            MessageContent::SharingReencrypted { author, .. } => author,
            MessageContent::SharingRevoked { author, .. } => author,
            MessageContent::Ping { author, .. } => author,
        }
    }

    /// The message's timestamp.
    pub open spec fn spec_timestamp(&self) -> Timestamp {
        match self {
            MessageContent::SharingGranted { timestamp, .. } => *timestamp,
            MessageContent::SharingReencrypted { timestamp, .. } => *timestamp,
            MessageContent::SharingRevoked { timestamp, .. } => *timestamp,
            MessageContent::Ping { timestamp, .. } => *timestamp,
        }
    }

    /// The message's author.
    pub fn author(&self) -> (r: &DeviceId)
        ensures
            r == self.spec_author(),
    {
        match self {
            MessageContent::SharingGranted { author, .. } => author,
            MessageContent::SharingReencrypted { author, .. } => author,
            MessageContent::SharingRevoked { author, .. } => author,
            MessageContent::Ping { author, .. } => author,
        }
    }

    /// The message's timestamp.
    pub fn timestamp(&self) -> (r: Timestamp)
        ensures
            r == self.spec_timestamp(),
    {
        match self {
            MessageContent::SharingGranted { timestamp, .. } => *timestamp,
            MessageContent::SharingReencrypted { timestamp, .. } => *timestamp,
            MessageContent::SharingRevoked { timestamp, .. } => *timestamp,
            MessageContent::Ping { timestamp, .. } => *timestamp,
        }
    }

    /// Checks that a loaded message names the expected author — compared
    /// byte-wise — and carries the expected timestamp; the author is checked
    /// first.
    pub fn check_expected(
        &self,
        expected_author: &DeviceId,
        expected_timestamp: Timestamp,
    ) -> (r: Result<(), DataError>)
        ensures
            self.spec_author().bytes@ != expected_author.bytes@ ==> (r matches Err(
                DataError::UnexpectedAuthor { expected, got },
            ) && expected.bytes@ == expected_author.bytes@ && (got matches Some(g) && g.bytes@
                == self.spec_author().bytes@)),
            self.spec_author().bytes@ == expected_author.bytes@
                && self.spec_timestamp() != expected_timestamp ==> (r matches Err(
                DataError::UnexpectedTimestamp { expected, got },
            ) && expected == expected_timestamp && got == self.spec_timestamp()),
            self.spec_author().bytes@ == expected_author.bytes@ && self.spec_timestamp()
                == expected_timestamp ==> r is Ok,
    {
        let author = self.author();
        if !bytes_eq(author.bytes.as_slice(), expected_author.bytes.as_slice()) {
            Err(
                DataError::UnexpectedAuthor {
                    expected: DeviceId { bytes: clone_bytes(expected_author.bytes.as_slice()) },
                    got: Some(DeviceId { bytes: clone_bytes(author.bytes.as_slice()) }),
                },
            )
        } else if self.timestamp() != expected_timestamp {
            Err(
                DataError::UnexpectedTimestamp {
                    expected: expected_timestamp,
                    got: self.timestamp(),
                },
            )
        } else {
            Ok(())
        }
    }
}

/// What deflating a byte run produces, at the default setting.
pub uninterp spec fn zlib_deflate(data: Seq<u8>) -> Seq<u8>;

/// What inflating a byte run produces: the bytes the stream encodes, or
/// nothing for a stream deflate never produced.
pub uninterp spec fn zlib_inflate(data: Seq<u8>) -> Option<Seq<u8>>;

/// Relies on flate2's `ZlibEncoder`: deflating at the default setting is a
/// function of the input bytes alone, and the stream it yields inflates back
/// to exactly the input — zlib is lossless.  Writing into a `Vec`-backed
/// encoder cannot fail.
#[verifier::external_body]
fn zlib_compress_raw(data: &[u8]) -> (r: Vec<u8>)
    ensures
        r@ == zlib_deflate(data@),
        zlib_inflate(r@) == Some(data@),
{
    let mut enc = flate2::write::ZlibEncoder::new(Vec::new(), flate2::Compression::default());
    std::io::Write::write_all(&mut enc, data).expect("writing into a Vec cannot fail");
    enc.finish().expect("writing into a Vec cannot fail")
}

/// Relies on flate2's `ZlibDecoder`: inflating yields the bytes the stream
/// encodes and reports corrupt streams as an error.
#[verifier::external_body]
fn zlib_decompress_raw(data: &[u8]) -> (r: Option<Vec<u8>>)
    ensures
        match r {
            Some(v) => zlib_inflate(data@) == Some(v@),
            None => zlib_inflate(data@) is None,
        },
{
    let mut out = Vec::new();
    match std::io::Read::read_to_end(&mut flate2::read::ZlibDecoder::new(data), &mut out) {
        Ok(_) => Some(out),
        Err(_) => None,
    }
}

/// Compresses a serialized message body for its envelope.
pub fn compress_message(serialized: &[u8]) -> (r: Vec<u8>)
    ensures
        r@ == zlib_deflate(serialized@),
        zlib_inflate(r@) == Some(serialized@),
{
    zlib_compress_raw(serialized)
}

/// Decompresses a message body out of its envelope; a stream deflate never
/// produced surfaces as the compression error.
pub fn decompress_message(compressed: &[u8]) -> (r: Result<Vec<u8>, DataError>)
    ensures
        match r {
            Ok(v) => zlib_inflate(compressed@) == Some(v@),
            Err(e) => zlib_inflate(compressed@) is None && e matches DataError::Compression,
        },
{
    match zlib_decompress_raw(compressed) {
        Some(v) => Ok(v),
        None => Err(DataError::Compression),
    }
}

} // verus!
