//! The error taxonomy, uniform across the resolution layers, and the
//! one-to-one translations between the layers.
//!
//! Clock-skew failures carry both timestamps and the two tolerance offsets —
//! deliberately two independent bounds, one early and one late, not a single
//! symmetric delta.  Offsets are held in microseconds.

use vstd::prelude::*;
use crate::ids::{EntryId, Timestamp};

verus! {

/// How a remote fetch of a child manifest can fail.
///
/// `BadVersion` is only meaningful when a fetch pinned a version; the
/// resolution machinery never pins one, so receiving it is a broken contract
/// and is translated to an internal failure, never surfaced as its own kind.
#[derive(Clone, Copy, PartialEq, Eq, Structural, Debug)]
pub enum FetchRemoteManifestError {
    Offline,
    NotFound,
    NotAllowed,
    InvalidCertificate,
    InvalidManifest,
    BadVersion,
    BadTimestamp {
        server_timestamp: Timestamp,
        client_timestamp: Timestamp,
        ballpark_client_early_offset: i64,
        ballpark_client_late_offset: i64,
    },
    Internal,
}

/// How resolving one child manifest can fail.
#[derive(Clone, Copy, PartialEq, Eq, Structural, Debug)]
pub enum GetChildManifestError {
    Offline,
    NotFound,
    NotAllowed,
    InvalidCertificate,
    InvalidManifest,
    BadTimestamp {
        server_timestamp: Timestamp,
        client_timestamp: Timestamp,
        ballpark_client_early_offset: i64,
        ballpark_client_late_offset: i64,
    },
    Internal,
}

/// How resolving a whole path can fail.  An internal failure is annotated
/// with the entry whose resolution broke, when one is known.
#[derive(Clone, Copy, PartialEq, Eq, Structural, Debug)]
pub enum EntryIDFromPathError {
    NotFound,
    Offline,
    NotAllowed,
    InvalidCertificate,
    InvalidManifest,
    BadTimestamp {
        server_timestamp: Timestamp,
        client_timestamp: Timestamp,
        ballpark_client_early_offset: i64,
        ballpark_client_late_offset: i64,
    },
    Internal { entry_id: Option<EntryId> },
}

/// How assembling an entry summary can fail.  An internal failure is
/// annotated with the entry whose resolution broke, when one is known.
#[derive(Clone, Copy, PartialEq, Eq, Structural, Debug)]
pub enum EntryInfoError {
    Offline,
    NotFound,
    NotAllowed,
    InvalidCertificate,
    InvalidManifest,
    BadTimestamp {
        server_timestamp: Timestamp,
        client_timestamp: Timestamp,
        ballpark_client_early_offset: i64,
        ballpark_client_late_offset: i64,
    },
    Internal { entry_id: Option<EntryId> },
}

/// How a fetch failure surfaces from child-manifest resolution: every kind
/// passes through unchanged, except `BadVersion`, which no unpinned fetch may
/// report and which therefore becomes an internal failure.
pub open spec fn spec_fetch_to_get_error(e: FetchRemoteManifestError) -> GetChildManifestError {
    match e {
        FetchRemoteManifestError::Offline => GetChildManifestError::Offline,
        FetchRemoteManifestError::NotFound => GetChildManifestError::NotFound,
        FetchRemoteManifestError::NotAllowed => GetChildManifestError::NotAllowed,
        FetchRemoteManifestError::InvalidCertificate => GetChildManifestError::InvalidCertificate,
        FetchRemoteManifestError::InvalidManifest => GetChildManifestError::InvalidManifest,
        FetchRemoteManifestError::BadVersion => GetChildManifestError::Internal,
        FetchRemoteManifestError::BadTimestamp {
            server_timestamp,
            client_timestamp,
            ballpark_client_early_offset,
            ballpark_client_late_offset,
        } => GetChildManifestError::BadTimestamp {
            server_timestamp,
            client_timestamp,
            ballpark_client_early_offset,
            ballpark_client_late_offset,
        },
        FetchRemoteManifestError::Internal => GetChildManifestError::Internal,
    }
}

/// Translates a fetch failure into a child-resolution failure.
pub fn fetch_to_get_error(e: FetchRemoteManifestError) -> (r: GetChildManifestError)
    ensures
        r == spec_fetch_to_get_error(e),
{
    match e {
        FetchRemoteManifestError::Offline => GetChildManifestError::Offline,
        FetchRemoteManifestError::NotFound => GetChildManifestError::NotFound,
        FetchRemoteManifestError::NotAllowed => GetChildManifestError::NotAllowed,
        FetchRemoteManifestError::InvalidCertificate => GetChildManifestError::InvalidCertificate,
        FetchRemoteManifestError::InvalidManifest => GetChildManifestError::InvalidManifest,
        FetchRemoteManifestError::BadVersion => GetChildManifestError::Internal,
        FetchRemoteManifestError::BadTimestamp {
            server_timestamp,
            client_timestamp,
            ballpark_client_early_offset,
            ballpark_client_late_offset,
        } => GetChildManifestError::BadTimestamp {
            server_timestamp,
            client_timestamp,
            ballpark_client_early_offset,
            ballpark_client_late_offset,
        },
        FetchRemoteManifestError::Internal => GetChildManifestError::Internal,
    }
}

/// How a child-resolution failure surfaces from path resolution: one-to-one,
/// with internal failures annotated with the offending entry.
pub open spec fn spec_get_to_path_error(e: GetChildManifestError, entry_id: EntryId)
    -> EntryIDFromPathError {
    match e {
        GetChildManifestError::Offline => EntryIDFromPathError::Offline,
        GetChildManifestError::NotFound => EntryIDFromPathError::NotFound,
        GetChildManifestError::NotAllowed => EntryIDFromPathError::NotAllowed,
        GetChildManifestError::InvalidCertificate => EntryIDFromPathError::InvalidCertificate,
        GetChildManifestError::InvalidManifest => EntryIDFromPathError::InvalidManifest,
        GetChildManifestError::BadTimestamp {
            server_timestamp,
            client_timestamp,
            ballpark_client_early_offset,
            ballpark_client_late_offset,
        } => EntryIDFromPathError::BadTimestamp {
            server_timestamp,
            client_timestamp,
            ballpark_client_early_offset,
            ballpark_client_late_offset,
        },
        GetChildManifestError::Internal => EntryIDFromPathError::Internal {
            entry_id: Some(entry_id),
        },
    }
}

/// Translates a child-resolution failure into a path-resolution failure,
/// noting which entry's manifest could not be had.
pub fn get_to_path_error(e: GetChildManifestError, entry_id: EntryId) -> (r: EntryIDFromPathError)
    ensures
        r == spec_get_to_path_error(e, entry_id),
{
    match e {
        GetChildManifestError::Offline => EntryIDFromPathError::Offline,
        GetChildManifestError::NotFound => EntryIDFromPathError::NotFound,
        GetChildManifestError::NotAllowed => EntryIDFromPathError::NotAllowed,
        GetChildManifestError::InvalidCertificate => EntryIDFromPathError::InvalidCertificate,
        GetChildManifestError::InvalidManifest => EntryIDFromPathError::InvalidManifest,
        GetChildManifestError::BadTimestamp {
            server_timestamp,
            client_timestamp,
            ballpark_client_early_offset,
            ballpark_client_late_offset,
        } => EntryIDFromPathError::BadTimestamp {
            server_timestamp,
            client_timestamp,
            ballpark_client_early_offset,
            ballpark_client_late_offset,
        },
        GetChildManifestError::Internal => EntryIDFromPathError::Internal {
            entry_id: Some(entry_id),
        },
    }
}

/// How a path-resolution failure surfaces from summary assembly: one-to-one.
pub open spec fn spec_path_to_info_error(e: EntryIDFromPathError) -> EntryInfoError {
    match e {
        EntryIDFromPathError::NotFound => EntryInfoError::NotFound,
        EntryIDFromPathError::Offline => EntryInfoError::Offline,
        EntryIDFromPathError::NotAllowed => EntryInfoError::NotAllowed,
        EntryIDFromPathError::InvalidCertificate => EntryInfoError::InvalidCertificate,
        EntryIDFromPathError::InvalidManifest => EntryInfoError::InvalidManifest,
        EntryIDFromPathError::BadTimestamp {
            server_timestamp,
            client_timestamp,
            ballpark_client_early_offset,
            ballpark_client_late_offset,
        } => EntryInfoError::BadTimestamp {
            server_timestamp,
            client_timestamp,
            ballpark_client_early_offset,
            ballpark_client_late_offset,
        },
        EntryIDFromPathError::Internal { entry_id } => EntryInfoError::Internal { entry_id },
    }
}

/// Translates a path-resolution failure into a summary-assembly failure.
pub fn path_to_info_error(e: EntryIDFromPathError) -> (r: EntryInfoError)
    ensures
        r == spec_path_to_info_error(e),
{
    match e {
        EntryIDFromPathError::NotFound => EntryInfoError::NotFound,
        EntryIDFromPathError::Offline => EntryInfoError::Offline,
        EntryIDFromPathError::NotAllowed => EntryInfoError::NotAllowed,
        EntryIDFromPathError::InvalidCertificate => EntryInfoError::InvalidCertificate,
        EntryIDFromPathError::InvalidManifest => EntryInfoError::InvalidManifest,
        EntryIDFromPathError::BadTimestamp {
            server_timestamp,
            client_timestamp,
            ballpark_client_early_offset,
            ballpark_client_late_offset,
        } => EntryInfoError::BadTimestamp {
            server_timestamp,
            client_timestamp,
            ballpark_client_early_offset,
            ballpark_client_late_offset,
        },
        EntryIDFromPathError::Internal { entry_id } => EntryInfoError::Internal { entry_id },
    }
}

/// How a child-resolution failure surfaces from summary assembly: one-to-one,
/// with internal failures annotated with the offending entry.
pub open spec fn spec_get_to_info_error(e: GetChildManifestError, entry_id: EntryId)
    -> EntryInfoError {
    spec_path_to_info_error(spec_get_to_path_error(e, entry_id))
}

/// Translates a child-resolution failure into a summary-assembly failure,
/// noting which entry's manifest could not be had.
pub fn get_to_info_error(e: GetChildManifestError, entry_id: EntryId) -> (r: EntryInfoError)
    ensures
        r == spec_get_to_info_error(e, entry_id),
{
    path_to_info_error(get_to_path_error(e, entry_id))
}

} // verus!
