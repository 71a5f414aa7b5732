//! Retry classification for the batch telemetry uploader.
//!
//! The ingest service answers a batch POST with an HTTP status and, for
//! partial or server failures, a JSON body listing per-item status codes.
//! This module decides whether the whole operation succeeded, and whether a
//! failed operation or a failed item is worth retrying.

use std::io::Write;
use vstd::prelude::*;

verus! {

/// The gzip encoding of a byte string at flate2's default level.  The
/// encoder writes a fixed header (zero mtime, unknown operating system), so
/// the output is a function of the input bytes alone.
pub uninterp spec fn spec_gzip(data: Seq<u8>) -> Seq<u8>;

/// Relies on `flate2::write::GzEncoder` at `Compression::default()`: the
/// gzip stream for the given bytes.  It always succeeds: the encoder
/// writes into a growable `Vec`, whose `Write` impl never errors, and the
/// compressor itself cannot fail.
#[verifier::external_body]
fn gzip_compress(data: &Vec<u8>) -> (r: Option<Vec<u8>>)
    ensures
        r is Some,
        r matches Some(v) ==> v@ == spec_gzip(data@),
{
    let mut encoder = flate2::write::GzEncoder::new(Vec::new(), flate2::Compression::default());
    if encoder.write_all(data).is_err() {
        return None;
    }
    encoder.finish().ok()
}

/// HTTP statuses with a meaning of their own to the ingest service.
pub const STATUS_OK: u16 = 200;
pub const STATUS_PARTIAL_CONTENT: u16 = 206;
pub const STATUS_REQUEST_TIMEOUT: u16 = 408;
pub const STATUS_TOO_MANY_REQUESTS: u16 = 429;
pub const STATUS_APPLICATION_INACTIVE: u16 = 439;
pub const STATUS_INTERNAL_SERVER_ERROR: u16 = 500;
pub const STATUS_SERVICE_UNAVAILABLE: u16 = 503;

/// One failed item in the ingest service's response body.
#[derive(Debug)]
pub struct TransmissionItem {
    pub status_code: u16,
}

/// The ingest service's decoded response body.
#[derive(Debug)]
pub struct Transmission {
    pub items_received: u64,
    pub items_accepted: u64,
    pub errors: Vec<TransmissionItem>,
}

/// What can go wrong while uploading telemetry.
#[derive(Debug)]
pub enum UploadError {
    /// The request could not be sent or no response arrived.
    UploadConnection,
    /// The service answered with a non-success status.
    Upload { status: u16, can_retry: bool },
    /// The batch could not be serialized.
    UploadSerializeRequest,
    /// The request body could not be compressed.
    UploadCompressRequest,
    /// The service's response body could not be decoded.
    UploadDeserializeResponse,
    /// The live-metrics control loop could not be told to stop.
    QuickPulseShutdown,
}

/// An item status the service considers transient.
pub open spec fn spec_retryable_status(status: u16) -> bool {
    ||| status == STATUS_PARTIAL_CONTENT
    ||| status == STATUS_REQUEST_TIMEOUT
    ||| status == STATUS_TOO_MANY_REQUESTS
    ||| status == STATUS_APPLICATION_INACTIVE
    ||| status == STATUS_INTERNAL_SERVER_ERROR
    ||| status == STATUS_SERVICE_UNAVAILABLE
}

/// Some listed item failed with a transient status.
pub open spec fn spec_any_retryable(errors: Seq<TransmissionItem>) -> bool {
    exists|i: int| 0 <= i < errors.len() && spec_retryable_status(errors[i].status_code)
}

/// How `handle_response` reads a response: `status` is the HTTP status, and
/// `body` the decoded response body where one arrived and decoded, `None`
/// otherwise.
pub open spec fn spec_handle_response(status: u16, body: Option<Transmission>) -> Result<(), UploadError> {
    if status == STATUS_OK {
        Ok(())
    } else if status == STATUS_PARTIAL_CONTENT || status == STATUS_INTERNAL_SERVER_ERROR {
        match body {
            None => Err(UploadError::UploadDeserializeResponse),
            Some(t) => {
                if status == STATUS_PARTIAL_CONTENT && t.items_received == t.items_accepted {
                    Ok(())
                } else {
                    Err(UploadError::Upload { status, can_retry: spec_any_retryable(t.errors@) })
                }
            },
        }
    } else if status == STATUS_REQUEST_TIMEOUT || status == STATUS_TOO_MANY_REQUESTS
        || status == STATUS_APPLICATION_INACTIVE || status == STATUS_SERVICE_UNAVAILABLE {
        Err(UploadError::Upload { status, can_retry: true })
    } else {
        Err(UploadError::Upload { status, can_retry: false })
    }
}

/// A telemetry item may be re-sent when its per-item submission status is in
/// the service's transient set.
pub fn can_retry_item(item: &TransmissionItem) -> (r: bool)
    ensures
        r == spec_retryable_status(item.status_code),
{
    item.status_code == STATUS_PARTIAL_CONTENT
        || item.status_code == STATUS_REQUEST_TIMEOUT
        || item.status_code == STATUS_TOO_MANY_REQUESTS
        || item.status_code == STATUS_APPLICATION_INACTIVE
        || item.status_code == STATUS_INTERNAL_SERVER_ERROR
        || item.status_code == STATUS_SERVICE_UNAVAILABLE
}

/// A whole upload is retried on connection failures and on service answers
/// marked retryable; every other failure is final.
pub fn can_retry_operation(error: &UploadError) -> (r: bool)
    ensures
        r == (error is UploadConnection || (error matches UploadError::Upload { can_retry: true, .. })),
{
    match error {
        UploadError::UploadConnection => true,
        UploadError::Upload { can_retry, .. } => *can_retry,
        _ => false,
    }
}

/// Classify the ingest service's answer to a batch POST.
///
/// `body` carries the decoded response body, `None` where none could be
/// decoded; it is consulted only for the statuses whose bodies matter
/// (partial content and internal server error).
pub fn handle_response(status: u16, body: Option<Transmission>) -> (r: Result<(), UploadError>)
    ensures
        r == spec_handle_response(status, body),
{
    if status == STATUS_OK {
        Ok(())
    } else if status == STATUS_PARTIAL_CONTENT || status == STATUS_INTERNAL_SERVER_ERROR {
        match body {
            None => Err(UploadError::UploadDeserializeResponse),
            Some(t) => {
                if status == STATUS_PARTIAL_CONTENT && t.items_received == t.items_accepted {
                    Ok(())
                } else {
                    Err(UploadError::Upload { status, can_retry: any_retryable(&t.errors) })
                }
            },
        }
    } else if status == STATUS_REQUEST_TIMEOUT || status == STATUS_TOO_MANY_REQUESTS
        || status == STATUS_APPLICATION_INACTIVE || status == STATUS_SERVICE_UNAVAILABLE {
        Err(UploadError::Upload { status, can_retry: true })
    } else {
        Err(UploadError::Upload { status, can_retry: false })
    }
}

/// Compress a serialized request body for the wire.
///
/// Always returns the gzip stream of the bytes; the error side of the
/// result only keeps the signature callers expect.
pub fn serialize_request_body(data: Vec<u8>) -> (r: Result<Vec<u8>, UploadError>)
    ensures
        r matches Ok(v) && v@ == spec_gzip(data@),
{
    match gzip_compress(&data) {
        Some(v) => Ok(v),
        None => Err(UploadError::UploadCompressRequest),
    }
}

/// Whether any listed item failed with a transient status.
fn any_retryable(errors: &Vec<TransmissionItem>) -> (r: bool)
    ensures
        r == spec_any_retryable(errors@),
{
    let mut i: usize = 0;
    while i < errors.len()
        invariant
            0 <= i <= errors@.len(),
            forall|j: int| 0 <= j < i ==> !spec_retryable_status(errors@[j].status_code),
        decreases errors@.len() - i,
    {
        if can_retry_item(&errors[i]) {
            return true;
        }
        i = i + 1;
    }
    false
}

} // verus!
