use live_metrics::upload::{
    can_retry_item, can_retry_operation, handle_response, serialize_request_body, Transmission,
    TransmissionItem, UploadError,
};
use std::io::Read;

fn body(received: u64, accepted: u64, error_statuses: &[u16]) -> Transmission {
    Transmission {
        items_received: received,
        items_accepted: accepted,
        errors: error_statuses.iter().map(|&status_code| TransmissionItem { status_code }).collect(),
    }
}

#[test]
fn ok_is_success_without_a_body() {
    assert!(handle_response(200, None).is_ok());
}

#[test]
fn partial_content_with_all_accepted_is_success() {
    assert!(handle_response(206, Some(body(2, 2, &[]))).is_ok());
}

#[test]
fn partial_content_with_retryable_item_is_retryable() {
    let r = handle_response(206, Some(body(2, 1, &[429])));
    assert!(matches!(r, Err(UploadError::Upload { status: 206, can_retry: true })));
}

#[test]
fn partial_content_with_final_item_is_final() {
    let r = handle_response(206, Some(body(2, 1, &[400])));
    assert!(matches!(r, Err(UploadError::Upload { status: 206, can_retry: false })));
}

#[test]
fn server_error_without_retryable_items_is_final() {
    let r = handle_response(500, Some(body(1, 0, &[])));
    assert!(matches!(r, Err(UploadError::Upload { status: 500, can_retry: false })));
    let r = handle_response(500, Some(body(1, 0, &[400])));
    assert!(matches!(r, Err(UploadError::Upload { status: 500, can_retry: false })));
}

#[test]
fn server_error_with_retryable_item_is_retryable() {
    let r = handle_response(500, Some(body(1, 0, &[503])));
    assert!(matches!(r, Err(UploadError::Upload { status: 500, can_retry: true })));
}

#[test]
fn throttling_statuses_are_retryable_without_a_body() {
    for status in [408_u16, 429, 439, 503] {
        let r = handle_response(status, None);
        match r {
            Err(UploadError::Upload { status: s, can_retry }) => {
                assert_eq!(s, status);
                assert!(can_retry);
            },
            _ => panic!("expected a retryable upload error"),
        }
    }
}

#[test]
fn undecodable_body_is_a_deserialize_error() {
    assert!(matches!(handle_response(206, None), Err(UploadError::UploadDeserializeResponse)));
    assert!(matches!(handle_response(500, None), Err(UploadError::UploadDeserializeResponse)));
}

#[test]
fn other_statuses_are_final_failures() {
    for status in [301_u16, 400, 401, 404] {
        let r = handle_response(status, None);
        assert!(matches!(r, Err(UploadError::Upload { can_retry: false, .. })));
    }
}

#[test]
fn retryable_item_statuses() {
    for status in [206_u16, 408, 429, 439, 500, 503] {
        assert!(can_retry_item(&TransmissionItem { status_code: status }));
    }
    for status in [200_u16, 204, 400, 401, 502] {
        assert!(!can_retry_item(&TransmissionItem { status_code: status }));
    }
}

#[test]
fn transport_errors_are_retryable() {
    assert!(can_retry_operation(&UploadError::UploadConnection));
    assert!(can_retry_operation(&UploadError::Upload { status: 500, can_retry: true }));
    assert!(!can_retry_operation(&UploadError::Upload { status: 400, can_retry: false }));
    assert!(!can_retry_operation(&UploadError::UploadSerializeRequest));
    assert!(!can_retry_operation(&UploadError::UploadDeserializeResponse));
    assert!(!can_retry_operation(&UploadError::UploadCompressRequest));
    assert!(!can_retry_operation(&UploadError::QuickPulseShutdown));
}

#[test]
fn request_body_is_gzip_of_the_input() {
    let input = b"a telemetry batch, long enough to squeeze: aaaaaaaaaaaaaaaaaaaaaa".to_vec();
    let compressed = serialize_request_body(input.clone()).unwrap();
    assert_ne!(compressed, input);
    // gzip magic and the deflate method byte.
    assert_eq!(&compressed[..3], &[0x1f, 0x8b, 8]);
    let mut decoder = flate2::read::GzDecoder::new(compressed.as_slice());
    let mut round_trip = Vec::new();
    decoder.read_to_end(&mut round_trip).unwrap();
    assert_eq!(round_trip, input);
}

#[test]
fn empty_body_still_compresses() {
    let compressed = serialize_request_body(Vec::new()).unwrap();
    let mut decoder = flate2::read::GzDecoder::new(compressed.as_slice());
    let mut round_trip = Vec::new();
    decoder.read_to_end(&mut round_trip).unwrap();
    assert!(round_trip.is_empty());
}
