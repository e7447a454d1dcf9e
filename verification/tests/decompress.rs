use std::io::Write;

use flate2::write::GzEncoder;
use flate2::Compression;
use multipart_coordinator::decompress::decompressed_byte_count;
use multipart_coordinator::errors::ApiError;

fn gzip(payload: &[u8]) -> Vec<u8> {
    let mut encoder = GzEncoder::new(Vec::new(), Compression::default());
    encoder.write_all(payload).unwrap();
    encoder.finish().unwrap()
}

#[test]
fn reports_decompressed_byte_count_not_compressed() {
    let payload = vec![b'x'; 12345];
    let compressed = gzip(&payload);
    assert_ne!(compressed.len(), 12345);
    assert_eq!(decompressed_byte_count(&compressed), Ok(12345));
}

#[test]
fn empty_payload_decompresses_to_zero_bytes() {
    let compressed = gzip(b"");
    assert_eq!(decompressed_byte_count(&compressed), Ok(0));
}

#[test]
fn truncated_stream_is_a_decompression_error() {
    let compressed = gzip(&vec![b'y'; 4096]);
    let truncated = compressed[..compressed.len() / 2].to_vec();
    assert_eq!(decompressed_byte_count(&truncated), Err(ApiError::DecompressionError));
}

#[test]
fn garbage_bytes_are_a_decompression_error() {
    let garbage = vec![0x01, 0x02, 0x03, 0x04];
    assert_eq!(decompressed_byte_count(&garbage), Err(ApiError::DecompressionError));
}

#[test]
fn empty_input_is_a_decompression_error() {
    let empty: Vec<u8> = Vec::new();
    assert_eq!(decompressed_byte_count(&empty), Err(ApiError::DecompressionError));
}
