use multipart_coordinator::planner::CHUNK_SIZE;
use multipart_coordinator::errors::ApiError;
use multipart_coordinator::session::{GatewayAction, InitiateFlow, PART_URL_TTL_SECS};

#[test]
fn initiate_two_part_upload_in_order() {
    let mut flow = InitiateFlow::begin("big.bin".to_string(), 7_000_000, 5_242_880).unwrap();

    match flow.next_action() {
        Some(GatewayAction::InitiateMultipart { key }) => assert_eq!(key, "big.bin"),
        _ => panic!("expected the flow to open the multipart upload first"),
    }
    flow.supply_upload_id("upload-123".to_string());

    match flow.next_action() {
        Some(GatewayAction::AuthorizePart { key, upload_id, part_number, ttl_secs }) => {
            assert_eq!(key, "big.bin");
            assert_eq!(upload_id, "upload-123");
            assert_eq!(part_number, 1);
            assert_eq!(ttl_secs, PART_URL_TTL_SECS);
        }
        _ => panic!("expected authorization of part 1"),
    }
    assert!(!flow.is_complete());
    flow.supply_part_url("https://signed.example/part-1".to_string());

    match flow.next_action() {
        Some(GatewayAction::AuthorizePart { part_number, .. }) => assert_eq!(part_number, 2),
        _ => panic!("expected authorization of part 2"),
    }
    flow.supply_part_url("https://signed.example/part-2".to_string());

    assert!(flow.is_complete());
    assert!(flow.next_action().is_none());

    let response = flow.finish();
    assert_eq!(response.upload_id, "upload-123");
    assert_eq!(
        response.signed_urls,
        vec![
            "https://signed.example/part-1".to_string(),
            "https://signed.example/part-2".to_string(),
        ]
    );
    assert_ne!(response.signed_urls[0], response.signed_urls[1]);
}

#[test]
fn initiate_rejects_zero_size() {
    let r = InitiateFlow::begin("k".to_string(), 0, CHUNK_SIZE);
    assert!(matches!(r, Err(ApiError::InvalidSize)));
}

#[test]
fn initiate_rejects_oversized_plan() {
    let r = InitiateFlow::begin("k".to_string(), CHUNK_SIZE * 20_000, CHUNK_SIZE);
    assert!(matches!(r, Err(ApiError::TooManyChunks)));
}

#[test]
fn initiate_single_chunk_upload() {
    let mut flow = InitiateFlow::begin("small.bin".to_string(), 10, CHUNK_SIZE).unwrap();
    match flow.next_action() {
        Some(GatewayAction::InitiateMultipart { .. }) => {}
        _ => panic!("expected the flow to open the multipart upload first"),
    }
    flow.supply_upload_id("u".to_string());
    match flow.next_action() {
        Some(GatewayAction::AuthorizePart { part_number, .. }) => assert_eq!(part_number, 1),
        _ => panic!("expected authorization of part 1"),
    }
    flow.supply_part_url("https://signed.example/only".to_string());
    assert!(flow.is_complete());
    let response = flow.finish();
    assert_eq!(response.signed_urls.len(), 1);
}
