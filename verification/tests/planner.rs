use multipart_coordinator::errors::ApiError;
use multipart_coordinator::planner::{plan, CHUNK_SIZE, MAX_CHUNKS};

#[test]
fn plan_covers_total_for_many_sizes() {
    for total in 1u64..=200 {
        let p = plan(total, 7).unwrap();
        let sum = (p.chunk_count - 1) * p.chunk_size + p.last_chunk_size;
        assert_eq!(sum, total);
        let ceil = (total + 7 - 1) / 7;
        assert_eq!(p.chunk_count, ceil);
        assert!(p.last_chunk_size >= 1 && p.last_chunk_size <= 7);
    }
}

#[test]
fn plan_even_division_has_no_spurious_chunk() {
    let p = plan(10_485_760, 5_242_880).unwrap();
    assert_eq!(p.chunk_count, 2);
    assert_eq!(p.last_chunk_size, 5_242_880);
    assert_eq!(p.total_size, 10_485_760);
    assert_eq!(p.chunk_size, 5_242_880);
}

#[test]
fn plan_uneven_division_rounds_up() {
    let p = plan(7_000_000, 5_242_880).unwrap();
    assert_eq!(p.chunk_count, 2);
    assert_eq!(p.last_chunk_size, 7_000_000 - 5_242_880);
    let sum = (p.chunk_count - 1) * p.chunk_size + p.last_chunk_size;
    assert_eq!(sum, 7_000_000);
}

#[test]
fn plan_size_zero_is_invalid() {
    assert_eq!(plan(0, CHUNK_SIZE), Err(ApiError::InvalidSize));
    assert_eq!(plan(0, 1), Err(ApiError::InvalidSize));
}

#[test]
fn plan_rejects_too_many_chunks() {
    assert_eq!(plan(CHUNK_SIZE * 20_000, CHUNK_SIZE), Err(ApiError::TooManyChunks));
}

#[test]
fn plan_accepts_exactly_max_chunks() {
    let p = plan(CHUNK_SIZE * MAX_CHUNKS, CHUNK_SIZE).unwrap();
    assert_eq!(p.chunk_count, MAX_CHUNKS);
    assert_eq!(p.last_chunk_size, CHUNK_SIZE);
    assert_eq!(plan(CHUNK_SIZE * MAX_CHUNKS + 1, CHUNK_SIZE), Err(ApiError::TooManyChunks));
}

#[test]
fn plan_single_byte_is_one_chunk() {
    let p = plan(1, CHUNK_SIZE).unwrap();
    assert_eq!(p.chunk_count, 1);
    assert_eq!(p.last_chunk_size, 1);
}
