use upload_coordinator::errors::AppError;
use upload_coordinator::models::UploadChunkRecord;
use upload_coordinator::parts::{collect_part_descriptors, sort_chunks_by_index};

fn record(index: u16, size: u64, etag: Option<&str>) -> UploadChunkRecord {
    UploadChunkRecord { chunk_index: index, chunk_size: size, etag: etag.map(|t| t.to_string()) }
}

#[test]
fn collect_part_descriptors_orders_parts_by_index() {
    let chunks = vec![
        UploadChunkRecord { chunk_index: 1, chunk_size: 10, etag: Some("etag-two".into()) },
        UploadChunkRecord { chunk_index: 0, chunk_size: 10, etag: Some("etag-one".into()) },
    ];

    let parts = collect_part_descriptors(&chunks).unwrap();
    assert_eq!(parts.len(), 2);
    assert_eq!(parts[0].part_number, 2);
    assert_eq!(parts[0].etag, "etag-two");
    assert_eq!(parts[1].part_number, 1);
    assert_eq!(parts[1].etag, "etag-one");
}

#[test]
fn collect_part_descriptors_fails_without_etag() {
    let chunks = vec![UploadChunkRecord { chunk_index: 0, chunk_size: 10, etag: None }];

    let error = collect_part_descriptors(&chunks).unwrap_err();
    assert!(matches!(error, AppError::ValidationError { .. }));
}

#[test]
fn missing_etag_message_names_the_chunk() {
    let chunks = vec![record(3, 5, Some("a")), record(7, 5, None), record(9, 5, None)];
    match collect_part_descriptors(&chunks).unwrap_err() {
        AppError::ValidationError { message } => assert_eq!(message, "Missing ETag for chunk 7"),
        other => panic!("unexpected error {:?}", other),
    }
}

#[test]
fn last_index_has_no_part_number() {
    let chunks = vec![record(u16::MAX, 5, Some("a"))];
    let error = collect_part_descriptors(&chunks).unwrap_err();
    assert!(matches!(error, AppError::InvalidChunkIndex { index: 65535 }));
}

#[test]
fn sorting_orders_chunks_ascending() {
    let chunks = vec![record(2, 30, Some("c")), record(0, 10, Some("a")), record(1, 20, Some("b"))];
    let sorted = sort_chunks_by_index(&chunks);
    let indices: Vec<u16> = sorted.iter().map(|c| c.chunk_index).collect();
    assert_eq!(indices, vec![0, 1, 2]);
    assert_eq!(sorted[0].etag.as_deref(), Some("a"));
    assert_eq!(sorted[2].chunk_size, 30);
}

#[test]
fn sorting_empty_and_single() {
    assert!(sort_chunks_by_index(&[]).is_empty());
    let one = sort_chunks_by_index(&[record(4, 1, None)]);
    assert_eq!(one.len(), 1);
    assert_eq!(one[0].chunk_index, 4);
}

#[test]
fn sorted_parts_do_not_depend_on_arrival_order() {
    let orders: [[u16; 3]; 3] = [[2, 0, 1], [0, 1, 2], [1, 2, 0]];
    for order in orders.iter() {
        let chunks: Vec<UploadChunkRecord> = order
            .iter()
            .map(|&i| record(i, 100, Some(&format!("tag-{}", i))))
            .collect();
        let parts = collect_part_descriptors(&sort_chunks_by_index(&chunks)).unwrap();
        let numbers: Vec<u16> = parts.iter().map(|p| p.part_number).collect();
        assert_eq!(numbers, vec![1, 2, 3]);
        assert_eq!(parts[0].etag, "tag-0");
        assert_eq!(parts[2].etag, "tag-2");
    }
}
