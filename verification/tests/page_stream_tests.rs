use video_store::page::{frontend_page, FRONTEND_HTML};
use video_store::stream::BlobCursor;

#[test]
fn front_page_is_html_with_player() {
    let r = frontend_page();
    assert_eq!(r.status, 200);
    assert_eq!(r.content_type, "text/html");
    assert!(r.body.contains("video-js"));
    assert!(r.body.contains("/upload"));
    assert_eq!(r.body, FRONTEND_HTML);
}

#[test]
fn cursor_chunks_reassemble_exactly() {
    let blob: Vec<u8> = (0u8..100).collect();
    let mut cursor = BlobCursor::new(blob.clone());
    let mut collected: Vec<u8> = Vec::new();
    while let Some(chunk) = cursor.next_chunk(7) {
        assert!(!chunk.is_empty());
        assert!(chunk.len() <= 7);
        collected.extend_from_slice(&chunk);
    }
    assert_eq!(collected, blob);
}

#[test]
fn cursor_yields_data_before_the_end_is_read() {
    let blob = vec![5u8; 64];
    let mut cursor = BlobCursor::new(blob);
    let first = cursor.next_chunk(16).unwrap();
    assert_eq!(first, vec![5u8; 16]);
    // 48 bytes are still unread; the first chunk is already complete.
    let second = cursor.next_chunk(16).unwrap();
    assert_eq!(second, vec![5u8; 16]);
}

#[test]
fn cursor_on_empty_blob_ends_at_once() {
    let mut cursor = BlobCursor::new(Vec::new());
    assert!(cursor.next_chunk(8).is_none());
}

#[test]
fn cursor_last_chunk_is_short() {
    let blob = vec![1u8, 2, 3, 4, 5];
    let mut cursor = BlobCursor::new(blob);
    assert_eq!(cursor.next_chunk(4), Some(vec![1, 2, 3, 4]));
    assert_eq!(cursor.next_chunk(4), Some(vec![5]));
    assert_eq!(cursor.next_chunk(4), None);
}
