use warp_adapter::body::BodyCursor;

#[test]
fn cursor_yields_chunks_incrementally_and_in_order() {
    // Three chunks; each poll hands out exactly one, observable at once,
    // before the later chunks are touched.
    let mut cursor = BodyCursor::new(vec![b"a".to_vec(), b"b".to_vec(), b"c".to_vec()]);
    assert_eq!(cursor.chunks_left(), 3);

    let first = cursor.poll_chunk();
    assert_eq!(first, Some(b"a".to_vec()));
    assert_eq!(cursor.chunks_left(), 2);

    let second = cursor.poll_chunk();
    assert_eq!(second, Some(b"b".to_vec()));
    assert_eq!(cursor.chunks_left(), 1);

    let third = cursor.poll_chunk();
    assert_eq!(third, Some(b"c".to_vec()));
    assert_eq!(cursor.chunks_left(), 0);
}

#[test]
fn exhausted_cursor_keeps_answering_none() {
    let mut cursor = BodyCursor::new(vec![b"only".to_vec()]);
    assert_eq!(cursor.poll_chunk(), Some(b"only".to_vec()));
    assert_eq!(cursor.poll_chunk(), None);
    assert_eq!(cursor.poll_chunk(), None);
    assert_eq!(cursor.chunks_left(), 0);
}

#[test]
fn empty_body_cursor_is_exhausted_from_the_start() {
    let mut cursor = BodyCursor::new(Vec::new());
    assert_eq!(cursor.chunks_left(), 0);
    assert_eq!(cursor.poll_chunk(), None);
}

#[test]
fn empty_chunks_are_kept_not_dropped() {
    let mut cursor = BodyCursor::new(vec![Vec::new(), b"x".to_vec(), Vec::new()]);
    assert_eq!(cursor.poll_chunk(), Some(Vec::new()));
    assert_eq!(cursor.poll_chunk(), Some(b"x".to_vec()));
    assert_eq!(cursor.poll_chunk(), Some(Vec::new()));
    assert_eq!(cursor.poll_chunk(), None);
}
