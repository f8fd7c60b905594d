use quic_h3_emscripten::preview::{BodyPreview, PREVIEW_LIMIT};

#[test]
fn preview_limit_is_120_bytes() {
    assert_eq!(PREVIEW_LIMIT, 120);
}

#[test]
fn chunks_are_counted_and_first_bytes_kept() {
    let mut p = BodyPreview::new();
    p.push_chunk(b"hello ");
    p.push_chunk(b"world");
    assert_eq!(p.body_len(), 11);
    assert_eq!(p.first_bytes(), b"hello world");
    assert_eq!(p.preview(), "hello world");
}

#[test]
fn only_the_first_120_bytes_are_kept_whatever_the_chunking() {
    let body: Vec<u8> = (0..1000u32).map(|i| b'a' + (i % 26) as u8).collect();
    for chunk in [1usize, 7, 119, 120, 121, 500, 1000] {
        let mut p = BodyPreview::new();
        for part in body.chunks(chunk) {
            p.push_chunk(part);
        }
        assert_eq!(p.body_len(), 1000);
        assert_eq!(p.first_bytes(), &body[..120]);
    }
}

#[test]
fn short_body_is_kept_whole() {
    let mut p = BodyPreview::new();
    p.push_chunk(b"<!DOCTYPE html>\n");
    p.push_chunk(b"");
    assert_eq!(p.body_len(), 16);
    assert_eq!(p.first_bytes(), b"<!DOCTYPE html>\n");
    assert_eq!(p.preview(), "<!DOCTYPE html>");
}

#[test]
fn whole_body_keeps_everything() {
    let body = vec![b'x'; 5000];
    let mut p = BodyPreview::whole_body();
    for part in body.chunks(333) {
        p.push_chunk(part);
    }
    assert_eq!(p.body_len(), 5000);
    assert_eq!(p.first_bytes(), &body[..]);
}

#[test]
fn body_frame_reports_the_last_frame() {
    let mut p = BodyPreview::new();
    assert!(!p.push_body_frame(b"abc", false));
    assert!(p.push_body_frame(b"def", true));
    assert_eq!(p.body_len(), 6);
    assert_eq!(p.first_bytes(), b"abcdef");
}

#[test]
fn empty_body_preview_is_empty() {
    let p = BodyPreview::new();
    assert_eq!(p.body_len(), 0);
    assert_eq!(p.preview(), "");
}
