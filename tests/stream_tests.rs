use async_openai_wasm::error::OpenAIError;
use async_openai_wasm::stream::{decode_lines, LineBuffer, StreamDecoder, StreamItem, StreamState};

fn lines(text: &[&str]) -> Vec<Vec<u8>> {
    text.iter().map(|l| l.as_bytes().to_vec()).collect()
}

#[test]
fn two_chunks_then_sentinel() {
    let input = lines(&["data: {\"id\":1}", "", "data: {\"id\":2}", "", "data: [DONE]"]);
    let out = decode_lines(&input);
    assert_eq!(out.len(), 2);
    match &out[0] {
        StreamItem::Chunk { data, value } => {
            assert_eq!(data.as_slice(), b"{\"id\":1}");
            assert_eq!(value["id"], 1);
        }
        StreamItem::Error(_) => panic!("unexpected error"),
    }
    match &out[1] {
        StreamItem::Chunk { value, .. } => assert_eq!(value["id"], 2),
        StreamItem::Error(_) => panic!("unexpected error"),
    }
}

#[test]
fn nothing_after_sentinel() {
    let input = lines(&["data: {\"a\":1}", "data: [DONE]", "data: {\"a\":2}"]);
    assert_eq!(decode_lines(&input).len(), 1);
}

#[test]
fn malformed_line_ends_stream() {
    let input = lines(&["data: {\"a\":1}", "data: {\"a\":2}", "data: {oops", "data: {\"a\":3}"]);
    let out = decode_lines(&input);
    assert_eq!(out.len(), 3);
    assert!(matches!(out[0], StreamItem::Chunk { .. }));
    assert!(matches!(out[1], StreamItem::Chunk { .. }));
    assert!(matches!(out[2], StreamItem::Error(OpenAIError::Deserialization(_))));
}

#[test]
fn comments_and_blank_lines_are_skipped() {
    let input = lines(&[": keep-alive", "", "event: x", "data:{\"a\":1}  ", "data: [DONE]"]);
    let out = decode_lines(&input);
    assert_eq!(out.len(), 1);
    match &out[0] {
        StreamItem::Chunk { data, .. } => assert_eq!(data.as_slice(), b"{\"a\":1}"),
        StreamItem::Error(_) => panic!("unexpected error"),
    }
}

#[test]
fn empty_choices_chunk_is_passed_through() {
    let input = lines(&["data: {\"choices\":[]}", "data: [DONE]"]);
    assert_eq!(decode_lines(&input).len(), 1);
}

#[test]
fn decoder_states() {
    let mut d = StreamDecoder::new();
    assert!(d.on_line(b"data: [DONE]").is_none());
    assert!(d.state == StreamState::Done);
    assert!(d.on_line(b"data: {}").is_none());
    let mut d = StreamDecoder::new();
    let e = d.on_transport_error("reset".to_string());
    assert!(matches!(e, Some(StreamItem::Error(OpenAIError::Transport(_)))));
    assert!(d.state == StreamState::Failed);
    assert!(d.on_line(b"data: {}").is_none());
}

#[test]
fn line_buffer_splits_on_newline() {
    let mut b = LineBuffer::new();
    b.push_bytes(b"data: {\"a\"");
    assert!(b.next_line().is_none());
    b.push_bytes(b":1}\n\ndata: [DONE]\n");
    assert_eq!(b.next_line().unwrap(), b"data: {\"a\":1}".to_vec());
    assert_eq!(b.next_line().unwrap(), Vec::<u8>::new());
    assert_eq!(b.next_line().unwrap(), b"data: [DONE]".to_vec());
    assert!(b.next_line().is_none());
    assert!(b.backlog.is_empty());
}

#[test]
fn transport_error_carries_message() {
    let mut d = StreamDecoder::new();
    match d.on_transport_error("connection reset".to_string()) {
        Some(StreamItem::Error(OpenAIError::Transport(m))) => assert_eq!(m, "connection reset"),
        _ => panic!("expected a transport error"),
    }
}

#[test]
fn rejected_chunk_ends_stream() {
    let mut d = StreamDecoder::new();
    assert!(matches!(d.on_line(b"data: {\"role\":\"robot\"}"), Some(StreamItem::Chunk { .. })));
    match d.reject_chunk("unknown variant `robot`".to_string()) {
        Some(StreamItem::Error(OpenAIError::Deserialization(m))) => assert_eq!(m, "unknown variant `robot`"),
        _ => panic!("expected a deserialization error"),
    }
    assert!(d.state == StreamState::Failed);
    assert!(d.on_line(b"data: {}").is_none());
    assert!(d.reject_chunk("again".to_string()).is_none());
}
