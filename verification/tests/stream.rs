use veya_core::sse::StreamParser;
use veya_core::sse::WireFormat;

fn feed_all(format: WireFormat, chunks: &[&[u8]]) -> (Vec<String>, bool) {
    let mut parser = StreamParser::new(format);
    let mut out: Vec<String> = Vec::new();
    for chunk in chunks {
        let mut frags = parser.feed(chunk);
        out.append(&mut frags);
    }
    (out, parser.done)
}

const OPENAI_STREAM: &[u8] = b"data: {\"choices\":[{\"delta\":{\"content\":\"Hel\"}}]}\n\ndata: {\"choices\":[{\"delta\":{\"content\":\"lo \"}}]}\n\ndata: {\"choices\":[{\"delta\":{\"content\":\"world\"}}]}\n\ndata: [DONE]\n\n";

#[test]
fn openai_stream_extracts_fragments_and_stops_on_done() {
    let (frags, done) = feed_all(WireFormat::OpenAi, &[OPENAI_STREAM]);
    assert_eq!(frags, vec!["Hel", "lo ", "world"]);
    assert!(done);
    assert_eq!(frags.concat(), "Hello world");
}

#[test]
fn openai_stream_is_chunking_invariant() {
    let whole = feed_all(WireFormat::OpenAi, &[OPENAI_STREAM]);
    // Byte-by-byte delivery.
    let bytes: Vec<&[u8]> = OPENAI_STREAM.chunks(1).collect();
    let tiny = feed_all(WireFormat::OpenAi, &bytes);
    assert_eq!(whole, tiny);
    // An awkward split straddling the blank-line delimiter.
    let (a, b) = OPENAI_STREAM.split_at(49);
    let two = feed_all(WireFormat::OpenAi, &[a, b]);
    assert_eq!(whole, two);
    // Split every 7 bytes.
    let sevens: Vec<&[u8]> = OPENAI_STREAM.chunks(7).collect();
    assert_eq!(whole, feed_all(WireFormat::OpenAi, &sevens));
}

#[test]
fn anthropic_stream_takes_only_content_block_deltas() {
    let stream: &[u8] = b"data: {\"type\":\"message_start\",\"message\":{}}\n\ndata: {\"type\":\"content_block_delta\",\"delta\":{\"text\":\"Bon\"}}\n\ndata: {\"type\":\"content_block_delta\",\"delta\":{\"text\":\"jour\"}}\n\ndata: {\"type\":\"message_stop\"}\n\n";
    let (frags, done) = feed_all(WireFormat::Anthropic, &[stream]);
    assert_eq!(frags, vec!["Bon", "jour"]);
    assert!(!done);
    let halves: Vec<&[u8]> = stream.chunks(11).collect();
    let (frags2, _) = feed_all(WireFormat::Anthropic, &halves);
    assert_eq!(frags, frags2);
}

#[test]
fn malformed_payloads_are_swallowed() {
    let stream: &[u8] = b"data: {not json}\n\ndata: {\"choices\":[]}\n\ndata: {\"choices\":[{\"delta\":{\"content\":\"ok\"}}]}\n\nnot a data line\n\n";
    let (frags, done) = feed_all(WireFormat::OpenAi, &[stream]);
    assert_eq!(frags, vec!["ok"]);
    assert!(!done);
}

#[test]
fn fragments_after_done_are_ignored() {
    let stream: &[u8] = b"data: [DONE]\n\ndata: {\"choices\":[{\"delta\":{\"content\":\"late\"}}]}\n\n";
    let (frags, done) = feed_all(WireFormat::OpenAi, &[stream]);
    assert!(frags.is_empty());
    assert!(done);
}

#[test]
fn incomplete_event_stays_buffered() {
    let mut parser = StreamParser::new(WireFormat::OpenAi);
    let frags = parser.feed(b"data: {\"choices\":[{\"delta\":{\"content\":\"x\"}}]}");
    assert!(frags.is_empty());
    let frags = parser.feed(b"\n\n");
    assert_eq!(frags, vec!["x"]);
}

#[test]
fn extracted_fragment_is_payload_content_not_payload() {
    // Would fail if the extraction wrapper handed its input back.
    let (frags, _) = feed_all(
        WireFormat::OpenAi,
        &[b"data: {\"choices\":[{\"delta\":{\"content\":\"inner\"}}]}\n\n"],
    );
    assert_eq!(frags, vec!["inner"]);
}
