use ptybridge::endpoint::{sock_path_for, u64_dec};
use ptybridge::relay::{relay_chunk, relay_event};
use ptybridge::events::{apply_event, extract_event_fields, handle_event, EventFields};
use ptybridge::input::route_input;
use ptybridge::msg::{InAction, InMsg, OutMsg};
use ptybridge::router::process_chunk;
use ptybridge::scan::contains_seq;

const ENTER: &[u8] = b"\x1b[?1049h";
const EXIT: &[u8] = b"\x1b[?1049l";

#[test]
fn contains_seq_finds_inner_match() {
    assert!(contains_seq(b"abc\x1b[?1049hxyz", ENTER));
}

#[test]
fn contains_seq_finds_match_at_start_and_end() {
    assert!(contains_seq(b"\x1b[?1049h tail", ENTER));
    assert!(contains_seq(b"head \x1b[?1049h", ENTER));
    assert!(contains_seq(ENTER, ENTER));
}

#[test]
fn contains_seq_rejects_absent_and_partial() {
    assert!(!contains_seq(b"plain output", ENTER));
    assert!(!contains_seq(b"\x1b[?1049", ENTER));
    assert!(!contains_seq(b"xy", b"xyz"));
}

#[test]
fn empty_chunk_emits_single_close() {
    let (alt, out) = process_chunk(true, Vec::new(), &None);
    assert!(alt);
    assert_eq!(out, vec![OutMsg::Close]);
    let (alt2, out2) = process_chunk(false, Vec::new(), &Some("b1".to_string()));
    assert!(!alt2);
    assert_eq!(out2, vec![OutMsg::Close]);
}

#[test]
fn raw_bytes_forwarded_exactly_once_unmodified() {
    let chunk = b"hello\n".to_vec();
    let (alt, out) = process_chunk(false, chunk.clone(), &None);
    assert!(!alt);
    assert_eq!(out, vec![OutMsg::Bytes(chunk)]);
}

#[test]
fn enter_sequence_emits_one_on_notice() {
    let chunk = b"abc\x1b[?1049hxyz".to_vec();
    let (alt, out) = process_chunk(false, chunk.clone(), &None);
    assert!(alt);
    assert_eq!(out, vec![OutMsg::Bytes(chunk), OutMsg::AltScreen(true)]);
}

#[test]
fn repeated_enter_sequence_emits_no_second_notice() {
    let chunk = b"abc\x1b[?1049hxyz".to_vec();
    let (alt, _) = process_chunk(false, chunk.clone(), &None);
    assert!(alt);
    let (alt2, out2) = process_chunk(alt, chunk.clone(), &None);
    assert!(alt2);
    assert_eq!(out2, vec![OutMsg::Bytes(chunk)]);
}

#[test]
fn exit_sequence_without_alt_emits_no_notice() {
    let chunk = b"x\x1b[?1049ly".to_vec();
    let (alt, out) = process_chunk(false, chunk.clone(), &None);
    assert!(!alt);
    assert_eq!(out, vec![OutMsg::Bytes(chunk)]);
}

#[test]
fn exit_sequence_clears_alt_with_notice() {
    let chunk = b"x\x1b[?1049ly".to_vec();
    let (alt, out) = process_chunk(true, chunk.clone(), &None);
    assert!(!alt);
    assert_eq!(out, vec![OutMsg::Bytes(chunk), OutMsg::AltScreen(false)]);
}

#[test]
fn enter_and_exit_in_one_chunk_emit_both_notices() {
    let mut chunk = Vec::new();
    chunk.extend_from_slice(ENTER);
    chunk.extend_from_slice(b"full screen");
    chunk.extend_from_slice(EXIT);
    let (alt, out) = process_chunk(false, chunk.clone(), &None);
    assert!(!alt);
    assert_eq!(
        out,
        vec![
            OutMsg::Bytes(chunk),
            OutMsg::AltScreen(true),
            OutMsg::AltScreen(false)
        ]
    );
}

#[test]
fn opened_event_then_chunk_attributes_output() {
    let raw = "{\"type\":\"block_event\",\"event\":\"opened\",\"block\":{\"id\":\"b1\"}}";
    let (block, out) = handle_event(None, raw.to_string());
    assert_eq!(block, Some("b1".to_string()));
    assert_eq!(out, vec![OutMsg::Event(raw.to_string())]);

    let chunk = b"hello\n".to_vec();
    let (_, out2) = process_chunk(false, chunk.clone(), &block);
    assert_eq!(
        out2,
        vec![
            OutMsg::Bytes(chunk),
            OutMsg::BlockChunk {
                id: "b1".to_string(),
                text: "hello\n".to_string()
            }
        ]
    );
}

#[test]
fn closed_event_stops_attribution() {
    let opened = "{\"type\":\"block_event\",\"event\":\"opened\",\"block\":{\"id\":\"b1\"}}";
    let (block, _) = handle_event(None, opened.to_string());
    let closed = "{\"type\":\"block_event\",\"event\":\"closed\"}";
    let (block2, out) = handle_event(block, closed.to_string());
    assert_eq!(block2, None);
    assert_eq!(out, vec![OutMsg::Event(closed.to_string())]);

    let chunk = b"after close".to_vec();
    let (_, out2) = process_chunk(false, chunk.clone(), &block2);
    assert_eq!(out2, vec![OutMsg::Bytes(chunk)]);
}

#[test]
fn malformed_event_forwarded_without_state_change() {
    let cur = Some("b1".to_string());
    let (block, out) = handle_event(cur.clone(), "not json at all".to_string());
    assert_eq!(block, cur);
    assert_eq!(out, vec![OutMsg::Event("not json at all".to_string())]);
}

#[test]
fn unknown_event_value_keeps_state() {
    let cur = Some("b7".to_string());
    let raw = "{\"type\":\"block_event\",\"event\":\"paused\"}";
    let (block, _) = handle_event(cur.clone(), raw.to_string());
    assert_eq!(block, cur);
}

#[test]
fn opened_event_without_id_keeps_state() {
    let cur = Some("b7".to_string());
    let raw = "{\"type\":\"block_event\",\"event\":\"opened\"}";
    let (block, _) = handle_event(cur.clone(), raw.to_string());
    assert_eq!(block, cur);
}

#[test]
fn non_block_event_type_keeps_state() {
    let raw = "{\"type\":\"other\",\"event\":\"opened\",\"block\":{\"id\":\"b9\"}}";
    let (block, _) = handle_event(None, raw.to_string());
    assert_eq!(block, None);
}

#[test]
fn event_fields_extracted_from_full_payload() {
    let raw = "{\"type\":\"block_event\",\"event\":\"opened\",\"block\":{\"id\":\"b1\"}}";
    let f = extract_event_fields(raw);
    assert_eq!(
        f,
        EventFields {
            ty: Some("block_event".to_string()),
            event: Some("opened".to_string()),
            block_id: Some("b1".to_string()),
        }
    );
}

#[test]
fn apply_event_follows_block_lifecycle() {
    let opened = EventFields {
        ty: Some("block_event".to_string()),
        event: Some("opened".to_string()),
        block_id: Some("b2".to_string()),
    };
    assert_eq!(apply_event(None, &opened), Some("b2".to_string()));
    let closed = EventFields {
        ty: Some("block_event".to_string()),
        event: Some("closed".to_string()),
        block_id: None,
    };
    assert_eq!(apply_event(Some("b2".to_string()), &closed), None);
}

#[test]
fn block_chunk_text_is_lossy_decoded() {
    let chunk = vec![0xff, b'a'];
    let block = Some("b1".to_string());
    let (_, out) = process_chunk(false, chunk.clone(), &block);
    assert_eq!(
        out,
        vec![
            OutMsg::Bytes(chunk),
            OutMsg::BlockChunk {
                id: "b1".to_string(),
                text: "\u{FFFD}a".to_string()
            }
        ]
    );
}

#[test]
fn resize_message_becomes_resize_action() {
    let raw = "{\"type\":\"resize\",\"cols\":100,\"rows\":30}";
    let act = route_input(InMsg::Text(raw.to_string()));
    assert_eq!(act, InAction::Resize { cols: 100, rows: 30 });
}

#[test]
fn resize_missing_dimension_is_written_verbatim() {
    let raw = "{\"type\":\"resize\",\"cols\":100}";
    let act = route_input(InMsg::Text(raw.to_string()));
    assert_eq!(act, InAction::WriteText(raw.to_string()));
    let raw2 = "{\"type\":\"resize\",\"rows\":30}";
    let act2 = route_input(InMsg::Text(raw2.to_string()));
    assert_eq!(act2, InAction::WriteText(raw2.to_string()));
}

#[test]
fn resize_with_non_integer_dimension_is_written_verbatim() {
    let raw = "{\"type\":\"resize\",\"cols\":\"100\",\"rows\":30}";
    let act = route_input(InMsg::Text(raw.to_string()));
    assert_eq!(act, InAction::WriteText(raw.to_string()));
    let raw2 = "{\"type\":\"resize\",\"cols\":-5,\"rows\":30}";
    let act2 = route_input(InMsg::Text(raw2.to_string()));
    assert_eq!(act2, InAction::WriteText(raw2.to_string()));
}

#[test]
fn other_type_value_is_written_verbatim() {
    let raw = "{\"type\":\"paste\",\"cols\":100,\"rows\":30}";
    let act = route_input(InMsg::Text(raw.to_string()));
    assert_eq!(act, InAction::WriteText(raw.to_string()));
}

#[test]
fn plain_text_is_written_verbatim() {
    let act = route_input(InMsg::Text("ls -la\r".to_string()));
    assert_eq!(act, InAction::WriteText("ls -la\r".to_string()));
}

#[test]
fn leading_whitespace_hides_resize_object() {
    let raw = " {\"type\":\"resize\",\"cols\":100,\"rows\":30}";
    let act = route_input(InMsg::Text(raw.to_string()));
    assert_eq!(act, InAction::WriteText(raw.to_string()));
}

#[test]
fn binary_message_is_written_as_bytes() {
    let act = route_input(InMsg::Bytes(vec![3, 4, 5]));
    assert_eq!(act, InAction::WriteBytes(vec![3, 4, 5]));
}

#[test]
fn close_and_other_frames() {
    assert_eq!(route_input(InMsg::Close), InAction::Stop);
    assert_eq!(route_input(InMsg::Other), InAction::Ignore);
}

#[test]
fn relay_publishes_read_prefix_and_goes_on() {
    let buf = [b'a', b'b', b'c', b'd'];
    let (chunk, stop) = relay_chunk(&buf, Some(2));
    assert_eq!(chunk, b"ab".to_vec());
    assert!(!stop);
}

#[test]
fn relay_treats_eof_and_error_as_exhaustion() {
    let buf = [b'a', b'b'];
    let (chunk, stop) = relay_chunk(&buf, Some(0));
    assert!(chunk.is_empty());
    assert!(stop);
    let (chunk2, stop2) = relay_chunk(&buf, None);
    assert!(chunk2.is_empty());
    assert!(stop2);
}

#[test]
fn relay_ignores_empty_datagram_but_keeps_listening() {
    let buf = [b'x', b'y'];
    assert_eq!(relay_event(&buf, 0), None);
    assert_eq!(relay_event(&buf, 1), Some("x".to_string()));
}

#[test]
fn relay_decodes_datagram_lossily() {
    let buf = [0xff, b'e', b'v'];
    assert_eq!(relay_event(&buf, 3), Some("\u{FFFD}ev".to_string()));
}

#[test]
fn decimal_rendering_of_counters() {
    assert_eq!(u64_dec(0), "0");
    assert_eq!(u64_dec(7), "7");
    assert_eq!(u64_dec(10), "10");
    assert_eq!(u64_dec(1769999999999), "1769999999999");
    assert_eq!(u64_dec(u64::MAX), "18446744073709551615");
}

#[test]
fn sock_path_embeds_pid_and_timestamp() {
    assert_eq!(sock_path_for(123, 456), "/tmp/bridge-123-456.sock");
}
