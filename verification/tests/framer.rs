use duck_duck_go_ai::channel::PollStep;
use duck_duck_go_ai::chat::run_exchange;
use duck_duck_go_ai::chat::Chat;
use duck_duck_go_ai::decode::FrameInput;
use duck_duck_go_ai::frames::parse_record;
use duck_duck_go_ai::frames::SseFramer;

fn frame_data(f: &FrameInput) -> Option<&str> {
    match f {
        FrameInput::Frame(fr) => fr.data.as_deref(),
        FrameInput::BadFraming => panic!("expected a frame"),
    }
}

fn frame_event(f: &FrameInput) -> Option<&str> {
    match f {
        FrameInput::Frame(fr) => fr.event.as_deref(),
        FrameInput::BadFraming => panic!("expected a frame"),
    }
}

#[test]
fn framer_splits_records_across_chunks() {
    let mut framer = SseFramer::new();
    framer.append_chunk(&b"data: He".to_vec());
    assert!(framer.take_frame().is_none());
    framer.append_chunk(&b"llo\n\ndata: x".to_vec());
    let f = framer.take_frame().expect("first record is complete");
    assert_eq!(frame_data(&f), Some("Hello"));
    assert!(framer.take_frame().is_none());
    framer.append_chunk(&b"\n\n".to_vec());
    let f = framer.take_frame().expect("second record is complete");
    assert_eq!(frame_data(&f), Some("x"));
}

#[test]
fn framer_handles_crlf_and_event_lines() {
    let mut framer = SseFramer::new();
    framer.append_chunk(&b"event: message\r\ndata: hi\r\n\r\n".to_vec());
    let f = framer.take_frame().expect("the record is complete");
    assert_eq!(frame_event(&f), Some("message"));
    assert_eq!(frame_data(&f), Some("hi"));
}

#[test]
fn framer_joins_data_lines_and_keeps_last_event() {
    let f = parse_record(&b"data: a\nevent: one\ndata: b\nevent: two\n: comment".to_vec());
    assert_eq!(frame_data(&f), Some("a\nb"));
    assert_eq!(frame_event(&f), Some("two"));
}

#[test]
fn framer_reads_fields_without_space() {
    let f = parse_record(&b"data:x".to_vec());
    assert_eq!(frame_data(&f), Some("x"));
}

#[test]
fn framer_yields_no_fields_for_comment_records() {
    let f = parse_record(&b": keep-alive".to_vec());
    assert_eq!(frame_data(&f), None);
    assert_eq!(frame_event(&f), None);
}

#[test]
fn framer_reports_bad_utf8_as_bad_framing() {
    let mut record = b"data: ".to_vec();
    record.push(0xff);
    let f = parse_record(&record);
    assert!(matches!(f, FrameInput::BadFraming));
}

#[test]
fn framer_finish_flushes_a_trailing_record() {
    let mut framer = SseFramer::new();
    framer.append_chunk(&b"data: tail".to_vec());
    assert!(framer.take_frame().is_none());
    let f = framer.finish().expect("a trailing record remains");
    assert_eq!(frame_data(&f), Some("tail"));

    let mut framer = SseFramer::new();
    framer.append_chunk(&b"data: x\n\n  \n".to_vec());
    framer.take_frame().expect("the record is complete");
    assert!(framer.finish().is_none());
}

#[test]
fn bytes_to_transcript_end_to_end() {
    let mut chat = Chat::init(Some(String::from("tok"))).expect("a header value yields a session");
    let mut raw = String::from(
        "data: {\"role\":\"assistant\",\"message\":\"Hel\",\"created\":1,\"id\":\"i\",\"action\":\"a\",\"model\":\"m\"}\n\n",
    );
    raw.push_str(
        "data: {\"message\":\"lo\",\"created\":1,\"id\":\"i\",\"action\":\"a\",\"model\":\"m\"}\n\n",
    );
    raw.push_str("data: [DONE]\n\n");
    let mut framer = SseFramer::new();
    framer.append_chunk(&raw.as_bytes().to_vec());
    let mut frames = Vec::new();
    while let Some(f) = framer.take_frame() {
        frames.push(f);
    }
    assert_eq!(frames.len(), 3);

    let mut ch = run_exchange(&mut chat, "hi", &frames).expect("the session is idle");
    assert!(matches!(ch.poll_next(), PollStep::Item(Ok(t)) if t == "Hel"));
    assert!(matches!(ch.poll_next(), PollStep::Item(Ok(t)) if t == "lo"));
    assert!(matches!(ch.poll_next(), PollStep::Finished));
    assert_eq!(chat.turn_count(), 2);
    let (role, content) = chat.get_turn(1).expect("the reply was committed");
    assert_eq!(role, "assistant");
    assert_eq!(content, "Hello");
}
