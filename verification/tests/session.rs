use duck_duck_go_ai::channel::PollStep;
use duck_duck_go_ai::channel::TokenChannel;
use duck_duck_go_ai::chat::run_exchange;
use duck_duck_go_ai::chat::Chat;
use duck_duck_go_ai::decode::FrameInput;
use duck_duck_go_ai::decode::SseFrame;
use duck_duck_go_ai::errors::Error;
use duck_duck_go_ai::model::ChatRequest;

fn data_frame(data: &str) -> FrameInput {
    FrameInput::Frame(SseFrame { event: None, data: Some(String::from(data)) })
}

fn reply_frames(fragments: &[(&str, Option<&str>)]) -> Vec<FrameInput> {
    let mut frames: Vec<FrameInput> = Vec::new();
    for (message, role) in fragments {
        let json = match role {
            Some(role) => format!(
                "{{\"role\":\"{}\",\"message\":\"{}\",\"created\":1,\"id\":\"i\",\"action\":\"a\",\"model\":\"m\"}}",
                role, message
            ),
            None => format!(
                "{{\"message\":\"{}\",\"created\":1,\"id\":\"i\",\"action\":\"a\",\"model\":\"m\"}}",
                message
            ),
        };
        frames.push(data_frame(&json));
    }
    frames.push(data_frame("[DONE]"));
    frames
}

fn fresh_chat() -> Chat {
    Chat::init(Some(String::from("tok"))).expect("a header value yields a session")
}

#[test]
fn init_without_header_is_missing_token() {
    let r = Chat::init(None);
    assert!(matches!(r, Err(Error::MissingToken)));
}

#[test]
fn init_captures_token_and_defaults() {
    let chat = fresh_chat();
    assert_eq!(chat.turn_count(), 0);
    assert_eq!(chat.get_model(), "gpt-4o-mini");
}

#[test]
fn send_without_token_is_missing_token() {
    let request = ChatRequest { messages: Vec::new(), model: String::from("m"), vqd: None };
    let mut chat = Chat::from_request(request);
    let frames = reply_frames(&[("Hi", Some("assistant"))]);
    let r = run_exchange(&mut chat, "hello", &frames);
    assert!(matches!(r, Err(Error::MissingToken)));
    assert_eq!(chat.turn_count(), 0);
}

#[test]
fn successful_send_commits_both_turns() {
    let mut chat = fresh_chat();
    let frames = reply_frames(&[("Hel", Some("assistant")), ("lo", None)]);
    let mut ch = run_exchange(&mut chat, "Hello! How are you today?", &frames)
        .expect("an idle session with a token sends");

    // the channel carries the fragments, in order, then the clean end
    assert!(matches!(ch.poll_next(), PollStep::Item(Ok(t)) if t == "Hel"));
    assert!(matches!(ch.poll_next(), PollStep::Item(Ok(t)) if t == "lo"));
    assert!(matches!(ch.poll_next(), PollStep::Finished));

    // the transcript grew by exactly the user turn and the reply
    assert_eq!(chat.turn_count(), 2);
    let (role, content) = chat.get_turn(0).expect("index 0 is present");
    assert_eq!(role, "user");
    assert_eq!(content, "Hello! How are you today?");
    let (role, content) = chat.get_turn(1).expect("index 1 is present");
    assert_eq!(role, "assistant");
    assert_eq!(content, "Hello");
}

#[test]
fn turn_count_doubles_per_send() {
    let mut chat = fresh_chat();
    for n in 1..=3u32 {
        let frames = reply_frames(&[("ok", Some("assistant"))]);
        run_exchange(&mut chat, "hi", &frames).expect("the session is idle");
        assert_eq!(chat.turn_count() as u32, 2 * n);
    }
}

#[test]
fn failed_send_rolls_back() {
    let mut chat = fresh_chat();
    let frames = reply_frames(&[("ok", Some("assistant"))]);
    run_exchange(&mut chat, "first", &frames).expect("the session is idle");
    assert_eq!(chat.turn_count(), 2);

    // a malformed frame after a good one: the fragment is delivered, the
    // failure is the last message, and the transcript is restored
    let frames = vec![
        data_frame("{\"role\":\"assistant\",\"message\":\"Hi\",\"created\":1,\"id\":\"i\",\"action\":\"a\",\"model\":\"m\"}"),
        data_frame("this is not json"),
    ];
    let mut ch = run_exchange(&mut chat, "second", &frames).expect("the session is idle");
    assert!(matches!(ch.poll_next(), PollStep::Item(Ok(t)) if t == "Hi"));
    assert!(matches!(ch.poll_next(), PollStep::Item(Err(Error::InvalidPayload))));
    assert!(matches!(ch.poll_next(), PollStep::Finished));
    assert_eq!(chat.turn_count(), 2);
}

#[test]
fn send_without_role_rolls_back() {
    let mut chat = fresh_chat();
    let frames = reply_frames(&[("anonymous", None)]);
    let mut ch = run_exchange(&mut chat, "hi", &frames).expect("the session is idle");
    assert!(matches!(ch.poll_next(), PollStep::Item(Ok(t)) if t == "anonymous"));
    assert!(matches!(ch.poll_next(), PollStep::Item(Err(Error::MissingRole))));
    assert!(matches!(ch.poll_next(), PollStep::Finished));
    assert_eq!(chat.turn_count(), 0);
}

#[test]
fn missing_data_frame_rolls_back() {
    let mut chat = fresh_chat();
    let frames = vec![FrameInput::Frame(SseFrame { event: None, data: None })];
    let mut ch = run_exchange(&mut chat, "hi", &frames).expect("the session is idle");
    assert!(matches!(ch.poll_next(), PollStep::Item(Err(Error::MissingData))));
    assert_eq!(chat.turn_count(), 0);
}

#[test]
fn bad_framing_rolls_back() {
    let mut chat = fresh_chat();
    let frames = vec![FrameInput::BadFraming];
    let mut ch = run_exchange(&mut chat, "hi", &frames).expect("the session is idle");
    assert!(matches!(ch.poll_next(), PollStep::Item(Err(Error::InvalidFraming))));
    assert_eq!(chat.turn_count(), 0);
}

#[test]
fn transport_failure_rolls_back() {
    let mut chat = fresh_chat();
    let mut ch = TokenChannel::new();
    let mut exchange = chat.begin_send("hi").expect("the session is idle");
    assert_eq!(chat.turn_count(), 1);
    exchange.abort(Error::Transport);
    exchange.conclude(&mut chat, &mut ch);
    assert!(matches!(ch.poll_next(), PollStep::Item(Err(Error::Transport))));
    assert!(matches!(ch.poll_next(), PollStep::Finished));
    assert_eq!(chat.turn_count(), 0);
}

#[test]
fn concurrent_send_is_busy() {
    let mut chat = fresh_chat();
    let mut ch = TokenChannel::new();
    let exchange = chat.begin_send("first").expect("the session is idle");

    // while the exchange is in flight, sends and mutations fail at once
    assert!(chat.is_busy());
    assert!(matches!(chat.begin_send("second"), Err(Error::Busy)));
    assert!(matches!(chat.set_model("gpt-4o"), Err(Error::Busy)));

    exchange.conclude(&mut chat, &mut ch);
    assert_eq!(chat.turn_count(), 0);
    assert!(!chat.is_busy());

    // once concluded, the session is free again
    let frames = reply_frames(&[("ok", Some("assistant"))]);
    run_exchange(&mut chat, "third", &frames).expect("the session is idle again");
    assert_eq!(chat.turn_count(), 2);
}

#[test]
fn set_model_locks_at_two_turns() {
    let mut chat = fresh_chat();
    chat.set_model("mistralai/Mixtral-8x7B-Instruct-v0.1").expect("an empty transcript");
    assert_eq!(chat.get_model(), "mistralai/Mixtral-8x7B-Instruct-v0.1");

    let frames = reply_frames(&[("ok", Some("assistant"))]);
    run_exchange(&mut chat, "hi", &frames).expect("the session is idle");
    assert_eq!(chat.turn_count(), 2);
    assert!(matches!(chat.set_model("gpt-4o"), Err(Error::ModelLocked)));
    assert_eq!(chat.get_model(), "mistralai/Mixtral-8x7B-Instruct-v0.1");
}

#[test]
fn get_turn_out_of_range() {
    let chat = fresh_chat();
    assert!(matches!(chat.get_turn(0), Err(Error::IndexOutOfRange)));
}

#[test]
fn channel_preserves_order_under_interleaving() {
    let mut ch = TokenChannel::new();
    ch.push_token(String::from("a"));
    assert!(matches!(ch.poll_next(), PollStep::Item(Ok(t)) if t == "a"));
    assert!(matches!(ch.poll_next(), PollStep::NotReady));
    ch.push_token(String::from("b"));
    ch.push_token(String::from("c"));
    assert!(matches!(ch.poll_next(), PollStep::Item(Ok(t)) if t == "b"));
    ch.push_token(String::from("d"));
    assert!(matches!(ch.poll_next(), PollStep::Item(Ok(t)) if t == "c"));
    assert!(matches!(ch.poll_next(), PollStep::Item(Ok(t)) if t == "d"));
    ch.close();
    assert!(matches!(ch.poll_next(), PollStep::Finished));
}
