use async_openai::error::OpenAIError;
use async_openai::stream::{
    frame, CompletionResponseStream, Framed, RawEvent, Signal, StreamItem, StreamState,
};
use async_openai::types::{Choice, CreateCompletionResponse};
use std::cell::Cell;
use std::collections::VecDeque;
use std::rc::Rc;

/// A stand-in for the connection: it hands out the events it was given, and
/// records how many were asked for and whether it was let go of.
struct Feed {
    events: VecDeque<RawEvent>,
    pulls: Rc<Cell<usize>>,
    closes: Rc<Cell<usize>>,
}

impl Feed {
    fn next_event(&mut self) -> RawEvent {
        self.pulls.set(self.pulls.get() + 1);
        self.events.pop_front().unwrap_or(RawEvent::End)
    }
}

impl Drop for Feed {
    fn drop(&mut self) {
        self.closes.set(self.closes.get() + 1);
    }
}

struct Harness {
    stream: CompletionResponseStream<Feed>,
    pulls: Rc<Cell<usize>>,
    closes: Rc<Cell<usize>>,
}

fn harness(events: Vec<RawEvent>) -> Harness {
    let pulls = Rc::new(Cell::new(0));
    let closes = Rc::new(Cell::new(0));
    let feed = Feed { events: events.into(), pulls: pulls.clone(), closes: closes.clone() };
    Harness { stream: CompletionResponseStream::new(feed), pulls, closes }
}

fn frames(payloads: &[&str]) -> Vec<RawEvent> {
    payloads.iter().map(|p| RawEvent::Frame(p.to_string())).collect()
}

fn partial(id: &str, text: &str) -> CreateCompletionResponse {
    CreateCompletionResponse {
        id: id.to_string(),
        object: "text_completion".to_string(),
        created: 1_700_000_000,
        model: "text-davinci-003".to_string(),
        choices: vec![Choice { text: text.to_string(), index: 0, finish_reason: None }],
        usage: None,
    }
}

fn json(id: &str, text: &str) -> String {
    format!(
        "{{\"id\":\"{}\",\"object\":\"text_completion\",\"created\":1700000000,\
         \"model\":\"text-davinci-003\",\"choices\":[{{\"text\":\"{}\",\"index\":0}}]}}",
        id, text
    )
}

fn text_of(value: &serde_json::Value, key: &str) -> Result<String, String> {
    match value.get(key).and_then(|v| v.as_str()) {
        Some(text) => Ok(text.to_string()),
        None => Err(format!("missing field `{}`", key)),
    }
}

fn number_of(value: &serde_json::Value, key: &str) -> Result<u32, String> {
    match value.get(key).and_then(|v| v.as_u64()) {
        Some(number) => Ok(number as u32),
        None => Err(format!("missing field `{}`", key)),
    }
}

fn decode(data: &str) -> Result<CreateCompletionResponse, String> {
    let value: serde_json::Value = serde_json::from_str(data).map_err(|e| e.to_string())?;
    let mut choices = Vec::new();
    let listed = value.get("choices").and_then(|c| c.as_array());
    for choice in listed.ok_or("missing field `choices`")? {
        choices.push(Choice {
            text: text_of(choice, "text")?,
            index: number_of(choice, "index")?,
            finish_reason: text_of(choice, "finish_reason").ok(),
        });
    }
    Ok(CreateCompletionResponse {
        id: text_of(&value, "id")?,
        object: text_of(&value, "object")?,
        created: number_of(&value, "created")?,
        model: text_of(&value, "model")?,
        choices,
        usage: None,
    })
}

/// One request of the consumer for the next element.
fn next(stream: &mut CompletionResponseStream<Feed>) -> Option<StreamItem> {
    let event = match stream.connection_mut() {
        Some(feed) => feed.next_event(),
        None => return None,
    };
    let signal = match frame(event) {
        Framed::Settled(signal) => signal,
        Framed::Undecoded(data) => Signal::decoded(decode(&data)),
    };
    stream.step(signal)
}

#[test]
fn the_sentinel_ends_the_sequence_and_hides_what_follows() {
    let a = json("a", "Once");
    let b = json("b", " upon");
    let c = json("c", " a time");
    let mut h = harness(frames(&[&a, &b, "[DONE]", &c]));
    assert_eq!(next(&mut h.stream), Some(Ok(partial("a", "Once"))));
    assert_eq!(next(&mut h.stream), Some(Ok(partial("b", " upon"))));
    assert_eq!(next(&mut h.stream), None);
    assert!(!h.stream.is_open());
    assert_eq!(next(&mut h.stream), None);
    assert_eq!(next(&mut h.stream), None);
    assert_eq!(h.pulls.get(), 3);
}

#[test]
fn a_connection_that_just_closes_ends_the_sequence_without_an_error() {
    let a = json("a", "Once");
    let b = json("b", " upon");
    let mut h = harness(frames(&[&a, &b]));
    assert_eq!(next(&mut h.stream), Some(Ok(partial("a", "Once"))));
    assert_eq!(next(&mut h.stream), Some(Ok(partial("b", " upon"))));
    assert!(h.stream.is_open());
    assert_eq!(next(&mut h.stream), None);
    assert!(!h.stream.is_open());
    assert_eq!(next(&mut h.stream), None);
}

#[test]
fn dropping_the_stream_early_lets_go_of_the_connection() {
    let a = json("a", "Once");
    let b = json("b", " upon");
    let c = json("c", " a time");
    let mut h = harness(frames(&[&a, &b, &c]));
    assert_eq!(next(&mut h.stream), Some(Ok(partial("a", "Once"))));
    assert_eq!(h.closes.get(), 0);
    drop(h.stream);
    assert_eq!(h.closes.get(), 1);
    assert_eq!(h.pulls.get(), 1);
}

#[test]
fn closing_the_stream_early_lets_go_of_the_connection() {
    let a = json("a", "Once");
    let b = json("b", " upon");
    let c = json("c", " a time");
    let mut h = harness(frames(&[&a, &b, &c]));
    assert_eq!(next(&mut h.stream), Some(Ok(partial("a", "Once"))));
    h.stream.close();
    assert_eq!(h.closes.get(), 1);
    assert!(!h.stream.is_open());
    assert!(h.stream.connection_mut().is_none());
    assert_eq!(next(&mut h.stream), None);
    assert_eq!(h.pulls.get(), 1);
    drop(h.stream);
    assert_eq!(h.closes.get(), 1);
}

#[test]
fn the_stream_lets_go_of_the_connection_when_the_sequence_ends() {
    let a = json("a", "Once");
    let mut h = harness(frames(&[&a, "[DONE]"]));
    assert_eq!(next(&mut h.stream), Some(Ok(partial("a", "Once"))));
    assert_eq!(h.closes.get(), 0);
    assert_eq!(next(&mut h.stream), None);
    assert_eq!(h.closes.get(), 1);
}

#[test]
fn a_frame_is_fetched_only_when_an_element_is_asked_for() {
    let a = json("a", "Once");
    let b = json("b", " upon");
    let mut h = harness(frames(&[&a, &b, "[DONE]"]));
    assert_eq!(h.pulls.get(), 0);
    let _ = next(&mut h.stream);
    assert_eq!(h.pulls.get(), 1);
    let _ = next(&mut h.stream);
    assert_eq!(h.pulls.get(), 2);
    let _ = next(&mut h.stream);
    assert_eq!(h.pulls.get(), 3);
    let _ = next(&mut h.stream);
    assert_eq!(h.pulls.get(), 3);
}

#[test]
fn a_malformed_frame_ends_the_sequence_with_an_error() {
    let a = json("a", "Once");
    let c = json("c", " a time");
    let mut h = harness(frames(&[&a, "{\"id\": 12", &c, "[DONE]"]));
    assert_eq!(next(&mut h.stream), Some(Ok(partial("a", "Once"))));
    match next(&mut h.stream) {
        Some(Err(OpenAIError::DecodeError(message))) => assert!(!message.is_empty()),
        other => panic!("{:?}", other),
    }
    assert!(!h.stream.is_open());
    assert_eq!(h.closes.get(), 1);
    assert_eq!(next(&mut h.stream), None);
    assert_eq!(h.pulls.get(), 2);
}

#[test]
fn a_frame_of_the_wrong_shape_ends_the_sequence_with_an_error() {
    let mut h = harness(frames(&["{\"id\":\"a\"}", "[DONE]"]));
    assert_eq!(
        next(&mut h.stream),
        Some(Err(OpenAIError::DecodeError("missing field `choices`".to_string())))
    );
    assert_eq!(next(&mut h.stream), None);
}

#[test]
fn a_failure_of_the_transport_ends_the_sequence_with_an_error() {
    let a = json("a", "Once");
    let b = json("b", " upon");
    let mut h = harness(vec![
        RawEvent::Frame(a),
        RawEvent::Failure("connection reset by peer".to_string()),
        RawEvent::Frame(b),
    ]);
    assert_eq!(next(&mut h.stream), Some(Ok(partial("a", "Once"))));
    assert_eq!(
        next(&mut h.stream),
        Some(Err(OpenAIError::TransportError("connection reset by peer".to_string())))
    );
    assert!(!h.stream.is_open());
    assert_eq!(next(&mut h.stream), None);
    assert_eq!(h.pulls.get(), 2);
}

#[test]
fn an_empty_answer_is_an_empty_sequence() {
    let mut h = harness(frames(&["[DONE]"]));
    assert_eq!(next(&mut h.stream), None);
    let mut h = harness(Vec::new());
    assert_eq!(next(&mut h.stream), None);
    assert!(!h.stream.is_open());
}

#[test]
fn results_come_in_the_order_of_their_frames() {
    let ids: Vec<String> = (0..50).map(|i| format!("cmpl-{}", i)).collect();
    let mut events: Vec<RawEvent> =
        ids.iter().map(|id| RawEvent::Frame(json(id, "x"))).collect();
    events.push(RawEvent::Frame("[DONE]".to_string()));
    let mut h = harness(events);
    let mut seen = Vec::new();
    while let Some(item) = next(&mut h.stream) {
        seen.push(item.unwrap().id);
    }
    assert_eq!(seen, ids);
}

#[test]
fn only_the_exact_text_is_the_sentinel() {
    assert_eq!(
        frame(RawEvent::Frame("[DONE]".to_string())),
        Framed::Settled(Signal::Sentinel)
    );
    for data in ["", "[DONE] ", " [DONE]", "[done]", "DONE", "[DONE]\n", "\"[DONE]\"", "[DONE"] {
        assert_eq!(
            frame(RawEvent::Frame(data.to_string())),
            Framed::Undecoded(data.to_string()),
            "{:?}",
            data
        );
    }
}

#[test]
fn framing_passes_the_end_and_a_failure_on() {
    assert_eq!(frame(RawEvent::End), Framed::Settled(Signal::End));
    assert_eq!(
        frame(RawEvent::Failure("timed out".to_string())),
        Framed::Settled(Signal::Failure("timed out".to_string()))
    );
}

#[test]
fn a_decoding_outcome_becomes_a_payload_or_a_complaint() {
    assert_eq!(Signal::decoded(Ok(partial("a", "x"))), Signal::Payload(partial("a", "x")));
    assert_eq!(
        Signal::decoded(Err("EOF while parsing".to_string())),
        Signal::Malformed("EOF while parsing".to_string())
    );
}

#[test]
fn each_signal_has_its_transition() {
    let open = || CompletionResponseStream::new(());

    let mut stream = open();
    assert_eq!(stream.step(Signal::Payload(partial("a", "x"))), Some(Ok(partial("a", "x"))));
    assert!(stream.is_open());

    let mut stream = open();
    assert_eq!(stream.step(Signal::Sentinel), None);
    assert!(!stream.is_open());

    let mut stream = open();
    assert_eq!(stream.step(Signal::End), None);
    assert!(!stream.is_open());

    let mut stream = open();
    assert_eq!(
        stream.step(Signal::Malformed("bad".to_string())),
        Some(Err(OpenAIError::DecodeError("bad".to_string())))
    );
    assert!(!stream.is_open());

    let mut stream = open();
    assert_eq!(
        stream.step(Signal::Failure("down".to_string())),
        Some(Err(OpenAIError::TransportError("down".to_string())))
    );
    assert!(!stream.is_open());
}

#[test]
fn a_closed_stream_yields_nothing_whatever_it_is_fed() {
    let mut stream = CompletionResponseStream::new(());
    stream.close();
    assert_eq!(stream.step(Signal::Payload(partial("a", "x"))), None);
    assert_eq!(stream.step(Signal::Malformed("bad".to_string())), None);
    assert_eq!(stream.step(Signal::Failure("down".to_string())), None);
    assert_eq!(stream.step(Signal::Sentinel), None);
    assert_eq!(stream.step(Signal::End), None);
    assert!(!stream.is_open());
}

#[test]
fn the_state_follows_the_sequence() {
    let mut stream = CompletionResponseStream::new(());
    assert_eq!(stream.state(), StreamState::Open);
    let _ = stream.step(Signal::Payload(partial("a", "x")));
    assert_eq!(stream.state(), StreamState::Open);
    let _ = stream.step(Signal::Sentinel);
    assert_eq!(stream.state(), StreamState::Closed);
    let _ = stream.step(Signal::Payload(partial("b", "y")));
    assert_eq!(stream.state(), StreamState::Closed);
}

#[test]
fn a_new_stream_is_open_and_holds_its_connection() {
    let mut stream = CompletionResponseStream::new(41u32);
    assert!(stream.is_open());
    match stream.connection_mut() {
        Some(held) => {
            assert_eq!(*held, 41);
            *held += 1;
        }
        None => panic!("an open stream holds its connection"),
    }
    assert_eq!(stream.connection_mut(), Some(&mut 42));
    assert_eq!(stream.step(Signal::Payload(partial("a", "x"))), Some(Ok(partial("a", "x"))));
    assert_eq!(stream.connection_mut(), Some(&mut 42));
}
