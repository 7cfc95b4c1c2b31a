use mljboard_client::codec::{DecodeError, Field};
use mljboard_client::dispatch::{plan, reply, PairingContext};
use mljboard_client::json::{HOSClientReq, HOSServerReq};
use mljboard_client::supervisor::{
    handle_message, pairing_message, step, Event, Notice, Operation, State, Step,
    RETRY_DELAY_MILLIS,
};

fn context(code: Option<&str>) -> PairingContext {
    PairingContext::new("http://127.0.0.1:42010/", code.map(|c| c.to_string()))
}

fn request(method: &str, url: &str, id: Option<&str>) -> HOSServerReq {
    HOSServerReq {
        _type: "request".to_string(),
        method: method.to_string(),
        url: url.to_string(),
        id: id.map(|i| i.to_string()),
    }
}

#[test]
fn context_drops_trailing_slashes() {
    assert_eq!(context(None).local_target(), "http://127.0.0.1:42010");
    assert_eq!(PairingContext::new("http://h///", None).local_target(), "http://h");
    assert_eq!(PairingContext::new("http://h/a", None).local_target(), "http://h/a");
    assert_eq!(PairingContext::new("//", None).local_target(), "");
    assert_eq!(PairingContext::new("", None).local_target(), "");
    assert_eq!(PairingContext::new("h\u{e9}/", None).local_target(), "h\u{e9}");
}

#[test]
fn context_keeps_the_pairing_code() {
    assert_eq!(context(Some("tok")).pairing_code(), &Some("tok".to_string()));
    assert_eq!(context(None).pairing_code(), &None);
    let copy = context(Some("tok")).clone();
    assert_eq!(copy.pairing_code(), &Some("tok".to_string()));
    assert_eq!(copy.local_target(), "http://127.0.0.1:42010");
}

#[test]
fn plan_fetches_for_get_requests() {
    let got = plan(&context(None), &request("GET", "status", Some("42")));
    assert_eq!(got, Some("http://127.0.0.1:42010/status".to_string()));
}

#[test]
fn plan_passes_over_other_methods_and_kinds() {
    assert_eq!(plan(&context(None), &request("POST", "x", Some("1"))), None);
    assert_eq!(plan(&context(None), &request("get", "x", None)), None);
    let mut other = request("GET", "x", None);
    other._type = "notice".to_string();
    assert_eq!(plan(&context(None), &other), None);
    assert!(request("GET", "x", None).is_get_request());
    assert!(!other.is_get_request());
}

#[test]
fn reply_carries_id_code_status_and_base64_body() {
    let got = reply(&context(Some("tok")), Some("42".to_string()), 200, b"ok");
    assert_eq!(
        got,
        HOSClientReq {
            _type: "response".to_string(),
            id: Some("42".to_string()),
            code: Some("tok".to_string()),
            status: Some(200),
            content: Some("b2s=".to_string()),
        }
    );
}

#[test]
fn reply_encodes_arbitrary_bytes() {
    let got = reply(&context(None), None, 500, &[0xff, 0x00, 0xfe]);
    assert_eq!(got.content, Some("/wD+".to_string()));
    assert_eq!(reply(&context(None), None, 204, b"").content, Some(String::new()));
    assert_eq!(reply(&context(None), None, 200, b"hello world~").content,
        Some("aGVsbG8gd29ybGR+".to_string()));
}

#[test]
fn pairing_message_ends_in_a_newline() {
    assert_eq!(pairing_message(&context(Some("tok"))), "{\"type\":\"pairing\",\"code\":\"tok\"}\n");
    assert_eq!(pairing_message(&context(None)), "{\"type\":\"pairing\"}\n");
}

#[test]
fn every_state_has_its_operation() {
    assert_eq!(State::initial(), State::Connecting);
    assert_eq!(State::Connecting.operation(), Operation::Connect);
    assert_eq!(State::Backoff.operation(), Operation::Wait { millis: 3000 });
    assert_eq!(RETRY_DELAY_MILLIS, 3000);
    assert_eq!(State::Reading.operation(), Operation::Receive);
    let calling = State::Calling { id: None, url: "http://h/x".to_string() };
    assert_eq!(calling.operation(), Operation::Fetch("http://h/x".to_string()));
}

#[test]
fn connecting_sends_the_pairing_frame_first() {
    let got = step(&context(Some("tok")), State::Connecting, Event::Connected);
    assert_eq!(
        got,
        Step {
            state: State::Reading,
            send: Some("{\"type\":\"pairing\",\"code\":\"tok\"}\n".to_string()),
            notice: Some(Notice::Connected),
        }
    );
}

#[test]
fn get_request_is_fetched_and_answered() {
    let ctx = context(None);
    let frame = "{\"type\":\"request\",\"method\":\"GET\",\"url\":\"status\",\"id\":\"42\"}";
    let called = step(&ctx, State::Reading, Event::Frame(frame.to_string()));
    assert_eq!(
        called,
        Step {
            state: State::Calling {
                id: Some("42".to_string()),
                url: "http://127.0.0.1:42010/status".to_string(),
            },
            send: None,
            notice: None,
        }
    );
    let answered = step(&ctx, called.state, Event::LocalAnswer { status: 200, body: b"ok".to_vec() });
    assert_eq!(
        answered,
        Step {
            state: State::Reading,
            send: Some(
                "{\"type\":\"response\",\"id\":\"42\",\"status\":200,\"content\":\"b2s=\"}"
                    .to_string()
            ),
            notice: None,
        }
    );
}

#[test]
fn answer_echoes_the_pairing_code() {
    let ctx = context(Some("tok"));
    let calling = State::Calling { id: Some("9".to_string()), url: "http://h/x".to_string() };
    let answered = step(&ctx, calling, Event::LocalAnswer { status: 404, body: Vec::new() });
    assert_eq!(
        answered.send,
        Some(
            "{\"type\":\"response\",\"id\":\"9\",\"code\":\"tok\",\"status\":404,\"content\":\"\"}"
                .to_string()
        )
    );
}

#[test]
fn post_request_gets_no_reply() {
    let frame = "{\"type\":\"request\",\"method\":\"POST\",\"url\":\"x\",\"id\":\"1\"}";
    let got = step(&context(None), State::Reading, Event::Frame(frame.to_string()));
    assert_eq!(got, Step { state: State::Reading, send: None, notice: None });
    assert_eq!(got.state.operation(), Operation::Receive);
}

#[test]
fn malformed_frame_is_reported_and_reading_goes_on() {
    let ctx = context(None);
    let frame = "{\"type\":\"request\",\"url\":\"x\",\"id\":\"1\"}";
    let got = step(&ctx, State::Reading, Event::Frame(frame.to_string()));
    assert_eq!(
        got,
        Step {
            state: State::Reading,
            send: None,
            notice: Some(Notice::BadFrame(DecodeError::Missing(Field::Method))),
        }
    );
    let garbage = handle_message(&ctx, "not json");
    assert_eq!(garbage.notice, Some(Notice::BadFrame(DecodeError::Malformed)));
    assert_eq!(garbage.state, State::Reading);
    let good = "{\"type\":\"request\",\"method\":\"GET\",\"url\":\"x\"}";
    let next = step(&ctx, garbage.state, Event::Frame(good.to_string()));
    assert_eq!(next.state, State::Calling { id: None, url: "http://127.0.0.1:42010/x".to_string() });
}

#[test]
fn connect_failure_waits_three_seconds_then_retries() {
    let ctx = context(None);
    let mut state = State::initial();
    for _ in 0..5 {
        let failed = step(&ctx, state, Event::ConnectFailed);
        assert_eq!(
            failed,
            Step { state: State::Backoff, send: None, notice: Some(Notice::ConnectFailed) }
        );
        assert_eq!(failed.state.operation(), Operation::Wait { millis: 3000 });
        let retry = step(&ctx, failed.state, Event::BackoffElapsed);
        assert_eq!(retry, Step { state: State::Connecting, send: None, notice: None });
        assert_eq!(retry.state.operation(), Operation::Connect);
        state = retry.state;
    }
}

#[test]
fn local_failure_sends_nothing_and_reading_goes_on() {
    let ctx = context(Some("tok"));
    let calling = State::Calling { id: Some("1".to_string()), url: "http://h/x".to_string() };
    let got = step(&ctx, calling, Event::LocalFailed);
    assert_eq!(
        got,
        Step { state: State::Reading, send: None, notice: Some(Notice::LocalFailed) }
    );
    assert_eq!(got.state.operation(), Operation::Receive);
}

#[test]
fn lost_connection_reconnects_at_once() {
    let ctx = context(None);
    let failed = step(&ctx, State::Reading, Event::ReadFailed);
    assert_eq!(
        failed,
        Step { state: State::Connecting, send: None, notice: Some(Notice::Disconnected) }
    );
    let ended = step(&ctx, State::Reading, Event::StreamEnded);
    assert_eq!(ended, failed);
    assert_eq!(ended.state.operation(), Operation::Connect);
}

#[test]
fn events_out_of_place_change_nothing() {
    let ctx = context(None);
    let quiet = |state: State| Step { state, send: None, notice: None };
    assert_eq!(step(&ctx, State::Connecting, Event::Frame("{}".to_string())), quiet(State::Connecting));
    assert_eq!(step(&ctx, State::Backoff, Event::Connected), quiet(State::Backoff));
    assert_eq!(step(&ctx, State::Reading, Event::LocalFailed), quiet(State::Reading));
    let calling = State::Calling { id: None, url: "u".to_string() };
    assert_eq!(step(&ctx, calling.clone(), Event::BackoffElapsed), quiet(calling));
}
