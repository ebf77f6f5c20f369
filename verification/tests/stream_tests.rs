use pinreq::http::{HttpMethod, HttpRequest};
use pinreq::matrix::error::MatrixError;
use pinreq::matrix::matrix_stream::{read_event, read_events, MatrixStream, Page};
use pinreq::message::{Message, MessageKind};

const ROOM: &str = "!abc:matrix.org";

fn stream_for(homeserver: &str, backlog: u32, last_sync: Option<&str>) -> MatrixStream {
    MatrixStream::new(
        homeserver.to_owned(),
        ROOM.to_owned(),
        "syt_tok/en".to_owned(),
        backlog,
        last_sync.map(|s| s.to_owned()),
    )
}

fn stream(last_sync: Option<&str>) -> MatrixStream {
    stream_for("matrix.org", 100, last_sync)
}

fn message(kind: MessageKind) -> Message {
    Message::from_kind(kind, Some(b"SIG".to_vec())).unwrap()
}

fn pin(id: &str) -> Message {
    message(MessageKind::Pin(id.to_owned()))
}

fn text_event(body: &str) -> String {
    let mut content = serde_json::Map::new();
    content.insert("msgtype".to_owned(), serde_json::Value::from("m.text"));
    content.insert("body".to_owned(), serde_json::Value::from(body));
    let mut event = serde_json::Map::new();
    event.insert("type".to_owned(), serde_json::Value::from("m.room.message"));
    event.insert("content".to_owned(), serde_json::Value::from(content));
    serde_json::Value::from(event).to_string()
}

fn page(events: &[String], next_batch: &str) -> String {
    format!(
        "{{\"next_batch\":\"{}\",\"rooms\":{{\"join\":{{\"{}\":{{\"timeline\":{{\"events\":[{}]}}}}}}}}}}",
        next_batch,
        ROOM,
        events.join(",")
    )
}

fn not_understood(detail: &str) -> MatrixError {
    MatrixError::ResponseNotUnderstood(detail.to_owned())
}

#[test]
fn filter_restricts_room_and_type() {
    assert_eq!(
        stream(None).filter().to_string(),
        "{\"event_fields\":[\"type\",\"content\"],\"room\":{\"rooms\":[\"!abc:matrix.org\"],\"timeline\":{\"limit\":100,\"types\":[\"m.room.message\"]}}}"
    );
}

#[test]
fn filter_limit_is_the_backlog_size() {
    let filter = stream_for("matrix.org", 0, None).filter();
    assert_eq!(filter["room"]["timeline"]["limit"].as_u64(), Some(0));
    let filter = stream_for("matrix.org", u32::MAX, None).filter();
    assert_eq!(filter["room"]["timeline"]["limit"].as_u64(), Some(4_294_967_295));
}

#[test]
fn query_of_first_and_later_requests() {
    let pair = |k: &str, v: &str| (k.to_owned(), v.to_owned());
    assert_eq!(
        stream(None).query("{}".to_owned()),
        vec![pair("access_token", "syt_tok/en"), pair("filter", "{}"), pair("full_state", "false")]
    );
    assert_eq!(
        stream(Some("s1")).query("{}".to_owned()),
        vec![
            pair("access_token", "syt_tok/en"),
            pair("filter", "{}"),
            pair("full_state", "false"),
            pair("since", "s1"),
        ]
    );
}

#[test]
fn first_request_has_no_since() {
    assert_eq!(
        stream(None).next_request(),
        Ok(HttpRequest {
            method: HttpMethod::Get,
            url: "https://matrix.org/_matrix/client/r0/sync?access_token=syt_tok%2Fen&filter=%7B%22event_fields%22%3A%5B%22type%22%2C%22content%22%5D%2C%22room%22%3A%7B%22rooms%22%3A%5B%22%21abc%3Amatrix.org%22%5D%2C%22timeline%22%3A%7B%22limit%22%3A100%2C%22types%22%3A%5B%22m.room.message%22%5D%7D%7D%7D&full_state=false".to_owned(),
            body: None,
        })
    );
}

#[test]
fn later_request_carries_the_cursor() {
    let request = stream(Some("s72594_4483_1934")).next_request().unwrap();
    assert_eq!(request.method, HttpMethod::Get);
    assert_eq!(
        request.url,
        "https://matrix.org/_matrix/client/r0/sync?access_token=syt_tok%2Fen&filter=%7B%22event_fields%22%3A%5B%22type%22%2C%22content%22%5D%2C%22room%22%3A%7B%22rooms%22%3A%5B%22%21abc%3Amatrix.org%22%5D%2C%22timeline%22%3A%7B%22limit%22%3A100%2C%22types%22%3A%5B%22m.room.message%22%5D%7D%7D%7D&full_state=false&since=s72594_4483_1934"
    );
    assert_eq!(request.body, None);
}

#[test]
fn request_after_a_page_asks_for_what_follows_it() {
    let mut s = stream(None);
    s.poll(page(&[], "s2").as_bytes()).unwrap();
    let url = s.next_request().unwrap().url;
    assert!(url.ends_with("&full_state=false&since=s2"));
}

#[test]
fn request_for_a_homeserver_that_is_no_host() {
    let s = stream_for("matrix org", 100, None);
    assert_eq!(s.next_request(), Err(MatrixError::InvalidAddress("matrix org".to_owned())));
}

#[test]
fn first_cycle_without_rooms_yields_nothing_and_keeps_the_cursor() {
    let mut s = stream(None);
    assert_eq!(s.poll(b"{\"next_batch\":\"s1\"}"), Ok(vec![]));
    assert_eq!(s.last_sync(), None);
    assert_eq!(s, stream(None));
}

#[test]
fn missing_room_yields_nothing_and_keeps_the_cursor() {
    let mut s = stream(Some("s1"));
    assert_eq!(s.poll(b"{}"), Ok(vec![]));
    assert_eq!(s.poll(b"{\"next_batch\":\"s2\",\"rooms\":{}}"), Ok(vec![]));
    assert_eq!(s.poll(b"{\"next_batch\":\"s2\",\"rooms\":{\"join\":{}}}"), Ok(vec![]));
    assert_eq!(
        s.poll(b"{\"next_batch\":\"s2\",\"rooms\":{\"join\":{\"!other:matrix.org\":{\"timeline\":{\"events\":[]}}}}}"),
        Ok(vec![])
    );
    assert_eq!(s.poll(b"{\"next_batch\":\"s2\",\"rooms\":[]}"), Ok(vec![]));
    assert_eq!(s, stream(Some("s1")));
}

#[test]
fn page_moves_the_cursor() {
    let mut s = stream(None);
    let events = [text_event(&pin("bafy1").encode())];
    assert_eq!(s.poll(page(&events, "s1").as_bytes()), Ok(vec![pin("bafy1")]));
    assert_eq!(s, stream(Some("s1")));
    assert_eq!(s.poll(page(&[], "s2").as_bytes()), Ok(vec![]));
    assert_eq!(s, stream(Some("s2")));
}

#[test]
fn pages_compose() {
    let events = [
        text_event(&pin("a").encode()),
        text_event("noise"),
        text_event(&pin("b").encode()),
        text_event(&pin("c").encode()),
    ];
    let mut whole = stream(None);
    let at_once = whole.poll(page(&events, "s2").as_bytes()).unwrap();
    let mut cut = stream(None);
    let mut in_two = cut.poll(page(&events[..2], "s1").as_bytes()).unwrap();
    in_two.extend(cut.poll(page(&events[2..], "s2").as_bytes()).unwrap());
    assert_eq!(in_two, at_once);
    assert_eq!(at_once, vec![pin("a"), pin("b"), pin("c")]);
    assert_eq!(cut, whole);
}

#[test]
fn new_stream_holds_what_it_was_given() {
    let s = stream(Some("s9"));
    assert_eq!(s.room_id(), ROOM);
    assert_eq!(s.last_sync(), Some("s9"));
    assert_eq!(stream(None).last_sync(), None);
}

#[test]
fn replayed_page_leaves_the_cursor_at_its_token() {
    let mut s = stream(None);
    let answer = page(&[text_event(&pin("bafy1").encode())], "s1");
    s.poll(answer.as_bytes()).unwrap();
    let after_first = stream(Some("s1"));
    assert_eq!(s, after_first);
    s.poll(answer.as_bytes()).unwrap();
    assert_eq!(s, after_first);
}

#[test]
fn malformed_events_are_left_out() {
    let confirm = message(MessageKind::Confirm("bafy2".to_owned()));
    let events = [
        text_event(&pin("bafy1").encode()),
        text_event("hello there"),
        text_event("{\"kind\":{\"Unpin\":\"x\"},\"signature\":\"SIG\"}"),
        text_event(&confirm.encode()),
        text_event("{\"kind\":{\"Pin\":\"x\"}}"),
        text_event(&pin("bafy3").encode()),
    ];
    let mut s = stream(None);
    assert_eq!(
        s.poll(page(&events, "s1").as_bytes()),
        Ok(vec![pin("bafy1"), confirm, pin("bafy3")])
    );
    assert_eq!(s.last_sync(), Some("s1"));
    assert_eq!(s.poll(page(&[text_event(&pin("bafy4").encode())], "s2").as_bytes()), Ok(vec![pin("bafy4")]));
}

#[test]
fn events_that_are_no_text_messages_are_left_out() {
    let wire = pin("bafy1").encode();
    let quoted = serde_json::Value::from(wire.as_str()).to_string();
    let events = [
        format!("{{\"type\":\"m.room.message\",\"content\":{{\"msgtype\":\"m.image\",\"body\":{}}}}}", quoted),
        format!("{{\"type\":\"m.room.message\",\"content\":{{\"msgtype\":\"m.text\"}}}}"),
        format!("{{\"type\":\"m.room.message\",\"content\":{{\"msgtype\":\"m.text\",\"body\":[{}]}}}}", quoted),
        format!("{{\"type\":\"m.room.message\",\"content\":{{\"msgtype\":7,\"body\":{}}}}}", quoted),
        format!("{{\"type\":\"m.room.message\",\"content\":{{\"body\":{}}}}}", quoted),
        format!("{{\"type\":\"m.room.message\",\"content\":[{}]}}", quoted),
        format!("{{\"type\":\"m.room.member\"}}"),
        format!("17"),
        format!("{{\"content\":{{\"msgtype\":\"m.text\",\"body\":{}}}}}", quoted),
        format!("{{\"type\":\"m.room.topic\",\"content\":{{\"msgtype\":\"m.text\",\"body\":{}}}}}", quoted),
        format!("{{\"type\":[],\"content\":{{\"msgtype\":\"m.text\",\"body\":{}}}}}", quoted),
        format!("{{\"type\":\"m.room.message\",\"content\":{{\"msgtype\":\"m.text\",\"body\":{}}}}}", quoted),
    ];
    let mut s = stream(None);
    assert_eq!(s.poll(page(&events, "s1").as_bytes()), Ok(vec![pin("bafy1")]));
    assert_eq!(s.last_sync(), Some("s1"));
}

#[test]
fn order_of_the_server_is_kept() {
    let events = [
        text_event(&pin("c").encode()),
        text_event(&pin("a").encode()),
        text_event(&pin("b").encode()),
        text_event(&pin("a").encode()),
    ];
    let mut s = stream(None);
    assert_eq!(
        s.poll(page(&events, "s1").as_bytes()),
        Ok(vec![pin("c"), pin("a"), pin("b"), pin("a")])
    );
}

#[test]
fn missing_token_is_fatal_and_keeps_the_cursor() {
    let mut s = stream(Some("s1"));
    let answer = format!(
        "{{\"rooms\":{{\"join\":{{\"{}\":{{\"timeline\":{{\"events\":[{}]}}}}}}}}}}",
        ROOM,
        text_event(&pin("bafy1").encode())
    );
    assert_eq!(s.poll(answer.as_bytes()), Err(not_understood("Could not reach `next-batch`")));
    assert_eq!(s, stream(Some("s1")));
}

#[test]
fn token_that_is_no_string_is_fatal() {
    let mut s = stream(Some("s1"));
    let answer = format!(
        "{{\"next_batch\":12,\"rooms\":{{\"join\":{{\"{}\":{{\"timeline\":{{\"events\":[]}}}}}}}}}}",
        ROOM
    );
    assert_eq!(s.poll(answer.as_bytes()), Err(not_understood("Could not view next_batch as string")));
    assert_eq!(s, stream(Some("s1")));
}

#[test]
fn room_without_timeline_is_fatal() {
    let mut s = stream(None);
    let answer = format!("{{\"next_batch\":\"s1\",\"rooms\":{{\"join\":{{\"{}\":{{}}}}}}}}", ROOM);
    assert_eq!(
        s.poll(answer.as_bytes()),
        Err(not_understood("!abc:matrix.org: Could not find `timeline`"))
    );
    assert_eq!(s, stream(None));
}

#[test]
fn timeline_without_events_is_fatal() {
    let mut s = stream(None);
    let answer = format!(
        "{{\"next_batch\":\"s1\",\"rooms\":{{\"join\":{{\"{}\":{{\"timeline\":{{\"limited\":false}}}}}}}}}}",
        ROOM
    );
    assert_eq!(s.poll(answer.as_bytes()), Err(not_understood("Could not reach `events`")));
    let answer = format!(
        "{{\"next_batch\":\"s1\",\"rooms\":{{\"join\":{{\"{}\":{{\"timeline\":{{\"events\":{{}}}}}}}}}}}}",
        ROOM
    );
    assert_eq!(s.poll(answer.as_bytes()), Err(not_understood("Could not view `events` as array")));
    assert_eq!(s, stream(None));
}

#[test]
fn answer_that_is_no_json_is_fatal() {
    let mut s = stream(Some("s1"));
    assert_eq!(s.poll(b"<html>502</html>"), Err(not_understood("Response is not JSON")));
    assert_eq!(s.poll(b""), Err(not_understood("Response is not JSON")));
    assert_eq!(s, stream(Some("s1")));
}

#[test]
fn read_page_of_parsed_answers() {
    let quiet: serde_json::Value = serde_json::from_str("{\"next_batch\":\"s1\"}").unwrap();
    assert_eq!(MatrixStream::read_page(&quiet, ROOM), Ok(Page::Quiet));
    let answer = page(&[text_event(&pin("bafy1").encode()), text_event("noise")], "s1");
    let parsed: serde_json::Value = serde_json::from_str(&answer).unwrap();
    assert_eq!(
        MatrixStream::read_page(&parsed, ROOM),
        Ok(Page::Events { messages: vec![pin("bafy1")], next_batch: "s1".to_owned() })
    );
    assert_eq!(MatrixStream::read_page(&parsed, "!other:matrix.org"), Ok(Page::Quiet));
}

#[test]
fn read_event_and_read_events() {
    let good: serde_json::Value = serde_json::from_str(&text_event(&pin("bafy1").encode())).unwrap();
    let bad: serde_json::Value = serde_json::from_str(&text_event("noise")).unwrap();
    assert_eq!(read_event(&good), Some(pin("bafy1")));
    assert_eq!(read_event(&bad), None);
    assert_eq!(read_events(&vec![bad.clone(), good.clone(), bad, good]), vec![pin("bafy1"), pin("bafy1")]);
    assert_eq!(read_events(&vec![]), vec![]);
}
