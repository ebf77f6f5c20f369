//! The synchronisation engine: it asks for the next page of a room's
//! history, reads the messages out of the answer, and moves its cursor.

use vstd::prelude::*;
use vstd::string::StringExecFns;
use vstd::utf8::encode_utf8;
use crate::address::{address_with_params, params_view, with_params};
use crate::http::{HttpMethod, HttpRequest, HttpRequestView};
use crate::json::{JsonValue, array_value, json_parse, json_text, map_insert, map_new, no_members, number_value, object_value, parse_value, string_value, value_contents, value_get, value_text, values_contents};
use crate::matrix::error::{MatrixError, MatrixErrorView};
use crate::message::{Message, MessageView, message_of_text};
use crate::text::{join2, join3, str_eq};

verus! {

/// A running synchronisation of one room. Its cursor is its own: nothing
/// but a cycle of the stream moves it.
#[derive(Debug, PartialEq, Eq)]
pub struct MatrixStream {
    homeserver: String,
    room_id: String,
    access_token: String,
    /// How many events of the past the first page may bring
    initial_backlog_size: u32,
    /// When to continue syncing from, None means first sync
    last_sync: Option<String>,
}

/// A `MatrixStream` as a mathematical value.
pub struct MatrixStreamView {
    pub homeserver: Seq<char>,
    pub room_id: Seq<char>,
    pub access_token: Seq<char>,
    pub initial_backlog_size: u32,
    pub last_sync: Option<Seq<char>>,
}

impl View for MatrixStream {
    type V = MatrixStreamView;

    closed spec fn view(&self) -> MatrixStreamView {
        MatrixStreamView {
            homeserver: self.homeserver@,
            room_id: self.room_id@,
            access_token: self.access_token@,
            initial_backlog_size: self.initial_backlog_size,
            last_sync: match self.last_sync {
                Some(token) => Some(token@),
                None => None,
            },
        }
    }
}

/// What one answer of the homeserver holds for the room.
#[derive(Debug, PartialEq, Eq)]
pub enum Page {
    /// The answer does not speak of the room: nothing is new.
    Quiet,
    /// The messages among the room's new events, in the server's order, and
    /// the token to continue from.
    Events { messages: Vec<Message>, next_batch: String },
}

/// A `Page` as a mathematical value.
pub enum PageView {
    Quiet,
    Events { messages: Seq<MessageView>, next_batch: Seq<char> },
}

/// Messages as mathematical values.
pub open spec fn message_views(messages: Seq<Message>) -> Seq<MessageView> {
    messages.map_values(|m: Message| m@)
}

impl View for Page {
    type V = PageView;

    open spec fn view(&self) -> PageView {
        match self {
            Page::Quiet => PageView::Quiet,
            Page::Events { messages, next_batch } => PageView::Events {
                messages: message_views(messages@),
                next_batch: next_batch@,
            },
        }
    }
}

/// The filter that the homeserver is to apply: events of the one room only,
/// of the type `m.room.message` only, no more of them than `limit`, and
/// of each event its type and content only.
pub open spec fn filter_document(room_id: Seq<char>, limit: u32) -> JsonValue {
    JsonValue::Object(
        no_members().insert(
            "room"@,
            JsonValue::Object(
                no_members().insert("rooms"@, JsonValue::Array(seq![JsonValue::Str(room_id)])).insert(
                    "timeline"@,
                    JsonValue::Object(
                        no_members().insert("limit"@, JsonValue::Number(limit as int)).insert(
                            "types"@,
                            JsonValue::Array(seq![JsonValue::Str("m.room.message"@)]),
                        ),
                    ),
                ),
            ),
        ).insert(
            "event_fields"@,
            JsonValue::Array(seq![JsonValue::Str("type"@), JsonValue::Str("content"@)]),
        ),
    )
}

/// The query of a synchronisation request with a filter as it is written:
/// the credential, the filter, `full_state` switched off and, unless this
/// is the first request, the cursor as `since`.
pub open spec fn query_with(stream: MatrixStreamView, filter_text: Seq<char>) -> Seq<(Seq<char>, Seq<char>)> {
    let first = seq![
        ("access_token"@, stream.access_token),
        ("filter"@, filter_text),
        ("full_state"@, "false"@),
    ];
    match stream.last_sync {
        Some(token) => first.push(("since"@, token)),
        None => first,
    }
}

/// The query of a synchronisation request: that with the stream's filter.
pub open spec fn sync_params(stream: MatrixStreamView) -> Seq<(Seq<char>, Seq<char>)> {
    query_with(stream, json_text(filter_document(stream.room_id, stream.initial_backlog_size)))
}

/// The request for the next page, or the error where no address can be
/// made for the homeserver.
pub open spec fn next_request_of(stream: MatrixStreamView) -> Result<HttpRequestView, MatrixErrorView> {
    match address_with_params(
        "https://"@ + stream.homeserver + "/_matrix/client/r0/sync"@,
        sync_params(stream),
    ) {
        Some(url) => Ok(HttpRequestView { method: HttpMethod::Get, url, body: None }),
        None => Err(MatrixErrorView::InvalidAddress(stream.homeserver)),
    }
}

/// Whether an event is a plain-text message event: its type is
/// `m.room.message`, and the type of its content is `m.text`.
pub open spec fn is_plain_text(event: JsonValue) -> bool {
    &&& event.member("type"@) == Some(JsonValue::Str("m.room.message"@))
    &&& event.member("content"@) matches Some(content)
    &&& content.member("msgtype"@) == Some(JsonValue::Str("m.text"@))
}

/// The message that an event carries: the event must be a plain-text
/// message event whose body is the wire form of a message.
pub open spec fn event_message(event: JsonValue) -> Option<MessageView> {
    if is_plain_text(event) {
        match event.member("content"@)->0.member("body"@) {
            Some(JsonValue::Str(body)) => message_of_text(encode_utf8(body)),
            _ => None,
        }
    } else {
        None
    }
}

/// The messages that a list of events carries, in the order of the events;
/// events that carry none are left out.
pub open spec fn messages_of(events: Seq<JsonValue>) -> Seq<MessageView>
    decreases events.len(),
{
    if events.len() == 0 {
        Seq::empty()
    } else {
        let before = messages_of(events.drop_last());
        match event_message(events.last()) {
            Some(m) => before.push(m),
            None => before,
        }
    }
}

/// What the room's part of an answer looks like, if the answer has one:
/// the member `rooms.join.<room_id>`.
pub open spec fn joined_room(doc: JsonValue, room_id: Seq<char>) -> Option<JsonValue> {
    match doc.member("rooms"@) {
        Some(rooms) => match rooms.member("join"@) {
            Some(join) => join.member(room_id),
            None => None,
        },
        None => None,
    }
}

/// The page that an answer holds for a room, or why the answer is not
/// understood. An answer that does not speak of the room is a quiet page.
/// One that does must hold the room's `timeline.events` as an array, and
/// the token `next_batch` as a string.
pub open spec fn page_of(doc: JsonValue, room_id: Seq<char>) -> Result<PageView, Seq<char>> {
    match joined_room(doc, room_id) {
        None => Ok(PageView::Quiet),
        Some(room) => match room.member("timeline"@) {
            None => Err(room_id + ": Could not find `timeline`"@),
            Some(timeline) => match timeline.member("events"@) {
                None => Err("Could not reach `events`"@),
                Some(JsonValue::Array(events)) => match doc.member("next_batch"@) {
                    None => Err("Could not reach `next-batch`"@),
                    Some(JsonValue::Str(token)) => Ok(
                        PageView::Events { messages: messages_of(events), next_batch: token },
                    ),
                    Some(_) => Err("Could not view next_batch as string"@),
                },
                Some(_) => Err("Could not view `events` as array"@),
            },
        },
    }
}

/// One cycle of the engine on a parsed answer: what is handed to the
/// caller, and the cursor afterwards. The cursor moves only with a page
/// that brings a token; an answer that is not understood leaves it alone.
pub open spec fn cycle(cursor: Option<Seq<char>>, page: Result<PageView, Seq<char>>) -> (
    Result<Seq<MessageView>, MatrixErrorView>,
    Option<Seq<char>>,
) {
    match page {
        Err(detail) => (Err(MatrixErrorView::ResponseNotUnderstood(detail)), cursor),
        Ok(PageView::Quiet) => (Ok(Seq::empty()), cursor),
        Ok(PageView::Events { messages, next_batch }) => (Ok(messages), Some(next_batch)),
    }
}

/// The page that an answer's bytes hold for a room.
pub open spec fn page_of_bytes(response: Seq<u8>, room_id: Seq<char>) -> Result<PageView, Seq<char>> {
    match json_parse(response) {
        Some(doc) => page_of(doc, room_id),
        None => Err("Response is not JSON"@),
    }
}

/// A batch, or the error in its place, as a mathematical value.
pub open spec fn batch_view(batch: Result<Vec<Message>, MatrixError>) -> Result<Seq<MessageView>, MatrixErrorView> {
    match batch {
        Ok(messages) => Ok(message_views(messages@)),
        Err(e) => Err(e@),
    }
}

/// A page, or the reason in its place, as a mathematical value.
pub open spec fn page_view(page: Result<Page, String>) -> Result<PageView, Seq<char>> {
    match page {
        Ok(p) => Ok(p@),
        Err(detail) => Err(detail@),
    }
}

/// Whether the member `key` of a value is the string `text`.
fn has_text(v: &serde_json::Value, key: &str, text: &str) -> (r: bool)
    ensures
        r == (value_contents(*v).member(key@) == Some(JsonValue::Str(text@))),
{
    match value_get(v, key) {
        Some(member) => match member.as_str() {
            Some(s) => str_eq(s, text),
            None => false,
        },
        None => false,
    }
}

/// Reads the message that an event carries, if it carries one.
pub fn read_event(event: &serde_json::Value) -> (r: Option<Message>)
    ensures
        match r {
            Some(m) => event_message(value_contents(*event)) == Some(m@),
            None => event_message(value_contents(*event)) is None,
        },
{
    if !has_text(event, "type", "m.room.message") {
        return None;
    }
    let content = match value_get(event, "content") {
        Some(c) => c,
        None => { return None; },
    };
    if !has_text(content, "msgtype", "m.text") {
        return None;
    }
    let body = match value_get(content, "body") {
        Some(b) => match b.as_str() {
            Some(s) => s,
            None => { return None; },
        },
        None => { return None; },
    };
    match Message::decode(body.as_bytes()) {
        Ok(m) => Some(m),
        Err(_) => None,
    }
}

/// Reads the messages out of a list of events. An event that carries none
/// is passed over; the others keep their order.
pub fn read_events(events: &Vec<serde_json::Value>) -> (r: Vec<Message>)
    ensures
        message_views(r@) == messages_of(values_contents(events@)),
{
    let ghost docs = values_contents(events@);
    let mut messages: Vec<Message> = Vec::new();
    let mut i: usize = 0;
    assert(docs.take(0) =~= Seq::<JsonValue>::empty());
    assert(message_views(messages@) =~= Seq::<MessageView>::empty());
    while i < events.len()
        invariant
            i <= events.len(),
            docs == values_contents(events@),
            message_views(messages@) == messages_of(docs.take(i as int)),
        decreases events.len() - i,
    {
        let found = read_event(&events[i]);
        proof {
            let next = docs.take(i as int + 1);
            assert(next.drop_last() =~= docs.take(i as int));
            assert(next.last() == value_contents(events@[i as int]));
        }
        match found {
            Some(m) => {
                let ghost before = messages@;
                messages.push(m);
                assert(message_views(messages@) =~= message_views(before).push(m@));
            },
            None => {},
        }
        i += 1;
    }
    assert(docs.take(i as int) =~= docs);
    messages
}

/// A cursor, if there is one, as a mathematical value.
pub open spec fn cursor_view(cursor: Option<String>) -> Option<Seq<char>> {
    match cursor {
        Some(token) => Some(token@),
        None => None,
    }
}

impl MatrixStream {
    /// A stream that synchronises `room_id` with the credential
    /// `access_token`, from the cursor `last_sync` on, or from the start
    /// where there is none.
    pub fn new(
        homeserver: String,
        room_id: String,
        access_token: String,
        initial_backlog_size: u32,
        last_sync: Option<String>,
    ) -> (r: Self)
        ensures
            r@ == (MatrixStreamView {
                homeserver: homeserver@,
                room_id: room_id@,
                access_token: access_token@,
                initial_backlog_size,
                last_sync: cursor_view(last_sync),
            }),
    {
        MatrixStream { homeserver, room_id, access_token, initial_backlog_size, last_sync }
    }

    /// The cursor: the token of the last page that moved it, if any.
    pub fn last_sync(&self) -> (r: Option<&str>)
        ensures
            match r {
                Some(token) => self@.last_sync == Some(token@),
                None => self@.last_sync is None,
            },
    {
        match &self.last_sync {
            Some(token) => Some(token.as_str()),
            None => None,
        }
    }

    /// The room that is synchronised.
    pub fn room_id(&self) -> (r: &str)
        ensures
            r@ == self@.room_id,
    {
        self.room_id.as_str()
    }

    /// The filter of this stream's requests, as a JSON value.
    pub fn filter(&self) -> (v: serde_json::Value)
        ensures
            value_contents(v) == filter_document(self@.room_id, self@.initial_backlog_size),
    {
        let mut room_ids: Vec<serde_json::Value> = Vec::new();
        room_ids.push(string_value(self.room_id.clone()));
        assert(values_contents(room_ids@) =~= seq![JsonValue::Str(self.room_id@)]);
        let mut types: Vec<serde_json::Value> = Vec::new();
        types.push(string_value(String::from_str("m.room.message")));
        assert(values_contents(types@) =~= seq![JsonValue::Str("m.room.message"@)]);
        let mut fields: Vec<serde_json::Value> = Vec::new();
        fields.push(string_value(String::from_str("type")));
        fields.push(string_value(String::from_str("content")));
        assert(values_contents(fields@) =~= seq![JsonValue::Str("type"@), JsonValue::Str("content"@)]);

        let mut timeline = map_new();
        map_insert(&mut timeline, String::from_str("limit"), number_value(self.initial_backlog_size));
        map_insert(&mut timeline, String::from_str("types"), array_value(types));
        let mut room = map_new();
        map_insert(&mut room, String::from_str("rooms"), array_value(room_ids));
        map_insert(&mut room, String::from_str("timeline"), object_value(timeline));
        let mut filter = map_new();
        map_insert(&mut filter, String::from_str("room"), object_value(room));
        map_insert(&mut filter, String::from_str("event_fields"), array_value(fields));
        object_value(filter)
    }

    /// The query of the request for the next page, with the filter as it
    /// is written.
    pub fn query(&self, filter_text: String) -> (r: Vec<(String, String)>)
        ensures
            params_view(r@) == query_with(self@, filter_text@),
    {
        let mut params: Vec<(String, String)> = Vec::new();
        params.push((String::from_str("access_token"), self.access_token.clone()));
        params.push((String::from_str("filter"), filter_text));
        params.push((String::from_str("full_state"), String::from_str("false")));
        match &self.last_sync {
            Some(token) => {
                params.push((String::from_str("since"), token.clone()));
            },
            None => {},
        }
        assert(params_view(params@) =~= query_with(self@, filter_text@));
        params
    }

    /// The request for the next page: a `GET` of the synchronisation
    /// address, with the cursor as `since` once there is one.
    pub fn next_request(&self) -> (r: Result<HttpRequest, MatrixError>)
        ensures
            match r {
                Ok(request) => next_request_of(self@) == Ok::<HttpRequestView, MatrixErrorView>(request@),
                Err(e) => next_request_of(self@) == Err::<HttpRequestView, MatrixErrorView>(e@),
            },
    {
        let filter = self.filter();
        let params = self.query(value_text(&filter));
        let base = join3("https://", self.homeserver.as_str(), "/_matrix/client/r0/sync");
        match with_params(base.as_str(), &params) {
            Some(url) => Ok(HttpRequest { method: HttpMethod::Get, url, body: None }),
            None => Err(MatrixError::InvalidAddress(self.homeserver.clone())),
        }
    }

    /// One cycle on the bytes of an answer: the batch of messages that the
    /// answer brings, possibly empty, with the cursor moved to the answer's
    /// token; or the error, with the cursor where it was.
    pub fn poll(&mut self, response: &[u8]) -> (r: Result<Vec<Message>, MatrixError>)
        ensures
            (batch_view(r), final(self)@.last_sync) == cycle(
                old(self)@.last_sync,
                page_of_bytes(response@, old(self)@.room_id),
            ),
            final(self)@.homeserver == old(self)@.homeserver,
            final(self)@.room_id == old(self)@.room_id,
            final(self)@.access_token == old(self)@.access_token,
            final(self)@.initial_backlog_size == old(self)@.initial_backlog_size,
    {
        let page = match parse_value(response) {
            Ok(v) => Self::read_page(&v, self.room_id.as_str()),
            Err(_) => Err(String::from_str("Response is not JSON")),
        };
        match page {
            Err(detail) => Err(MatrixError::ResponseNotUnderstood(detail)),
            Ok(Page::Quiet) => {
                let nothing: Vec<Message> = Vec::new();
                assert(message_views(nothing@) =~= Seq::<MessageView>::empty());
                Ok(nothing)
            },
            Ok(Page::Events { messages, next_batch }) => {
                self.last_sync = Some(next_batch);
                Ok(messages)
            },
        }
    }

    /// Reads the page that a parsed answer holds for a room.
    pub fn read_page(response: &serde_json::Value, room_id: &str) -> (r: Result<Page, String>)
        ensures
            page_view(r) == page_of(value_contents(*response), room_id@),
    {
        let rooms = match value_get(response, "rooms") {
            Some(v) => v,
            None => { return Ok(Page::Quiet); },
        };
        let join = match value_get(rooms, "join") {
            Some(v) => v,
            None => { return Ok(Page::Quiet); },
        };
        let room = match value_get(join, room_id) {
            Some(v) => v,
            None => { return Ok(Page::Quiet); },
        };
        let timeline = match value_get(room, "timeline") {
            Some(v) => v,
            None => { return Err(join2(room_id, ": Could not find `timeline`")); },
        };
        let events = match value_get(timeline, "events") {
            Some(v) => match v.as_array() {
                Some(a) => a,
                None => { return Err(String::from_str("Could not view `events` as array")); },
            },
            None => { return Err(String::from_str("Could not reach `events`")); },
        };
        let messages = read_events(events);
        let next_batch = match value_get(response, "next_batch") {
            Some(v) => match v.as_str() {
                Some(s) => s,
                None => { return Err(String::from_str("Could not view next_batch as string")); },
            },
            None => { return Err(String::from_str("Could not reach `next-batch`")); },
        };
        Ok(Page::Events { messages, next_batch: String::from_str(next_batch) })
    }
}

/// Whether an event carries a message.
pub open spec fn carries_message(event: JsonValue) -> bool {
    event_message(event) is Some
}

/// A page of well-formed and malformed events gives exactly the messages of
/// the well-formed ones, in their order: as many messages as there are
/// events that carry one.
pub proof fn lemma_batch_is_the_well_formed_events(events: Seq<JsonValue>)
    ensures
        messages_of(events) == events.filter(|e: JsonValue| carries_message(e)).map_values(
            |e: JsonValue| event_message(e)->0,
        ),
        messages_of(events).len() == events.filter(|e: JsonValue| carries_message(e)).len(),
    decreases events.len(),
{
    let carries = |e: JsonValue| carries_message(e);
    let message = |e: JsonValue| event_message(e)->0;
    reveal(Seq::filter);
    if events.len() > 0 {
        lemma_batch_is_the_well_formed_events(events.drop_last());
    }
    assert(messages_of(events) =~= events.filter(carries).map_values(message));
}

/// Pages compose: the messages of two lists of events, one after the
/// other, are the messages of the first followed by those of the second.
/// However a room's events are cut into pages, the same messages come out
/// in the same order.
pub proof fn lemma_pages_compose(first: Seq<JsonValue>, second: Seq<JsonValue>)
    ensures
        messages_of(first + second) == messages_of(first) + messages_of(second),
    decreases second.len(),
{
    if second.len() == 0 {
        assert(first + second =~= first);
        assert(messages_of(first) + messages_of(second) =~= messages_of(first));
    } else {
        lemma_pages_compose(first, second.drop_last());
        assert((first + second).drop_last() =~= first + second.drop_last());
        assert((first + second).last() == second.last());
        assert(messages_of(first + second) =~= messages_of(first) + messages_of(second));
    }
}

/// An answer that does not speak of the room gives an empty batch, not an
/// error, and leaves the cursor where it was.
pub proof fn lemma_missing_room_is_quiet(cursor: Option<Seq<char>>, doc: JsonValue, room_id: Seq<char>)
    requires
        joined_room(doc, room_id) is None,
    ensures
        cycle(cursor, page_of(doc, room_id)) == (
            Ok::<Seq<MessageView>, MatrixErrorView>(Seq::empty()),
            cursor,
        ),
{
}

/// The cursor moves only to the token of an answer: after a cycle it is
/// either where it was, or the string that the answer holds as
/// `next_batch`.
pub proof fn lemma_cursor_moves_only_to_token(cursor: Option<Seq<char>>, doc: JsonValue, room_id: Seq<char>)
    ensures
        cycle(cursor, page_of(doc, room_id)).1 == cursor || (doc.member("next_batch"@) matches Some(
            JsonValue::Str(token),
        ) && cycle(cursor, page_of(doc, room_id)).1 == Some(token)),
{
}

/// Taking the same answer twice moves the cursor no further than taking it
/// once, and the request that follows asks for what comes after the
/// answer's token.
pub proof fn lemma_replay_keeps_cursor(stream: MatrixStreamView, page: Result<PageView, Seq<char>>)
    ensures
        cycle(cycle(stream.last_sync, page).1, page).1 == cycle(stream.last_sync, page).1,
        page matches Ok(PageView::Events { messages, next_batch }) ==> sync_params(
            MatrixStreamView { last_sync: cycle(stream.last_sync, page).1, ..stream },
        ).last() == ("since"@, next_batch),
{
}

} // verus!
