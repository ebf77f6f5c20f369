//! A Matrix room as a channel: who is logged in, which room is meant, and
//! the requests that log in, look the room up and send a message.

use vstd::prelude::*;
use vstd::string::StringExecFns;
use crate::address::{address_with_params, address_with_segment, params_view, with_params, with_segment};
use crate::clock::{rfc3339_text, timestamp_text};
use crate::http::{HttpMethod, HttpRequest, HttpRequestView};
use crate::json::{JsonValue, json_parse, json_text, map_insert, map_new, no_members, object_value, parse_value, string_value, value_contents, value_get, value_text, values_contents};
use crate::matrix::error::{MatrixError, MatrixErrorView};
use crate::matrix::matrix_stream::{MatrixStream, MatrixStreamView};
use crate::message::{Message, MessageKind, MessageKindView, MessageView};
use crate::text::{debug_quoted, debug_text, join2, join3, str_eq};

verus! {

/// What a login gives: the credential, and who it stands for.
#[derive(Debug, PartialEq, Eq)]
pub struct Session {
    pub access_token: String,
    pub user_id: String,
    pub device_id: String,
}

/// A `Session` as a mathematical value.
pub struct SessionView {
    pub access_token: Seq<char>,
    pub user_id: Seq<char>,
    pub device_id: Seq<char>,
}

impl View for Session {
    type V = SessionView;

    open spec fn view(&self) -> SessionView {
        SessionView {
            access_token: self.access_token@,
            user_id: self.user_id@,
            device_id: self.device_id@,
        }
    }
}

impl Clone for Session {
    fn clone(&self) -> (r: Self)
        ensures
            r@ == self@,
    {
        Session {
            access_token: self.access_token.clone(),
            user_id: self.user_id.clone(),
            device_id: self.device_id.clone(),
        }
    }
}

#[derive(Debug, PartialEq, Eq)]
pub struct MatrixChannelSettings {
    /// Human-readable name of this Matrix channel
    pub name: String,
    /// Matrix homeserver, as the host of its address
    pub homeserver: String,
    /// Human-readable Matrix room name
    pub room_alias: String,
    /// How many initial messages to pull from the room on listen()
    pub initial_backlog_size: u32,
    /// Matrix login session information
    pub session: Option<Session>,
}

/// `MatrixChannelSettings` as a mathematical value.
pub struct MatrixChannelSettingsView {
    pub name: Seq<char>,
    pub homeserver: Seq<char>,
    pub room_alias: Seq<char>,
    pub initial_backlog_size: u32,
    pub session: Option<SessionView>,
}

impl View for MatrixChannelSettings {
    type V = MatrixChannelSettingsView;

    open spec fn view(&self) -> MatrixChannelSettingsView {
        MatrixChannelSettingsView {
            name: self.name@,
            homeserver: self.homeserver@,
            room_alias: self.room_alias@,
            initial_backlog_size: self.initial_backlog_size,
            session: match self.session {
                Some(session) => Some(session@),
                None => None,
            },
        }
    }
}

impl Clone for MatrixChannelSettings {
    fn clone(&self) -> (r: Self)
        ensures
            r@ == self@,
    {
        MatrixChannelSettings {
            name: self.name.clone(),
            homeserver: self.homeserver.clone(),
            room_alias: self.room_alias.clone(),
            initial_backlog_size: self.initial_backlog_size,
            session: match &self.session {
                Some(session) => Some(session.clone()),
                None => None,
            },
        }
    }
}

/// Settings that lack what a channel needs.
#[derive(Debug, PartialEq, Eq)]
pub struct ProvisioningError {
    /// The name of the channel that has no session
    pub channel: String,
}

impl ProvisioningError {
    /// The error in words.
    pub fn message(&self) -> (r: String)
        ensures
            r@ == "No session established for Matrix channel "@ + self.channel@,
    {
        join2("No session established for Matrix channel ", self.channel.as_str())
    }
}

#[derive(Debug, PartialEq, Eq)]
pub struct MatrixChannel {
    pub settings: MatrixChannelSettings,
    /// The room that the alias stands for, once it has been looked up
    pub room_id: Option<String>,
}

/// A `MatrixChannel` as a mathematical value.
pub struct MatrixChannelView {
    pub settings: MatrixChannelSettingsView,
    pub room_id: Option<Seq<char>>,
}

/// How far a channel has come.
pub enum ChannelState {
    Unauthenticated,
    Authenticated,
    RoomResolved,
}

impl MatrixChannelView {
    /// A channel is unauthenticated until it has a session, and its room is
    /// resolved once it has both a session and the room's identifier.
    pub open spec fn state(self) -> ChannelState {
        if self.settings.session is None {
            ChannelState::Unauthenticated
        } else if self.room_id is None {
            ChannelState::Authenticated
        } else {
            ChannelState::RoomResolved
        }
    }

    /// The channel after a login: the session takes the place of the one
    /// that was there, if any; all else stays.
    pub open spec fn with_session(self, session: SessionView) -> MatrixChannelView {
        MatrixChannelView {
            settings: MatrixChannelSettingsView { session: Some(session), ..self.settings },
            ..self
        }
    }

    /// The channel after its alias was looked up: it knows its room.
    pub open spec fn with_room(self, room_id: Seq<char>) -> MatrixChannelView {
        MatrixChannelView { room_id: Some(room_id), ..self }
    }
}

impl View for MatrixChannel {
    type V = MatrixChannelView;

    open spec fn view(&self) -> MatrixChannelView {
        MatrixChannelView {
            settings: self.settings@,
            room_id: match self.room_id {
                Some(id) => Some(id@),
                None => None,
            },
        }
    }
}

/// The address of an endpoint of the homeserver's client API.
pub open spec fn endpoint(homeserver: Seq<char>, path: Seq<char>) -> Seq<char> {
    "https://"@ + homeserver + "/_matrix/client/r0/"@ + path
}

/// The body of a login request.
pub open spec fn login_document(username: Seq<char>, password: Seq<char>) -> JsonValue {
    JsonValue::Object(
        no_members().insert("type"@, JsonValue::Str("m.login.password"@)).insert(
            "user"@,
            JsonValue::Str(username),
        ).insert("password"@, JsonValue::Str(password)),
    )
}

/// The login request: the credentials as a JSON body, posted to the
/// homeserver's login endpoint.
pub open spec fn login_request_of(homeserver: Seq<char>, username: Seq<char>, password: Seq<char>) -> HttpRequestView {
    HttpRequestView {
        method: HttpMethod::Post,
        url: endpoint(homeserver, "login"@),
        body: Some(json_text(login_document(username, password))),
    }
}

/// The string under `key` that an answer must hold, or what is wrong.
pub open spec fn required_text(doc: JsonValue, key: Seq<char>) -> Result<Seq<char>, Seq<char>> {
    match doc.member(key) {
        Some(JsonValue::Str(text)) => Ok(text),
        Some(other) => Err(key + " is not a String! (Got "@ + json_text(other) + ")"@),
        None => Err("Could not get "@ + key + " from response"@),
    }
}

/// The session that a login answer holds, or what is wrong with the answer.
pub open spec fn session_of(doc: JsonValue) -> Result<SessionView, Seq<char>> {
    match required_text(doc, "access_token"@) {
        Err(detail) => Err(detail),
        Ok(access_token) => match required_text(doc, "user_id"@) {
            Err(detail) => Err(detail),
            Ok(user_id) => match required_text(doc, "device_id"@) {
                Err(detail) => Err(detail),
                Ok(device_id) => Ok(SessionView { access_token, user_id, device_id }),
            },
        },
    }
}

/// What an answer's bytes hold, read by `read`; bytes that are no JSON are
/// not understood.
pub open spec fn of_bytes<T>(response: Seq<u8>, read: spec_fn(JsonValue) -> Result<T, Seq<char>>) -> Result<T, Seq<char>> {
    match json_parse(response) {
        Some(doc) => read(doc),
        None => Err("Response is not JSON"@),
    }
}

/// The room identifier that an alias lookup answers with.
pub open spec fn room_id_of(doc: JsonValue) -> Result<Seq<char>, Seq<char>> {
    match doc.member("room_id"@) {
        None => Err("No room_id in response object"@),
        Some(JsonValue::Str(id)) => Ok(id),
        Some(_) => Err("Cannot deserialize room_id as string"@),
    }
}

/// What the answer to an alias lookup gives a channel: the room's
/// identifier, if somebody has logged in and the answer is understood.
pub open spec fn alias2id_of(channel: MatrixChannelView, response: Seq<u8>) -> Result<Seq<char>, MatrixErrorView> {
    if channel.settings.session is None {
        Err(MatrixErrorView::NotAuthenticated)
    } else {
        match of_bytes(response, |doc: JsonValue| room_id_of(doc)) {
            Ok(id) => Ok(id),
            Err(detail) => Err(MatrixErrorView::ResponseNotUnderstood(detail)),
        }
    }
}

/// The address at which an alias is looked up: the alias as one segment
/// after the directory's path, and the credential as the query.
pub open spec fn alias_address(homeserver: Seq<char>, alias: Seq<char>, access_token: Seq<char>) -> Option<Seq<char>> {
    match address_with_segment(endpoint(homeserver, "directory/room"@), alias) {
        Some(lookup) => address_with_params(lookup, seq![("access_token"@, access_token)]),
        None => None,
    }
}

/// The request that looks the room's alias up, if there is anything to
/// look up. It needs a session. A channel that knows its room asks no
/// more: an alias is looked up once in the life of a channel.
pub open spec fn alias_request_of(channel: MatrixChannelView) -> Result<
    Option<HttpRequestView>,
    MatrixErrorView,
> {
    match channel.settings.session {
        None => Err(MatrixErrorView::NotAuthenticated),
        Some(session) => if channel.room_id is Some {
            Ok(None)
        } else {
            match alias_address(
                channel.settings.homeserver,
                channel.settings.room_alias,
                session.access_token,
            ) {
                Some(url) => Ok(Some(HttpRequestView { method: HttpMethod::Get, url, body: None })),
                None => Err(MatrixErrorView::InvalidAddress(channel.settings.homeserver)),
            }
        },
    }
}

/// A request, if there is one, or the error in its place, as a
/// mathematical value.
pub open spec fn optional_request_view(r: Result<Option<HttpRequest>, MatrixError>) -> Result<
    Option<HttpRequestView>,
    MatrixErrorView,
> {
    match r {
        Ok(Some(request)) => Ok(Some(request@)),
        Ok(None) => Ok(None),
        Err(e) => Err(e@),
    }
}

/// How a kind reads in a transaction identifier: the variant's name, and
/// the content address quoted in round brackets.
pub open spec fn kind_label(kind: MessageKindView) -> Seq<char> {
    kind.tag() + "("@ + debug_quoted(kind.resource_id()) + ")"@
}

/// The transaction identifier of a message sent at a point in time: the
/// kind's label, a colon, and the time as RFC 3339 text.
pub open spec fn transaction_id_of(kind: MessageKindView, secs: int, nanos: int) -> Option<Seq<char>> {
    match rfc3339_text(secs, nanos) {
        Some(time) => Some(kind_label(kind) + ":"@ + time),
        None => None,
    }
}

/// The body of a request that sends a message: a plain-text message event
/// whose text is the wire form of the message.
pub open spec fn send_document(message: MessageView) -> JsonValue {
    JsonValue::Object(
        no_members().insert("msgtype"@, JsonValue::Str("m.text"@)).insert(
            "body"@,
            JsonValue::Str(message.wire_text()),
        ),
    )
}

/// The address to which a message is sent: the room, the event type and
/// the transaction identifier in the path, the credential as the query.
pub open spec fn send_address(
    homeserver: Seq<char>,
    room_id: Seq<char>,
    transaction_id: Seq<char>,
    access_token: Seq<char>,
) -> Option<Seq<char>> {
    match address_with_segment(endpoint(homeserver, "rooms"@), room_id) {
        Some(room) => match address_with_segment(room + "/send/m.room.message"@, transaction_id) {
            Some(event) => address_with_params(event, seq![("access_token"@, access_token)]),
            None => None,
        },
        None => None,
    }
}

/// The request that sends a message under a transaction identifier. It
/// needs a session and the room's identifier.
pub open spec fn send_request_of(
    channel: MatrixChannelView,
    message: MessageView,
    transaction_id: Seq<char>,
) -> Result<HttpRequestView, MatrixErrorView> {
    match (channel.settings.session, channel.room_id) {
        (None, _) => Err(MatrixErrorView::NotAuthenticated),
        (Some(_), None) => Err(MatrixErrorView::RoomNotResolved(channel.settings.room_alias)),
        (Some(session), Some(room_id)) => match send_address(
            channel.settings.homeserver,
            room_id,
            transaction_id,
            session.access_token,
        ) {
            Some(url) => Ok(
                HttpRequestView {
                    method: HttpMethod::Put,
                    url,
                    body: Some(json_text(send_document(message))),
                },
            ),
            None => Err(MatrixErrorView::InvalidAddress(channel.settings.homeserver)),
        },
    }
}

/// What the homeserver says of a refusal: the `error` member of its
/// answer, where the answer is JSON and has one that is a string.
pub open spec fn diagnostic_of(answer: Option<JsonValue>) -> Seq<char> {
    match answer {
        Some(doc) => match doc.member("error"@) {
            Some(JsonValue::Str(error)) => error,
            _ => "The homeserver gave no reason"@,
        },
        None => "The homeserver gave no reason"@,
    }
}

/// What became of a message that was sent, by the status and the document
/// of the answer, if the answer is JSON: the identifier of its event where
/// the status is a success and the answer holds one; else the message was
/// rejected, with what the homeserver said or what is wrong with its
/// answer.
pub open spec fn send_result_of_document(status: u16, answer: Option<JsonValue>) -> Result<
    Seq<char>,
    MatrixErrorView,
> {
    if 200 <= status < 300 {
        match answer {
            Some(doc) => match required_text(doc, "event_id"@) {
                Ok(event_id) => Ok(event_id),
                Err(detail) => Err(MatrixErrorView::Rejected(detail)),
            },
            None => Err(MatrixErrorView::Rejected("Response is not JSON"@)),
        }
    } else {
        Err(MatrixErrorView::Rejected(diagnostic_of(answer)))
    }
}

/// What became of a message that was sent, by the status and the bytes of
/// the answer.
pub open spec fn send_result_of(status: u16, response: Seq<u8>) -> Result<Seq<char>, MatrixErrorView> {
    send_result_of_document(status, json_parse(response))
}

/// An answer, if it is JSON, as a mathematical value.
pub open spec fn answer_view(answer: Option<&serde_json::Value>) -> Option<JsonValue> {
    match answer {
        Some(doc) => Some(value_contents(*doc)),
        None => None,
    }
}

/// The stream that a channel starts listening with: it needs a session and
/// the room's identifier, and begins without a cursor.
pub open spec fn listen_of(channel: MatrixChannelView) -> Result<MatrixStreamView, MatrixErrorView> {
    match (channel.settings.session, channel.room_id) {
        (None, _) => Err(MatrixErrorView::NotAuthenticated),
        (Some(_), None) => Err(MatrixErrorView::RoomNotResolved(channel.settings.room_alias)),
        (Some(session), Some(room_id)) => Ok(
            MatrixStreamView {
                homeserver: channel.settings.homeserver,
                room_id,
                access_token: session.access_token,
                initial_backlog_size: channel.settings.initial_backlog_size,
                last_sync: None,
            },
        ),
    }
}

/// The request that asks which rooms are joined. It needs a session.
pub open spec fn joined_rooms_request_of(channel: MatrixChannelView) -> Result<HttpRequestView, MatrixErrorView> {
    match channel.settings.session {
        None => Err(MatrixErrorView::NotAuthenticated),
        Some(session) => match address_with_params(
            endpoint(channel.settings.homeserver, "joined_rooms"@),
            seq![("access_token"@, session.access_token)],
        ) {
            Some(url) => Ok(HttpRequestView { method: HttpMethod::Get, url, body: None }),
            None => Err(MatrixErrorView::InvalidAddress(channel.settings.homeserver)),
        },
    }
}

/// Whether every document of a list is a string.
pub open spec fn all_strings(items: Seq<JsonValue>) -> bool {
    forall|i: int| 0 <= i < items.len() ==> (#[trigger] items[i]) is Str
}

/// The texts of a list of string documents.
pub open spec fn texts_of(items: Seq<JsonValue>) -> Seq<Seq<char>> {
    items.map_values(|item: JsonValue| item->Str_0)
}

/// A list without its repetitions: each text stays where it first stood.
pub open spec fn distinct(texts: Seq<Seq<char>>) -> Seq<Seq<char>>
    decreases texts.len(),
{
    if texts.len() == 0 {
        Seq::empty()
    } else {
        let before = distinct(texts.drop_last());
        if before.contains(texts.last()) {
            before
        } else {
            before.push(texts.last())
        }
    }
}

/// The joined rooms that an answer holds: the strings of its member
/// `joined_rooms`, each once.
pub open spec fn joined_rooms_of(doc: JsonValue) -> Result<Seq<Seq<char>>, Seq<char>> {
    match doc.member("joined_rooms"@) {
        None => Err("No joined_rooms in response object"@),
        Some(JsonValue::Array(items)) => if all_strings(items) {
            Ok(distinct(texts_of(items)))
        } else {
            Err("joined_rooms is not a list of strings"@)
        },
        Some(_) => Err("joined_rooms is not a list of strings"@),
    }
}

/// Whether the channel's room is among the joined rooms.
pub open spec fn check_room_of(channel: MatrixChannelView, joined: Seq<Seq<char>>) -> Result<(), MatrixErrorView> {
    match channel.room_id {
        None => Err(MatrixErrorView::RoomNotResolved(channel.settings.room_alias)),
        Some(id) => if joined.contains(id) {
            Ok(())
        } else {
            Err(MatrixErrorView::RoomNotJoined(id))
        },
    }
}

/// Texts as mathematical values.
pub open spec fn text_views(texts: Seq<String>) -> Seq<Seq<char>> {
    texts.map_values(|t: String| t@)
}

/// A list of texts, or the reason in its place, as a mathematical value.
pub open spec fn texts_view(texts: Result<Vec<String>, String>) -> Result<Seq<Seq<char>>, Seq<char>> {
    match texts {
        Ok(list) => Ok(text_views(list@)),
        Err(detail) => Err(detail@),
    }
}

/// A list without repetitions holds each text of the list it was made
/// from, and holds none twice.
pub proof fn lemma_distinct_is_a_set(texts: Seq<Seq<char>>)
    ensures
        distinct(texts).no_duplicates(),
        forall|t: Seq<char>| distinct(texts).contains(t) <==> texts.contains(t),
    decreases texts.len(),
{
    if texts.len() > 0 {
        let front = texts.drop_last();
        let last = texts.last();
        lemma_distinct_is_a_set(front);
        assert forall|t: Seq<char>| distinct(texts).contains(t) <==> texts.contains(t) by {
            if texts.contains(t) {
                let i = choose|i: int| 0 <= i < texts.len() && texts[i] == t;
                if i < texts.len() - 1 {
                    assert(front[i] == t);
                    assert(front.contains(t));
                    let j = choose|j: int| 0 <= j < distinct(front).len() && distinct(front)[j] == t;
                    assert(distinct(texts)[j] == t);
                } else if !distinct(front).contains(last) {
                    assert(distinct(texts)[distinct(front).len() as int] == t);
                }
            }
            if distinct(texts).contains(t) {
                let j = choose|j: int| 0 <= j < distinct(texts).len() && distinct(texts)[j] == t;
                if j < distinct(front).len() {
                    assert(distinct(front)[j] == t);
                    assert(distinct(front).contains(t));
                    assert(front.contains(t));
                    let i = choose|i: int| 0 <= i < front.len() && front[i] == t;
                    assert(texts[i] == t);
                } else {
                    assert(texts[texts.len() - 1] == t);
                }
            }
        }
    }
}

/// Until somebody has logged in, a channel can do nothing but log in: to
/// look the room up, to ask for the joined rooms, to send and to listen all
/// fail with `NotAuthenticated`.
pub proof fn lemma_unauthenticated_channel_refuses(
    channel: MatrixChannelView,
    message: MessageView,
    transaction_id: Seq<char>,
)
    requires
        channel.state() is Unauthenticated,
    ensures
        alias_request_of(channel) == Err::<Option<HttpRequestView>, MatrixErrorView>(
            MatrixErrorView::NotAuthenticated,
        ),
        joined_rooms_request_of(channel) == Err::<HttpRequestView, MatrixErrorView>(
            MatrixErrorView::NotAuthenticated,
        ),
        send_request_of(channel, message, transaction_id) == Err::<HttpRequestView, MatrixErrorView>(
            MatrixErrorView::NotAuthenticated,
        ),
        listen_of(channel) == Err::<MatrixStreamView, MatrixErrorView>(MatrixErrorView::NotAuthenticated),
{
}

/// A channel that is logged in but has not looked its room up can neither
/// send nor listen.
pub proof fn lemma_authenticated_channel_needs_room(
    channel: MatrixChannelView,
    message: MessageView,
    transaction_id: Seq<char>,
)
    requires
        channel.state() is Authenticated,
    ensures
        send_request_of(channel, message, transaction_id) == Err::<HttpRequestView, MatrixErrorView>(
            MatrixErrorView::RoomNotResolved(channel.settings.room_alias),
        ),
        listen_of(channel) == Err::<MatrixStreamView, MatrixErrorView>(
            MatrixErrorView::RoomNotResolved(channel.settings.room_alias),
        ),
{
}

/// A channel whose room is resolved listens, from the start: each stream
/// that it gives begins without a cursor. And it looks its room up no
/// more.
pub proof fn lemma_resolved_channel_listens(channel: MatrixChannelView)
    requires
        channel.state() is RoomResolved,
    ensures
        listen_of(channel) matches Ok(stream) && stream.last_sync is None && stream.room_id
            == channel.room_id->0,
        alias_request_of(channel) == Ok::<Option<HttpRequestView>, MatrixErrorView>(None),
{
}

/// A login authenticates, and keeps a room that was resolved; a lookup
/// that is answered resolves the room, and is answered only for a channel
/// that is logged in. Neither leads back.
pub proof fn lemma_channel_moves_forward(
    channel: MatrixChannelView,
    session: SessionView,
    response: Seq<u8>,
)
    ensures
        !(channel.with_session(session).state() is Unauthenticated),
        channel.state() is RoomResolved ==> channel.with_session(session).state() is RoomResolved,
        alias2id_of(channel, response) matches Ok(id) ==> !(channel.state() is Unauthenticated)
            && channel.with_room(id).state() is RoomResolved,
{
}

/// Some text, or the reason in its place, as a mathematical value.
pub open spec fn text_view(text: Result<String, String>) -> Result<Seq<char>, Seq<char>> {
    match text {
        Ok(t) => Ok(t@),
        Err(detail) => Err(detail@),
    }
}

/// Reads the string under `key` that an answer must hold.
pub fn read_required_text(doc: &serde_json::Value, key: &str) -> (r: Result<String, String>)
    ensures
        text_view(r) == required_text(value_contents(*doc), key@),
{
    match value_get(doc, key) {
        Some(v) => match v.as_str() {
            Some(text) => Ok(String::from_str(text)),
            None => {
                let mut detail = join2(key, " is not a String! (Got ");
                detail.append(value_text(v).as_str());
                detail.append(")");
                Err(detail)
            },
        },
        None => Err(join3("Could not get ", key, " from response")),
    }
}

/// Puts a transaction identifier together: the name of the kind's
/// variant, the quoted content address in round brackets, a colon, and the
/// time.
pub fn label_transaction(kind: &MessageKind, quoted_id: &str, time: &str) -> (r: String)
    ensures
        r@ == kind@.tag() + "("@ + quoted_id@ + ")"@ + ":"@ + time@,
{
    let mut id = match kind {
        MessageKind::Pin(_) => String::from_str("Pin"),
        MessageKind::Confirm(_) => String::from_str("Confirm"),
    };
    id.append("(");
    id.append(quoted_id);
    id.append(")");
    id.append(":");
    id.append(time);
    id
}

/// The transaction identifier for sending `kind` at the point in time that
/// lies `secs` seconds and `nanos` nanoseconds after the start of 1970, if
/// that point has a text.
pub fn transaction_id(kind: &MessageKind, secs: i64, nanos: u32) -> (r: Option<String>)
    ensures
        match r {
            Some(id) => transaction_id_of(kind@, secs as int, nanos as int) == Some(id@),
            None => transaction_id_of(kind@, secs as int, nanos as int) is None,
        },
{
    match timestamp_text(secs, nanos) {
        Some(time) => {
            let quoted = debug_text(kind.resource_id());
            Some(label_transaction(kind, quoted.as_str(), time.as_str()))
        },
        None => None,
    }
}

impl Session {
    /// Reads the session out of a parsed login answer.
    pub fn from_value(doc: &serde_json::Value) -> (r: Result<Session, String>)
        ensures
            match r {
                Ok(session) => session_of(value_contents(*doc)) == Ok::<SessionView, Seq<char>>(session@),
                Err(detail) => session_of(value_contents(*doc)) == Err::<SessionView, Seq<char>>(detail@),
            },
    {
        let access_token = match read_required_text(doc, "access_token") {
            Ok(t) => t,
            Err(detail) => { return Err(detail); },
        };
        let user_id = match read_required_text(doc, "user_id") {
            Ok(t) => t,
            Err(detail) => { return Err(detail); },
        };
        let device_id = match read_required_text(doc, "device_id") {
            Ok(t) => t,
            Err(detail) => { return Err(detail); },
        };
        Ok(Session { access_token, user_id, device_id })
    }
}

/// Whether a list holds a text.
pub fn holds(list: &Vec<String>, text: &str) -> (r: bool)
    ensures
        r == text_views(list@).contains(text@),
{
    let mut i: usize = 0;
    while i < list.len()
        invariant
            i <= list.len(),
            forall|k: int| 0 <= k < i ==> text_views(list@)[k] != text@,
        decreases list.len() - i,
    {
        if str_eq(list[i].as_str(), text) {
            assert(text_views(list@)[i as int] == text@);
            return true;
        }
        i += 1;
    }
    false
}

/// The address of an endpoint of the homeserver's client API.
fn endpoint_address(homeserver: &str, path: &str) -> (r: String)
    ensures
        r@ == endpoint(homeserver@, path@),
{
    let mut address = join3("https://", homeserver, "/_matrix/client/r0/");
    address.append(path);
    address
}

/// The query that holds nothing but the credential.
fn credential_query(access_token: &str) -> (r: Vec<(String, String)>)
    ensures
        params_view(r@) == seq![("access_token"@, access_token@)],
{
    let mut params: Vec<(String, String)> = Vec::new();
    params.push((String::from_str("access_token"), String::from_str(access_token)));
    assert(params_view(params@) =~= seq![("access_token"@, access_token@)]);
    params
}

impl MatrixChannelSettings {
    /// Turn freshly loaded settings into a channel. Settings without a
    /// session cannot be used.
    pub fn to_channel(&self) -> (r: Result<MatrixChannel, ProvisioningError>)
        ensures
            match r {
                Ok(channel) => self@.session is Some && channel@ == (MatrixChannelView {
                    settings: self@,
                    room_id: None,
                }),
                Err(e) => self@.session is None && e.channel@ == self@.name,
            },
    {
        match &self.session {
            Some(_) => Ok(MatrixChannel { settings: self.clone(), room_id: None }),
            None => Err(ProvisioningError { channel: self.name.clone() }),
        }
    }
}

impl MatrixChannel {
    /// A channel that nobody has logged in to yet.
    pub fn new(name: &str, homeserver: String, room_alias: String, initial_backlog_size: u32) -> (r: Result<
        Self,
        MatrixError,
    >)
        ensures
            r matches Ok(channel) && channel@ == (MatrixChannelView {
                settings: MatrixChannelSettingsView {
                    name: name@,
                    homeserver: homeserver@,
                    room_alias: room_alias@,
                    initial_backlog_size,
                    session: None,
                },
                room_id: None,
            }),
    {
        Ok(
            MatrixChannel {
                settings: MatrixChannelSettings {
                    name: String::from_str(name),
                    homeserver,
                    room_alias,
                    initial_backlog_size,
                    session: None,
                },
                room_id: None,
            },
        )
    }

    /// The body of the request that logs `username` in, as a JSON value.
    pub fn login_body(username: &str, password: String) -> (v: serde_json::Value)
        ensures
            value_contents(v) == login_document(username@, password@),
    {
        let mut members = map_new();
        map_insert(&mut members, String::from_str("type"), string_value(String::from_str("m.login.password")));
        map_insert(&mut members, String::from_str("user"), string_value(String::from_str(username)));
        map_insert(&mut members, String::from_str("password"), string_value(password));
        object_value(members)
    }

    /// The request that logs `username` in. The password is taken over and
    /// is gone when the request's body has been written.
    pub fn login_request(&self, username: &str, password: String) -> (r: HttpRequest)
        ensures
            r@ == login_request_of(self@.settings.homeserver, username@, password@),
    {
        let body = Self::login_body(username, password);
        HttpRequest {
            method: HttpMethod::Post,
            url: endpoint_address(self.settings.homeserver.as_str(), "login"),
            body: Some(value_text(&body)),
        }
    }

    /// Takes the answer to a login request: the session that it holds
    /// replaces the one that was there, if any. An answer that is not
    /// understood changes nothing.
    pub fn log_in(&mut self, response: &[u8]) -> (r: Result<(), MatrixError>)
        ensures
            match of_bytes(response@, |doc: JsonValue| session_of(doc)) {
                Ok(session) => r is Ok && final(self)@ == old(self)@.with_session(session),
                Err(detail) => r matches Err(e) && e@ == MatrixErrorView::ResponseNotUnderstood(detail)
                    && final(self)@ == old(self)@,
            },
    {
        let session = match parse_value(response) {
            Ok(doc) => Session::from_value(&doc),
            Err(_) => Err(String::from_str("Response is not JSON")),
        };
        match session {
            Ok(session) => {
                self.settings.session = Some(session);
                Ok(())
            },
            Err(detail) => Err(MatrixError::ResponseNotUnderstood(detail)),
        }
    }

    /// The session, if somebody has logged in.
    pub fn get_session(&self) -> (r: Result<&Session, MatrixError>)
        ensures
            match r {
                Ok(session) => self@.settings.session == Some(session@),
                Err(e) => self@.settings.session is None && e@ == MatrixErrorView::NotAuthenticated,
            },
    {
        match &self.settings.session {
            Some(session) => Ok(session),
            None => Err(MatrixError::NotAuthenticated),
        }
    }

    /// The request that looks the room's alias up, or none where the room
    /// is known already.
    pub fn alias_request(&self) -> (r: Result<Option<HttpRequest>, MatrixError>)
        ensures
            optional_request_view(r) == alias_request_of(self@),
    {
        let session = match self.get_session() {
            Ok(session) => session,
            Err(e) => { return Err(e); },
        };
        if self.room_id.is_some() {
            return Ok(None);
        }
        let directory = endpoint_address(self.settings.homeserver.as_str(), "directory/room");
        let lookup = match with_segment(directory.as_str(), self.settings.room_alias.as_str()) {
            Some(address) => address,
            None => { return Err(MatrixError::InvalidAddress(self.settings.homeserver.clone())); },
        };
        let params = credential_query(session.access_token.as_str());
        match with_params(lookup.as_str(), &params) {
            Some(url) => Ok(Some(HttpRequest { method: HttpMethod::Get, url, body: None })),
            None => Err(MatrixError::InvalidAddress(self.settings.homeserver.clone())),
        }
    }

    /// Reads the room identifier out of a parsed answer to an alias lookup.
    pub fn read_room_id(doc: &serde_json::Value) -> (r: Result<String, String>)
        ensures
            text_view(r) == room_id_of(value_contents(*doc)),
    {
        match value_get(doc, "room_id") {
            Some(v) => match v.as_str() {
                Some(id) => Ok(String::from_str(id)),
                None => Err(String::from_str("Cannot deserialize room_id as string")),
            },
            None => Err(String::from_str("No room_id in response object")),
        }
    }

    /// Dereference an alias to a room ID: takes the answer to the lookup,
    /// and keeps the identifier for as long as the channel lives. A channel
    /// that nobody has logged in to takes no answer, and an answer that is
    /// not understood changes nothing.
    pub fn alias2id(&mut self, response: &[u8]) -> (r: Result<String, MatrixError>)
        ensures
            match alias2id_of(old(self)@, response@) {
                Ok(id) => r matches Ok(found) && found@ == id && final(self)@ == old(self)@.with_room(id),
                Err(error) => r matches Err(e) && e@ == error && final(self)@ == old(self)@,
            },
    {
        if self.settings.session.is_none() {
            return Err(MatrixError::NotAuthenticated);
        }
        let found = match parse_value(response) {
            Ok(doc) => Self::read_room_id(&doc),
            Err(_) => Err(String::from_str("Response is not JSON")),
        };
        match found {
            Ok(id) => {
                self.room_id = Some(id.clone());
                Ok(id)
            },
            Err(detail) => Err(MatrixError::ResponseNotUnderstood(detail)),
        }
    }

    /// The request that asks which rooms are joined.
    pub fn joined_rooms_request(&self) -> (r: Result<HttpRequest, MatrixError>)
        ensures
            match r {
                Ok(request) => joined_rooms_request_of(self@) == Ok::<HttpRequestView, MatrixErrorView>(
                    request@,
                ),
                Err(e) => joined_rooms_request_of(self@) == Err::<HttpRequestView, MatrixErrorView>(e@),
            },
    {
        let session = match self.get_session() {
            Ok(session) => session,
            Err(e) => { return Err(e); },
        };
        let base = endpoint_address(self.settings.homeserver.as_str(), "joined_rooms");
        let params = credential_query(session.access_token.as_str());
        match with_params(base.as_str(), &params) {
            Some(url) => Ok(HttpRequest { method: HttpMethod::Get, url, body: None }),
            None => Err(MatrixError::InvalidAddress(self.settings.homeserver.clone())),
        }
    }

    /// Reads the joined rooms out of a parsed answer: each room once, in
    /// the order in which the answer first names them.
    pub fn read_joined_rooms(doc: &serde_json::Value) -> (r: Result<Vec<String>, String>)
        ensures
            texts_view(r) == joined_rooms_of(value_contents(*doc)),
    {
        let items = match value_get(doc, "joined_rooms") {
            Some(v) => match v.as_array() {
                Some(items) => items,
                None => { return Err(String::from_str("joined_rooms is not a list of strings")); },
            },
            None => { return Err(String::from_str("No joined_rooms in response object")); },
        };
        let ghost docs = values_contents(items@);
        let mut rooms: Vec<String> = Vec::new();
        let mut i: usize = 0;
        assert(texts_of(docs.take(0)) =~= Seq::<Seq<char>>::empty());
        assert(text_views(rooms@) =~= Seq::<Seq<char>>::empty());
        while i < items.len()
            invariant
                i <= items.len(),
                docs == values_contents(items@),
                value_contents(*doc).member("joined_rooms"@) == Some(JsonValue::Array(docs)),
                all_strings(docs.take(i as int)),
                text_views(rooms@) == distinct(texts_of(docs.take(i as int))),
            decreases items.len() - i,
        {
            let ghost next = docs.take(i as int + 1);
            proof {
                assert(next.drop_last() =~= docs.take(i as int));
                assert(next.last() == docs[i as int]);
                assert(texts_of(next).drop_last() =~= texts_of(docs.take(i as int)));
            }
            match items[i].as_str() {
                Some(room) => {
                    assert(all_strings(next)) by {
                        assert forall|k: int| 0 <= k < next.len() implies (#[trigger] next[k]) is Str by {
                            if k < i {
                                assert(docs.take(i as int)[k] is Str);
                            }
                        }
                    }
                    assert(texts_of(next).last() == room@);
                    if !holds(&rooms, room) {
                        let ghost before = rooms@;
                        rooms.push(String::from_str(room));
                        assert(text_views(rooms@) =~= text_views(before).push(room@));
                    }
                },
                None => {
                    assert(!all_strings(docs)) by {
                        assert(!(docs[i as int] is Str));
                    }
                    return Err(String::from_str("joined_rooms is not a list of strings"));
                },
            }
            i += 1;
        }
        assert(docs.take(i as int) =~= docs);
        Ok(rooms)
    }

    /// List all joined rooms: takes the answer to the request.
    pub fn joined_rooms(response: &[u8]) -> (r: Result<Vec<String>, MatrixError>)
        ensures
            match of_bytes(response@, |doc: JsonValue| joined_rooms_of(doc)) {
                Ok(rooms) => r matches Ok(list) && text_views(list@) == rooms,
                Err(detail) => r matches Err(e) && e@ == MatrixErrorView::ResponseNotUnderstood(detail),
            },
    {
        let found = match parse_value(response) {
            Ok(doc) => Self::read_joined_rooms(&doc),
            Err(_) => Err(String::from_str("Response is not JSON")),
        };
        match found {
            Ok(rooms) => Ok(rooms),
            Err(detail) => Err(MatrixError::ResponseNotUnderstood(detail)),
        }
    }

    /// Verify that the configured Matrix room is available: that its
    /// identifier is known and among the joined rooms.
    pub fn check_room(&self, joined: &Vec<String>) -> (r: Result<(), MatrixError>)
        ensures
            match r {
                Ok(()) => check_room_of(self@, text_views(joined@)) is Ok,
                Err(e) => check_room_of(self@, text_views(joined@)) == Err::<(), MatrixErrorView>(e@),
            },
    {
        match &self.room_id {
            None => Err(MatrixError::RoomNotResolved(self.settings.room_alias.clone())),
            Some(id) => if holds(joined, id.as_str()) {
                Ok(())
            } else {
                Err(MatrixError::RoomNotJoined(id.clone()))
            },
        }
    }

    /// The body of the request that sends `msg`, as a JSON value.
    pub fn send_body(msg: &Message) -> (v: serde_json::Value)
        ensures
            value_contents(v) == send_document(msg@),
    {
        let mut members = map_new();
        map_insert(&mut members, String::from_str("msgtype"), string_value(String::from_str("m.text")));
        map_insert(&mut members, String::from_str("body"), string_value(msg.encode()));
        object_value(members)
    }

    /// The request that sends `msg` under a transaction identifier.
    pub fn send_request(&self, msg: &Message, transaction_id: &str) -> (r: Result<HttpRequest, MatrixError>)
        ensures
            match r {
                Ok(request) => send_request_of(self@, msg@, transaction_id@) == Ok::<
                    HttpRequestView,
                    MatrixErrorView,
                >(request@),
                Err(e) => send_request_of(self@, msg@, transaction_id@) == Err::<
                    HttpRequestView,
                    MatrixErrorView,
                >(e@),
            },
    {
        let session = match self.get_session() {
            Ok(session) => session,
            Err(e) => { return Err(e); },
        };
        let room_id = match &self.room_id {
            Some(id) => id,
            None => { return Err(MatrixError::RoomNotResolved(self.settings.room_alias.clone())); },
        };
        let rooms = endpoint_address(self.settings.homeserver.as_str(), "rooms");
        let mut room = match with_segment(rooms.as_str(), room_id.as_str()) {
            Some(address) => address,
            None => { return Err(MatrixError::InvalidAddress(self.settings.homeserver.clone())); },
        };
        room.append("/send/m.room.message");
        let event = match with_segment(room.as_str(), transaction_id) {
            Some(address) => address,
            None => { return Err(MatrixError::InvalidAddress(self.settings.homeserver.clone())); },
        };
        let params = credential_query(session.access_token.as_str());
        let url = match with_params(event.as_str(), &params) {
            Some(url) => url,
            None => { return Err(MatrixError::InvalidAddress(self.settings.homeserver.clone())); },
        };
        let body = Self::send_body(msg);
        Ok(HttpRequest { method: HttpMethod::Put, url, body: Some(value_text(&body)) })
    }

    /// What became of a message that was sent, by the status and the
    /// parsed answer, if the answer is JSON.
    pub fn read_send_result(status: u16, answer: Option<&serde_json::Value>) -> (r: Result<
        String,
        MatrixError,
    >)
        ensures
            match r {
                Ok(event_id) => send_result_of_document(status, answer_view(answer)) == Ok::<
                    Seq<char>,
                    MatrixErrorView,
                >(event_id@),
                Err(e) => send_result_of_document(status, answer_view(answer)) == Err::<
                    Seq<char>,
                    MatrixErrorView,
                >(e@),
            },
    {
        if 200 <= status && status < 300 {
            let found = match answer {
                Some(doc) => read_required_text(doc, "event_id"),
                None => Err(String::from_str("Response is not JSON")),
            };
            match found {
                Ok(event_id) => Ok(event_id),
                Err(detail) => Err(MatrixError::Rejected(detail)),
            }
        } else {
            let said = match answer {
                Some(doc) => match value_get(doc, "error") {
                    Some(v) => match v.as_str() {
                        Some(error) => Some(String::from_str(error)),
                        None => None,
                    },
                    None => None,
                },
                None => None,
            };
            match said {
                Some(error) => Err(MatrixError::Rejected(error)),
                None => Err(MatrixError::Rejected(String::from_str("The homeserver gave no reason"))),
            }
        }
    }

    /// Takes the status and the answer to a request that sent a message,
    /// and gives the identifier of the event that the message became.
    pub fn send_msg(status: u16, response: &[u8]) -> (r: Result<String, MatrixError>)
        ensures
            match r {
                Ok(event_id) => send_result_of(status, response@) == Ok::<Seq<char>, MatrixErrorView>(
                    event_id@,
                ),
                Err(e) => send_result_of(status, response@) == Err::<Seq<char>, MatrixErrorView>(e@),
            },
    {
        match parse_value(response) {
            Ok(doc) => Self::read_send_result(status, Some(&doc)),
            Err(_) => Self::read_send_result(status, None),
        }
    }

    /// Starts to listen: gives the stream that synchronises the room, from
    /// the beginning of what the homeserver will hand out.
    pub fn listen(&self) -> (r: Result<MatrixStream, MatrixError>)
        ensures
            match r {
                Ok(stream) => listen_of(self@) == Ok::<MatrixStreamView, MatrixErrorView>(stream@),
                Err(e) => listen_of(self@) == Err::<MatrixStreamView, MatrixErrorView>(e@),
            },
    {
        let session = match self.get_session() {
            Ok(session) => session,
            Err(e) => { return Err(e); },
        };
        let room_id = match &self.room_id {
            Some(id) => id,
            None => { return Err(MatrixError::RoomNotResolved(self.settings.room_alias.clone())); },
        };
        Ok(
            MatrixStream::new(
                self.settings.homeserver.clone(),
                room_id.clone(),
                session.access_token.clone(),
                self.settings.initial_backlog_size,
                None,
            ),
        )
    }
}

} // verus!
