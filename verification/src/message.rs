//! The signed message: what is asked, and a detached signature over the
//! canonical text of what is asked.

use vstd::prelude::*;
use vstd::string::StringExecFns;
use vstd::utf8::{decode_utf8, valid_utf8};
use crate::json::{JsonValue, has_size, json_parse, json_text, map_insert, map_len, map_new, no_members, object_value, parse_value, string_value, value_contents, value_get, value_text};
use crate::text::string_from_utf8;

verus! {

/// What a message says.
#[derive(Debug, PartialEq, Eq)]
pub enum MessageKind {
    /// "Please pin this for me"
    Pin(String),
    /// "I have pinned this"
    Confirm(String),
}

/// A `MessageKind` as a mathematical value.
pub enum MessageKindView {
    Pin(Seq<char>),
    Confirm(Seq<char>),
}

impl View for MessageKind {
    type V = MessageKindView;

    open spec fn view(&self) -> MessageKindView {
        match self {
            MessageKind::Pin(id) => MessageKindView::Pin(id@),
            MessageKind::Confirm(id) => MessageKindView::Confirm(id@),
        }
    }
}

impl MessageKindView {
    /// The content address that the message is about.
    pub open spec fn resource_id(self) -> Seq<char> {
        match self {
            MessageKindView::Pin(id) => id,
            MessageKindView::Confirm(id) => id,
        }
    }

    /// The name under which the variant travels.
    pub open spec fn tag(self) -> Seq<char> {
        match self {
            MessageKindView::Pin(_) => "Pin"@,
            MessageKindView::Confirm(_) => "Confirm"@,
        }
    }

    /// A kind is valid when its content address is not empty.
    pub open spec fn valid(self) -> bool {
        self.resource_id().len() > 0
    }

    /// The JSON document of a kind: an object whose one member has the
    /// variant's name as its key and the content address as its value.
    pub open spec fn document(self) -> JsonValue {
        JsonValue::Object(no_members().insert(self.tag(), JsonValue::Str(self.resource_id())))
    }

    /// The canonical text of a kind, over which signatures are made.
    pub open spec fn canonical_text(self) -> Seq<char> {
        json_text(self.document())
    }
}

impl Clone for MessageKind {
    fn clone(&self) -> (r: Self)
        ensures
            r == *self,
    {
        match self {
            MessageKind::Pin(id) => MessageKind::Pin(id.clone()),
            MessageKind::Confirm(id) => MessageKind::Confirm(id.clone()),
        }
    }
}

impl MessageKind {
    /// The content address that the message is about.
    pub fn resource_id(&self) -> (r: &str)
        ensures
            r@ == self@.resource_id(),
    {
        match self {
            MessageKind::Pin(id) => id.as_str(),
            MessageKind::Confirm(id) => id.as_str(),
        }
    }

    /// Whether the content address is not empty.
    pub fn is_valid(&self) -> (r: bool)
        ensures
            r == self@.valid(),
    {
        !self.resource_id().is_empty()
    }

    /// The kind as a JSON value.
    pub fn to_value(&self) -> (v: serde_json::Value)
        ensures
            value_contents(v) == self@.document(),
    {
        let mut members = map_new();
        match self {
            MessageKind::Pin(id) => {
                map_insert(&mut members, String::from_str("Pin"), string_value(id.clone()));
            },
            MessageKind::Confirm(id) => {
                map_insert(&mut members, String::from_str("Confirm"), string_value(id.clone()));
            },
        }
        object_value(members)
    }

    /// The canonical text of the kind: what a signer signs and a verifier
    /// checks the signature against.
    pub fn canonical(&self) -> (r: String)
        ensures
            r@ == self@.canonical_text(),
    {
        let v = self.to_value();
        value_text(&v)
    }
}

/// Why a message could not be made or read.
#[derive(Clone, Copy, Debug, PartialEq, Eq, Structural)]
pub enum MessageError {
    /// The kind names no content address.
    EmptyResource,
    /// The signer could not produce a signature.
    SigningFailed,
    /// A text is not the wire form of a message.
    MalformedEnvelope,
}

/// The full message: it is made by signing a kind, or read from its wire
/// form, and never changed afterwards.
#[derive(Debug, PartialEq, Eq)]
pub struct Message {
    /// What the message says
    kind: MessageKind,
    /// An ASCII-armored detached signature
    signature: String,
}

/// A `Message` as a mathematical value.
pub struct MessageView {
    pub kind: MessageKindView,
    pub signature: Seq<char>,
}

impl View for Message {
    type V = MessageView;

    closed spec fn view(&self) -> MessageView {
        MessageView { kind: self.kind@, signature: self.signature@ }
    }
}

impl Clone for Message {
    fn clone(&self) -> (r: Self)
        ensures
            r@ == self@,
    {
        Message { kind: self.kind.clone(), signature: self.signature.clone() }
    }
}

/// The kind that a JSON document stands for: an object with exactly one
/// member, whose key names a variant and whose value is a string.
pub open spec fn kind_of_document(doc: JsonValue) -> Option<MessageKindView> {
    match doc {
        JsonValue::Object(members) => if !has_size(members, 1) {
            None
        } else if members.dom().contains("Pin"@) {
            match members["Pin"@] {
                JsonValue::Str(id) => Some(MessageKindView::Pin(id)),
                _ => None,
            }
        } else if members.dom().contains("Confirm"@) {
            match members["Confirm"@] {
                JsonValue::Str(id) => Some(MessageKindView::Confirm(id)),
                _ => None,
            }
        } else {
            None
        },
        _ => None,
    }
}

/// The message that a JSON document stands for: an object with a member
/// `kind` that stands for a kind and a member `signature` that is a string.
pub open spec fn message_of_document(doc: JsonValue) -> Option<MessageView> {
    match (doc.member("kind"@), doc.member("signature"@)) {
        (Some(kind_doc), Some(JsonValue::Str(signature))) => match kind_of_document(kind_doc) {
            Some(kind) => Some(MessageView { kind, signature }),
            None => None,
        },
        _ => None,
    }
}

/// The message that a text stands for, if the text is JSON and its document
/// stands for a message.
pub open spec fn message_of_text(bytes: Seq<u8>) -> Option<MessageView> {
    match json_parse(bytes) {
        Some(doc) => message_of_document(doc),
        None => None,
    }
}

impl MessageView {
    /// The JSON document of a message.
    pub open spec fn document(self) -> JsonValue {
        JsonValue::Object(
            no_members().insert("kind"@, self.kind.document()).insert(
                "signature"@,
                JsonValue::Str(self.signature),
            ),
        )
    }

    /// The wire form of a message.
    pub open spec fn wire_text(self) -> Seq<char> {
        json_text(self.document())
    }
}

/// What signing gives: a message with the kind unchanged and the signer's
/// bytes as its signature, if the kind is valid, the signer gave bytes and
/// they are text.
pub open spec fn signed(kind: MessageKindView, signature: Option<Seq<u8>>) -> Result<MessageView, MessageError> {
    if !kind.valid() {
        Err(MessageError::EmptyResource)
    } else {
        match signature {
            Some(bytes) if valid_utf8(bytes) => Ok(MessageView { kind, signature: decode_utf8(bytes) }),
            _ => Err(MessageError::SigningFailed),
        }
    }
}

impl MessageKind {
    /// Reads a kind from a JSON value.
    pub fn from_value(v: &serde_json::Value) -> (r: Option<MessageKind>)
        ensures
            match r {
                Some(kind) => kind_of_document(value_contents(*v)) == Some(kind@),
                None => kind_of_document(value_contents(*v)) is None,
            },
    {
        let members = match v.as_object() {
            Some(m) => m,
            None => { return None; },
        };
        if map_len(members) != 1 {
            return None;
        }
        match value_get(v, "Pin") {
            Some(id) => match id.as_str() {
                Some(s) => Some(MessageKind::Pin(String::from_str(s))),
                None => None,
            },
            None => match value_get(v, "Confirm") {
                Some(id) => match id.as_str() {
                    Some(s) => Some(MessageKind::Confirm(String::from_str(s))),
                    None => None,
                },
                None => None,
            },
        }
    }
}

impl Message {
    /// Makes the message for `kind` from what the signer returned for
    /// `kind.canonical()`: the bytes of an armored detached signature, or
    /// nothing where it could not sign. A kind without a content address is
    /// refused.
    pub fn from_kind(kind: MessageKind, signature: Option<Vec<u8>>) -> (r: Result<Message, MessageError>)
        ensures
            match r {
                Ok(m) => signed(kind@, view_bytes(signature)) == Ok::<MessageView, MessageError>(m@),
                Err(e) => signed(kind@, view_bytes(signature)) == Err::<MessageView, MessageError>(e),
            },
    {
        if !kind.is_valid() {
            return Err(MessageError::EmptyResource);
        }
        match signature {
            Some(bytes) => match string_from_utf8(bytes) {
                Ok(text) => Ok(Message { kind, signature: text }),
                Err(_) => Err(MessageError::SigningFailed),
            },
            None => Err(MessageError::SigningFailed),
        }
    }

    /// What the message says.
    pub fn kind(&self) -> (r: &MessageKind)
        ensures
            r@ == self@.kind,
    {
        &self.kind
    }

    /// The armored detached signature.
    pub fn signature(&self) -> (r: &str)
        ensures
            r@ == self@.signature,
    {
        self.signature.as_str()
    }

    /// The message as a JSON value.
    pub fn to_value(&self) -> (v: serde_json::Value)
        ensures
            value_contents(v) == self@.document(),
    {
        let mut members = map_new();
        map_insert(&mut members, String::from_str("kind"), self.kind.to_value());
        map_insert(&mut members, String::from_str("signature"), string_value(self.signature.clone()));
        object_value(members)
    }

    /// The wire form of the message.
    pub fn encode(&self) -> (r: String)
        ensures
            r@ == self@.wire_text(),
    {
        let v = self.to_value();
        value_text(&v)
    }

    /// Reads a message from a JSON value. Fails with `MalformedEnvelope`
    /// exactly when the value does not stand for a message.
    pub fn from_value(v: &serde_json::Value) -> (r: Result<Message, MessageError>)
        ensures
            match r {
                Ok(m) => message_of_document(value_contents(*v)) == Some(m@),
                Err(e) => e == MessageError::MalformedEnvelope && message_of_document(
                    value_contents(*v),
                ) is None,
            },
    {
        let kind_value = match value_get(v, "kind") {
            Some(k) => k,
            None => { return Err(MessageError::MalformedEnvelope); },
        };
        let signature = match value_get(v, "signature") {
            Some(s) => match s.as_str() {
                Some(text) => text,
                None => { return Err(MessageError::MalformedEnvelope); },
            },
            None => { return Err(MessageError::MalformedEnvelope); },
        };
        match MessageKind::from_value(kind_value) {
            Some(kind) => Ok(Message { kind, signature: String::from_str(signature) }),
            None => Err(MessageError::MalformedEnvelope),
        }
    }

    /// Reads a message from its wire form. Fails with `MalformedEnvelope`
    /// exactly when the text is not JSON or its document does not stand for
    /// a message.
    pub fn decode(bytes: &[u8]) -> (r: Result<Message, MessageError>)
        ensures
            match r {
                Ok(m) => message_of_text(bytes@) == Some(m@),
                Err(e) => e == MessageError::MalformedEnvelope && message_of_text(bytes@) is None,
            },
    {
        match parse_value(bytes) {
            Ok(v) => Message::from_value(&v),
            Err(_) => Err(MessageError::MalformedEnvelope),
        }
    }
}

/// A kind is read back from its own document.
pub proof fn lemma_kind_document_round_trip(kind: MessageKindView)
    ensures
        kind_of_document(kind.document()) == Some(kind),
{
    reveal_strlit("Pin");
    reveal_strlit("Confirm");
    let members = no_members().insert(kind.tag(), JsonValue::Str(kind.resource_id()));
    assert(members.dom() =~= Set::<Seq<char>>::empty().insert(kind.tag()));
    assert("Pin"@ != "Confirm"@) by {
        assert("Pin"@.len() == 3);
        assert("Confirm"@.len() == 7);
    }
}

/// A message is read back from its own document: what `to_value` builds,
/// `from_value` accepts, and it gives the same message.
pub proof fn lemma_message_document_round_trip(m: MessageView)
    ensures
        message_of_document(m.document()) == Some(m),
{
    reveal_strlit("kind");
    reveal_strlit("signature");
    assert("kind"@ != "signature"@) by {
        assert("kind"@.len() == 4);
        assert("signature"@.len() == 9);
    }
    lemma_kind_document_round_trip(m.kind);
}

/// Signing keeps the kind: a message made from a valid kind and a signature
/// that is text holds that kind and the text of that signature.
pub proof fn lemma_signed_keeps_kind(kind: MessageKindView, signature: Seq<u8>)
    requires
        kind.valid(),
        valid_utf8(signature),
    ensures
        signed(kind, Some(signature)) == Ok::<MessageView, MessageError>(
            MessageView { kind, signature: decode_utf8(signature) },
        ),
{
}

/// The bytes that a signer returned, as a mathematical value.
pub open spec fn view_bytes(signature: Option<Vec<u8>>) -> Option<Seq<u8>> {
    match signature {
        Some(bytes) => Some(bytes@),
        None => None,
    }
}

} // verus!
