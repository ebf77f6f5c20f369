//! What can go wrong on a Matrix channel.

use vstd::prelude::*;
use vstd::string::StringExecFns;
use crate::text::join2;
use crate::text::join3;

verus! {

#[derive(Debug, PartialEq, Eq)]
pub enum MatrixError {
    /// There is no session: nobody has logged in.
    NotAuthenticated,
    /// An answer of the homeserver does not have the shape it must have.
    ResponseNotUnderstood(String),
    /// The room is not among the joined rooms.
    RoomNotJoined(String),
    /// The room's alias has not been looked up yet.
    RoomNotResolved(String),
    /// The homeserver did not accept a message; holds what it said.
    Rejected(String),
    /// No address can be made for this homeserver.
    InvalidAddress(String),
}

/// A `MatrixError` as a mathematical value.
pub enum MatrixErrorView {
    NotAuthenticated,
    ResponseNotUnderstood(Seq<char>),
    RoomNotJoined(Seq<char>),
    RoomNotResolved(Seq<char>),
    Rejected(Seq<char>),
    InvalidAddress(Seq<char>),
}

impl View for MatrixError {
    type V = MatrixErrorView;

    open spec fn view(&self) -> MatrixErrorView {
        match self {
            MatrixError::NotAuthenticated => MatrixErrorView::NotAuthenticated,
            MatrixError::ResponseNotUnderstood(detail) => MatrixErrorView::ResponseNotUnderstood(detail@),
            MatrixError::RoomNotJoined(room) => MatrixErrorView::RoomNotJoined(room@),
            MatrixError::RoomNotResolved(alias) => MatrixErrorView::RoomNotResolved(alias@),
            MatrixError::Rejected(detail) => MatrixErrorView::Rejected(detail@),
            MatrixError::InvalidAddress(homeserver) => MatrixErrorView::InvalidAddress(homeserver@),
        }
    }
}

impl MatrixErrorView {
    /// The error in words.
    pub open spec fn message(self) -> Seq<char> {
        match self {
            MatrixErrorView::NotAuthenticated => "You need an active auth token to use a Matrix channel"@,
            MatrixErrorView::ResponseNotUnderstood(detail) => "Matrix' response could not be parsed: "@ + detail,
            MatrixErrorView::RoomNotJoined(room) => "Room "@ + room + " is not joined"@,
            MatrixErrorView::RoomNotResolved(alias) => "Room "@ + alias + " has not been looked up"@,
            MatrixErrorView::Rejected(detail) => "Matrix did not accept the message: "@ + detail,
            MatrixErrorView::InvalidAddress(homeserver) => "No address can be made for homeserver "@ + homeserver,
        }
    }
}

impl MatrixError {
    /// The error in words.
    pub fn message(&self) -> (r: String)
        ensures
            r@ == self@.message(),
    {
        match self {
            MatrixError::NotAuthenticated => String::from_str("You need an active auth token to use a Matrix channel"),
            MatrixError::ResponseNotUnderstood(detail) => join2("Matrix' response could not be parsed: ", detail.as_str()),
            MatrixError::RoomNotJoined(room) => join3("Room ", room.as_str(), " is not joined"),
            MatrixError::RoomNotResolved(alias) => join3("Room ", alias.as_str(), " has not been looked up"),
            MatrixError::Rejected(detail) => join2("Matrix did not accept the message: ", detail.as_str()),
            MatrixError::InvalidAddress(homeserver) => join2("No address can be made for homeserver ", homeserver.as_str()),
        }
    }
}

} // verus!
