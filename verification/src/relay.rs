//! What the notification relay answers to the text messages of its clients.
//!
//! The relay itself, its sockets and its directory of card holders live with
//! the caller. Here stands only the rule that maps a request to its answer.

use vstd::prelude::*;
use vstd::string::StringExecFns;

verus! {

/// What a client asked for.
#[derive(Clone, Copy, Debug, PartialEq, Eq, Structural)]
pub enum Request {
    /// The text `hello`.
    Hello,
    /// The text `pressed_a_button`.
    ButtonPressed,
    /// The text `get_all_people`: the people who are in the shop.
    AllPeople,
    /// Any other text.
    Unknown,
}

/// The request that a text stands for. Texts are compared whole and with
/// regard to case.
pub open spec fn request_of(text: Seq<char>) -> Request {
    if text == "hello"@ {
        Request::Hello
    } else if text == "pressed_a_button"@ {
        Request::ButtonPressed
    } else if text == "get_all_people"@ {
        Request::AllPeople
    } else {
        Request::Unknown
    }
}

/// The type tag of the answer to a request.
pub open spec fn answer_type(request: Request) -> Seq<char> {
    match request {
        Request::Hello => "message"@,
        Request::ButtonPressed => "message"@,
        Request::AllPeople => "in_shop_add"@,
        Request::Unknown => "null"@,
    }
}

/// The body of the answer to a request. The answer to `AllPeople` is the
/// list of people, which the caller looked up and handed in as text.
pub open spec fn answer_body(request: Request, people: Seq<char>) -> Seq<char> {
    match request {
        Request::Hello => "hello world!"@,
        Request::ButtonPressed => "you sure did, champ"@,
        Request::AllPeople => people,
        Request::Unknown => ""@,
    }
}

/// A message from the relay to its clients.
#[derive(Clone, Debug, PartialEq, Eq)]
pub struct OutgoingMessage {
    /// Type tag by which clients tell messages apart.
    pub msgtype: String,
    /// Body of the message.
    pub message: String,
}

/// Reads a client's text message.
pub fn parse_request(text: &str) -> (request: Request)
    ensures
        request == request_of(text@),
{
    let given = String::from_str(text);
    if given == String::from_str("hello") {
        Request::Hello
    } else if given == String::from_str("pressed_a_button") {
        Request::ButtonPressed
    } else if given == String::from_str("get_all_people") {
        Request::AllPeople
    } else {
        Request::Unknown
    }
}

/// Composes the answer to a request. `people` is the list of the people in
/// the shop as text; it is used for `AllPeople` only.
pub fn answer(request: Request, people: &str) -> (reply: OutgoingMessage)
    ensures
        reply.msgtype@ == answer_type(request),
        reply.message@ == answer_body(request, people@),
{
    match request {
        Request::Hello => OutgoingMessage {
            msgtype: String::from_str("message"),
            message: String::from_str("hello world!"),
        },
        Request::ButtonPressed => OutgoingMessage {
            msgtype: String::from_str("message"),
            message: String::from_str("you sure did, champ"),
        },
        Request::AllPeople => OutgoingMessage {
            msgtype: String::from_str("in_shop_add"),
            message: String::from_str(people),
        },
        Request::Unknown => OutgoingMessage {
            msgtype: String::from_str("null"),
            message: String::from_str(""),
        },
    }
}

} // verus!
