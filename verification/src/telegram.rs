//! Outbound message channel: text escaping, request shape and reply handling.

use vstd::prelude::*;
use vstd::string::StringExecFns;
use crate::text::push_char;

verus! {

/// Whether an HTTP status code reports success: 200 to 299.
pub open spec fn status_ok(status: u16) -> bool {
    200 <= status < 300
}

/// Whether an HTTP status code reports success.
pub fn is_success(status: u16) -> (r: bool)
    ensures
        r == status_ok(status),
{
    200 <= status && status < 300
}

/// The characters that the message markup reserves and that therefore must be
/// preceded by a backslash in literal text.
pub open spec fn is_reserved(c: char) -> bool {
    c == '_' || c == '*' || c == '[' || c == ']' || c == '(' || c == ')' || c == '~' || c == '`'
        || c == '>' || c == '#' || c == '+' || c == '-' || c == '=' || c == '|' || c == '{'
        || c == '}' || c == '.' || c == '!'
}

/// What one character becomes in escaped text.
pub open spec fn escaped_char(c: char) -> Seq<char> {
    if is_reserved(c) {
        seq!['\\', c]
    } else {
        seq![c]
    }
}

/// The escaped form of a text: every reserved character preceded by a
/// backslash, every other character unchanged, order kept.
pub open spec fn escaped(s: Seq<char>) -> Seq<char>
    decreases s.len(),
{
    if s.len() == 0 {
        Seq::<char>::empty()
    } else {
        escaped(s.drop_last()) + escaped_char(s.last())
    }
}

fn reserved(c: char) -> (r: bool)
    ensures
        r == is_reserved(c),
{
    c == '_' || c == '*' || c == '[' || c == ']' || c == '(' || c == ')' || c == '~' || c == '`'
        || c == '>' || c == '#' || c == '+' || c == '-' || c == '=' || c == '|' || c == '{'
        || c == '}' || c == '.' || c == '!'
}

/// Escapes `s` for use as literal text in a message.
pub fn escape_markdown(s: &str) -> (r: String)
    ensures
        r@ == escaped(s@),
{
    let mut out = String::new();
    for c in iter: s.chars()
        invariant
            iter.seq() == s@,
            out@ == escaped(s@.take(iter.index())),
    {
        assert(s@.take(iter.index() + 1).drop_last() == s@.take(iter.index()));
        if reserved(c) {
            push_char(&mut out, '\\');
        }
        push_char(&mut out, c);
    }
    assert(s@.take(s@.len() as int) == s@);
    out
}

/// The body of a request to the messaging service.
#[derive(Debug, PartialEq, Eq)]
pub struct SendMessagePayload {
    pub chat_id: String,
    pub text: String,
    pub parse_mode: String,
}

/// A request to the messaging service: where to post, and what.
#[derive(Debug, PartialEq, Eq)]
pub struct Request {
    pub url: String,
    pub payload: SendMessagePayload,
}

impl Clone for SendMessagePayload {
    fn clone(&self) -> (r: SendMessagePayload)
        ensures
            r == *self,
    {
        SendMessagePayload {
            chat_id: self.chat_id.clone(),
            text: self.text.clone(),
            parse_mode: self.parse_mode.clone(),
        }
    }
}

impl Clone for Request {
    fn clone(&self) -> (r: Request)
        ensures
            r == *self,
    {
        Request { url: self.url.clone(), payload: self.payload.clone() }
    }
}

/// What posting a request came back with.
#[derive(Debug, Clone, Copy, PartialEq, Eq, Structural)]
pub enum Reply {
    /// The request did not complete.
    Failed,
    /// The service answered with this status.
    Status(u16),
}

/// Why a message was not delivered.
#[derive(Debug, Clone, Copy, PartialEq, Eq, Structural)]
pub enum DeliveryError {
    /// The request did not complete.
    Transport,
    /// The service answered with a status other than success.
    Status(u16),
}

/// The address at which the bot with the key `api_key` posts messages.
pub open spec fn endpoint(api_key: Seq<char>) -> Seq<char> {
    "https://api.telegram.org/bot"@ + api_key + "/sendMessage"@
}

/// Whether `request` asks the bot with the key `api_key` to post `message` to
/// the chat `chat_id`, to be read as markup.
pub open spec fn is_request_for(
    request: Request,
    api_key: Seq<char>,
    chat_id: Seq<char>,
    message: Seq<char>,
) -> bool {
    &&& request.url@ == endpoint(api_key)
    &&& request.payload.chat_id@ == chat_id
    &&& request.payload.text@ == message
    &&& request.payload.parse_mode@ == "MarkdownV2"@
}

/// How a delivery ended: delivered exactly if the service answered with a
/// status of success.
pub open spec fn delivery_outcome(reply: Reply) -> Result<(), DeliveryError> {
    match reply {
        Reply::Failed => Err(DeliveryError::Transport),
        Reply::Status(status) => if status_ok(status) {
            Ok(())
        } else {
            Err(DeliveryError::Status(status))
        },
    }
}

/// How a delivery ended, given what posting the request came back with.
pub fn delivery_result(reply: Reply) -> (r: Result<(), DeliveryError>)
    ensures
        r == delivery_outcome(reply),
{
    match reply {
        Reply::Failed => Err(DeliveryError::Transport),
        Reply::Status(status) => if is_success(status) {
            Ok(())
        } else {
            Err(DeliveryError::Status(status))
        },
    }
}

/// The sending side of one chat.
#[derive(Debug)]
pub struct Sender {
    api_key: String,
    chat_id: String,
}

impl Clone for Sender {
    fn clone(&self) -> (r: Sender)
        ensures
            r == *self,
    {
        Sender { api_key: self.api_key.clone(), chat_id: self.chat_id.clone() }
    }
}

impl Sender {
    /// The key of the bot.
    pub closed spec fn key(&self) -> Seq<char> {
        self.api_key@
    }

    /// The chat that messages go to.
    pub closed spec fn chat(&self) -> Seq<char> {
        self.chat_id@
    }

    pub fn new(api_key: String, chat_id: String) -> (r: Sender)
        ensures
            r.key() == api_key@,
            r.chat() == chat_id@,
    {
        Sender { api_key, chat_id }
    }

    /// The request that delivers `message`.
    pub fn request(&self, message: &str) -> (r: Request)
        ensures
            is_request_for(r, self.key(), self.chat(), message@),
    {
        let mut url = String::from_str("https://api.telegram.org/bot");
        url.append(self.api_key.as_str());
        url.append("/sendMessage");
        Request {
            url,
            payload: SendMessagePayload {
                chat_id: self.chat_id.clone(),
                text: String::from_str(message),
                parse_mode: String::from_str("MarkdownV2"),
            },
        }
    }
}

} // verus!
