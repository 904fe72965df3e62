//! What a running agent does with each message it receives. The agent's
//! message loop, running the model and sending replies happen outside the
//! library; these functions decide the action and its addressing.

use vstd::prelude::*;
use vstd::string::*;
use crate::comms::message::{AgentMessage, MessageType, opt_text};
use crate::support::{JsonView, entries_view, json_bool, json_object, json_string, json_view};

verus! {

/// What an agent does with a received message.
#[derive(Debug)]
pub enum MessageAction {
    /// Run the agent on the message and answer the sender.
    RunAndReply,
    /// Run the agent on the message; no answer.
    Run,
    /// Hand the response to whoever waits on the request it answers.
    Resolve { request_id: String },
    /// Nothing to do: a response that answers no request.
    Ignore,
}

/// Decides what to do with a message: requests are run and answered,
/// one-way messages and broadcasts are run, and responses resolve the
/// request they name.
pub fn action_for(message: &AgentMessage) -> (a: MessageAction)
    ensures
        message.msg_type == MessageType::Request ==> a is RunAndReply,
        (message.msg_type == MessageType::Send || message.msg_type == MessageType::Broadcast) ==> a is Run,
        message.msg_type == MessageType::Response ==> (match message.request_id {
            Some(r) => a matches MessageAction::Resolve { request_id } && request_id@ == r@,
            None => a is Ignore,
        }),
{
    match message.msg_type {
        MessageType::Request => MessageAction::RunAndReply,
        MessageType::Send => MessageAction::Run,
        MessageType::Broadcast => MessageAction::Run,
        MessageType::Response => match &message.request_id {
            Some(r) => MessageAction::Resolve { request_id: r.clone() },
            None => MessageAction::Ignore,
        },
    }
}

/// The addressing of an answer: sender, recipient and the request answered.
#[derive(Debug)]
pub struct ReplyRoute {
    pub from: String,
    pub to: String,
    pub request_id: String,
}

/// The addressing of the answer to a request: from the request's recipient
/// (or, where it names none, its sender), to its sender, answering its id.
pub fn reply_route(message: &AgentMessage) -> (r: ReplyRoute)
    ensures
        r.from@ == (match message.to { Some(t) => t@, None => message.from@ }),
        r.to@ == message.from@,
        r.request_id@ == message.id@,
{
    let from = match &message.to {
        Some(t) => t.clone(),
        None => message.from.clone(),
    };
    ReplyRoute { from, to: message.from.clone(), request_id: message.id.clone() }
}

/// The addressing of the error answer to a request that failed: from the
/// request's recipient (or `unknown`), to its sender, answering its id.
pub fn error_route(message: &AgentMessage) -> (r: ReplyRoute)
    ensures
        r.from@ == (match message.to { Some(t) => t@, None => "unknown"@ }),
        r.to@ == message.from@,
        r.request_id@ == message.id@,
{
    let from = match &message.to {
        Some(t) => t.clone(),
        None => String::from_str("unknown"),
    };
    ReplyRoute { from, to: message.from.clone(), request_id: message.id.clone() }
}

/// Whether a failure to process a message is answered: only a request's.
pub fn answers_failure(message: &AgentMessage) -> (b: bool)
    ensures
        b == (message.msg_type == MessageType::Request),
{
    message.msg_type == MessageType::Request
}

/// The content of the answer to a request: `{"response": text}`.
pub fn reply_content(text: &str) -> (c: serde_json::Value)
    ensures
        json_view(c) == JsonView::Object(Map::empty().insert("response"@, JsonView::Str(text@))),
{
    let mut entries: Vec<(String, serde_json::Value)> = Vec::new();
    entries.push((String::from_str("response"), json_string(text)));
    proof {
        reveal_strlit("response");
        assert(entries@.drop_last() =~= Seq::<(String, serde_json::Value)>::empty());
        assert(entries_view(entries@.drop_last()) == Map::<Seq<char>, JsonView>::empty());
    }
    json_object(entries)
}

/// The content of the answer to a request that failed:
/// `{"error": error, "success": false}`.
pub fn error_content(error: &str) -> (c: serde_json::Value)
    ensures
        json_view(c) == JsonView::Object(Map::empty()
            .insert("error"@, JsonView::Str(error@))
            .insert("success"@, JsonView::Bool(false))),
{
    let mut entries: Vec<(String, serde_json::Value)> = Vec::new();
    let error_value = json_string(error);
    let success_value = json_bool(false);
    entries.push((String::from_str("error"), error_value));
    entries.push((String::from_str("success"), success_value));
    proof {
        reveal_strlit("error");
        reveal_strlit("success");
        let e = entries@;
        assert(e.drop_last().drop_last() =~= Seq::<(String, serde_json::Value)>::empty());
        assert(entries_view(e.drop_last().drop_last()) == Map::<Seq<char>, JsonView>::empty());
        assert(e.drop_last().last() == e[0]);
        assert(entries_view(e.drop_last()) == Map::<Seq<char>, JsonView>::empty().insert("error"@, JsonView::Str(error@)));
        assert(entries_view(e) == entries_view(e.drop_last()).insert("success"@, json_view(success_value)));
    }
    json_object(entries)
}

} // verus!
