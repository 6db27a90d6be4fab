//! Classification of messages received on the duplex channel.
//!
//! The preferred shape is a structured "update": a JSON object whose
//! `event` field is the string `update` and whose string `data` field
//! carries output for the local terminal.  A structured message of any
//! other event, or one with empty data, produces nothing.  A textual
//! message that is no JSON object of that shape at all is forwarded
//! verbatim (compatibility with servers that send bare output); a binary
//! message is forwarded verbatim; a close message ends the inbound side.

use vstd::prelude::*;

use crate::text::str_eq;

verus! {

/// One message received on the duplex channel, as the transport reports
/// it.  Transport-level chatter the client has no use for (pings and the
/// like) is `Other`.
#[derive(Clone, PartialEq, Eq, Debug)]
pub enum ServerMessage {
    Text(String),
    Binary(Vec<u8>),
    Close,
    Other,
}

/// The fields of a structured message: its event tag and its payload.
#[derive(Clone, PartialEq, Eq, Debug)]
pub struct UpdateFields {
    pub event: String,
    pub data: String,
}

/// What the inbound task does with one received message.
#[derive(Clone, PartialEq, Eq, Debug)]
pub enum InboundAction {
    /// Hand this text to the output queue.
    ForwardText(String),
    /// Hand these bytes to the output queue.
    ForwardBytes(Vec<u8>),
    /// Produce nothing and keep receiving.
    Nothing,
    /// The channel is finished: record the connection as lost and stop.
    Disconnect,
}

/// What the structured parse of a textual payload yields: the event tag and
/// the data field (empty when absent), or nothing when the payload is no
/// JSON object with a string `event` field.  A function of the payload
/// alone.
pub uninterp spec fn parsed_update(payload: Seq<char>) -> Option<(Seq<char>, Seq<char>)>;

/// Relies on `serde_json::from_str` and the accessors of
/// `serde_json::Value`: parses the payload as a JSON object, takes its
/// string field `event` and its optional string field `data` (empty when
/// absent).  The outcome depends on the payload alone.
#[verifier::external_body]
fn parse_update(payload: &str) -> (r: Option<UpdateFields>)
    ensures
        match r {
            Some(u) => parsed_update(payload@) == Some((u.event@, u.data@)),
            None => parsed_update(payload@) is None,
        },
{
    let value: serde_json::Value = serde_json::from_str(payload).ok()?;
    let event = value.get("event")?.as_str()?.to_string();
    let data = match value.get("data") {
        None => String::new(),
        Some(d) => d.as_str()?.to_string(),
    };
    Some(UpdateFields { event, data })
}

/// What the inbound task does with a textual payload, given the outcome of
/// the structured parse: a well-formed update with non-empty data forwards
/// exactly that data, any other well-formed structured message produces
/// nothing, and a payload that is no structured message is forwarded
/// verbatim.
pub fn update_action(parsed: Option<UpdateFields>, payload: &str) -> (r: InboundAction)
    ensures
        match parsed {
            Some(u) => if u.event@ == "update"@ && u.data@.len() > 0 {
                r == InboundAction::ForwardText(u.data)
            } else {
                r == InboundAction::Nothing
            },
            None => (r matches InboundAction::ForwardText(t) && t@ == payload@),
        },
{
    match parsed {
        Some(u) => {
            if str_eq(u.event.as_str(), "update") && !u.data.as_str().is_empty() {
                InboundAction::ForwardText(u.data)
            } else {
                InboundAction::Nothing
            }
        },
        None => InboundAction::ForwardText(String::from_str(payload)),
    }
}

/// Classifies one received duplex-channel message.
pub fn classify_message(msg: ServerMessage) -> (r: InboundAction)
    ensures
        match msg {
            ServerMessage::Text(t) => match parsed_update(t@) {
                Some(fields) => if fields.0 == "update"@ && fields.1.len() > 0 {
                    (r matches InboundAction::ForwardText(o) && o@ == fields.1)
                } else {
                    r == InboundAction::Nothing
                },
                None => (r matches InboundAction::ForwardText(o) && o@ == t@),
            },
            ServerMessage::Binary(b) => (r matches InboundAction::ForwardBytes(o) && o@ == b@),
            ServerMessage::Close => r == InboundAction::Disconnect,
            ServerMessage::Other => r == InboundAction::Nothing,
        },
{
    match msg {
        ServerMessage::Text(t) => {
            let parsed = parse_update(t.as_str());
            update_action(parsed, t.as_str())
        },
        ServerMessage::Binary(b) => InboundAction::ForwardBytes(b),
        ServerMessage::Close => InboundAction::Disconnect,
        ServerMessage::Other => InboundAction::Nothing,
    }
}

} // verus!
