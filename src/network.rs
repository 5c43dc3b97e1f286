//! The network loop's reactions: network events become UI updates, and
//! messages from the render loop become broadcasts.
use vstd::prelude::*;
use vstd::slice::slice_to_vec;
use vstd::utf8::{encode_utf8, valid_utf8};
use crate::updates::UiUpdate;

verus! {

/// A network event, with what the reactions read from it as plain values.
#[derive(Clone, Debug)]
pub enum NetworkEvent {
    /// The node listens on a new address, given as text.
    NewListenAddr { address: String },
    /// A broadcast message arrived on a topic, from a peer if it is signed.
    Message { topic: String, source: Option<String>, data: Vec<u8> },
    /// A connection to a peer was established; `detail` describes it.
    ConnectionEstablished { peer: String, detail: String },
    /// Any other event, described as text.
    Other { detail: String },
}

/// What the network loop does about an event.
#[derive(Clone, Debug)]
pub struct NetworkReaction {
    /// The update to publish to the render loop.
    pub update: UiUpdate,
    /// A peer to add as an explicit broadcast peer.
    pub add_explicit_peer: Option<String>,
}

/// What the network loop does with what the outbound channel gave.
#[derive(Clone, Debug)]
pub enum OutboundAction {
    /// Broadcast these bytes on the chat topic.
    Publish(Vec<u8>),
    /// The render loop closed the channel: shut down.
    Shutdown,
}

/// How a peer is named in a message line.
pub open spec fn peer_text(source: Option<String>) -> Seq<char> {
    match source {
        Some(p) => p@,
        None => "anonymous"@,
    }
}

/// The text of a line of program output.
pub open spec fn is_output(u: UiUpdate, text: Seq<char>) -> bool {
    u matches UiUpdate::TerminalOutput(t) && t@ == text
}

/// The reaction that an event calls for.
pub open spec fn reacts_to(event: NetworkEvent, r: NetworkReaction) -> bool {
    match event {
        NetworkEvent::NewListenAddr { address } => {
            &&& is_output(r.update, "Listening on "@ + address@)
            &&& r.add_explicit_peer is None
        },
        NetworkEvent::Message { topic, source, data } => {
            &&& r.add_explicit_peer is None
            &&& if valid_utf8(data@) {
                r.update matches UiUpdate::TextMessage { topic: t, origin_peer, body } && {
                    &&& t@ == topic@
                    &&& origin_peer@ == peer_text(source)
                    &&& encode_utf8(body@) == data@
                }
            } else {
                is_output(
                    r.update,
                    "Message on "@ + topic@ + " from "@ + peer_text(source) + " is not UTF-8 text"@,
                )
            }
        },
        NetworkEvent::ConnectionEstablished { peer, detail } => {
            &&& is_output(r.update, "Connected!: '"@ + detail@ + "'"@)
            &&& r.add_explicit_peer matches Some(p) && p@ == peer@
        },
        NetworkEvent::Other { detail } => {
            &&& is_output(r.update, "EVENT: "@ + detail@)
            &&& r.add_explicit_peer is None
        },
    }
}

/// The action for what the outbound channel gave: `None` means it is
/// closed and drained.
pub open spec fn outbound_action_for(received: Option<String>, a: OutboundAction) -> bool {
    match received {
        Some(m) => a matches OutboundAction::Publish(b) && b@ == encode_utf8(m@),
        None => a is Shutdown,
    }
}

/// Relies on `String::from_utf8`: it succeeds exactly on valid UTF-8, and
/// the string it returns holds the given bytes.
#[verifier::external_body]
fn decode_utf8_text(data: Vec<u8>) -> (r: Option<String>)
    ensures
        r is Some <==> valid_utf8(data@),
        r matches Some(s) ==> encode_utf8(s@) == data@,
{
    String::from_utf8(data).ok()
}

/// The UTF-8 encoding of a text.
fn text_bytes(s: &str) -> (r: Vec<u8>)
    ensures
        r@ == encode_utf8(s@),
{
    let b = s.as_bytes();
    slice_to_vec(b)
}

fn output(text: String) -> (r: UiUpdate)
    ensures
        is_output(r, text@),
{
    UiUpdate::TerminalOutput(text)
}

/// Maps a network event to the update it shows and, for a new connection,
/// the peer to add as an explicit broadcast peer. No event is dropped: one
/// that has no view of its own is reported on the output view.
pub fn network_event_to_update(event: NetworkEvent) -> (r: NetworkReaction)
    ensures
        reacts_to(event, r),
{
    match event {
        NetworkEvent::NewListenAddr { address } => {
            let text = String::from_str("Listening on ").concat(address.as_str());
            NetworkReaction { update: output(text), add_explicit_peer: None }
        },
        NetworkEvent::Message { topic, source, data } => {
            let peer = match &source {
                Some(p) => p.clone(),
                None => String::from_str("anonymous"),
            };
            match decode_utf8_text(data) {
                Some(body) => NetworkReaction {
                    update: UiUpdate::TextMessage { topic, origin_peer: peer, body },
                    add_explicit_peer: None,
                },
                None => {
                    let mut text = String::from_str("Message on ");
                    text.append(topic.as_str());
                    text.append(" from ");
                    text.append(peer.as_str());
                    text.append(" is not UTF-8 text");
                    assert(text@ =~= "Message on "@ + topic@ + " from "@ + peer_text(source)
                        + " is not UTF-8 text"@);
                    NetworkReaction { update: output(text), add_explicit_peer: None }
                },
            }
        },
        NetworkEvent::ConnectionEstablished { peer, detail } => {
            let text = String::from_str("Connected!: '").concat(detail.as_str()).concat("'");
            NetworkReaction { update: output(text), add_explicit_peer: Some(peer) }
        },
        NetworkEvent::Other { detail } => {
            let text = String::from_str("EVENT: ").concat(detail.as_str());
            NetworkReaction { update: output(text), add_explicit_peer: None }
        },
    }
}

/// Reacts to what the outbound channel gave: a message is broadcast as its
/// UTF-8 bytes; `None`, a closed and drained channel, shuts the loop down.
pub fn on_outbound(received: Option<String>) -> (r: OutboundAction)
    ensures
        outbound_action_for(received, r),
{
    match received {
        Some(m) => OutboundAction::Publish(text_bytes(m.as_str())),
        None => OutboundAction::Shutdown,
    }
}

/// The update that reports a rejected broadcast; `detail` describes the
/// error.
pub fn publish_failure_update(detail: &str) -> (r: UiUpdate)
    ensures
        is_output(r, "Publish error: "@ + detail@),
{
    output(String::from_str("Publish error: ").concat(detail))
}

/// What the outbound channel gives once the render loop has sent `ms` and
/// closed it: each message in the order sent, then the end of the channel.
pub open spec fn closed_stream(ms: Seq<String>) -> Seq<Option<String>> {
    ms.map_values(|m: String| Some(m)).push(None)
}

/// Closing the outbound channel loses no message sent before: the network
/// loop broadcasts each of them, in the order sent, and shuts down only on
/// the end of the channel, after the last of them.
pub proof fn lemma_close_after_drain(ms: Seq<String>, actions: Seq<OutboundAction>)
    requires
        actions.len() == closed_stream(ms).len(),
        forall|i: int| 0 <= i < actions.len() ==> outbound_action_for(closed_stream(ms)[i], #[trigger] actions[i]),
    ensures
        forall|i: int| 0 <= i < ms.len() ==> (#[trigger] actions[i] matches OutboundAction::Publish(b) && b@ == encode_utf8(ms[i]@)),
        actions[ms.len() as int] is Shutdown,
        actions.len() == ms.len() + 1,
{
    assert forall|i: int| 0 <= i < ms.len() implies (#[trigger] actions[i] matches OutboundAction::Publish(b) && b@ == encode_utf8(ms[i]@)) by {
        assert(closed_stream(ms)[i] == Some(ms[i]));
        assert(outbound_action_for(closed_stream(ms)[i], actions[i]));
    }
    assert(closed_stream(ms)[ms.len() as int] is None);
    assert(outbound_action_for(closed_stream(ms)[ms.len() as int], actions[ms.len() as int]));
}

} // verus!
