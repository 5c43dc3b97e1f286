//! Updates that the network loop publishes, and their compilation into view
//! mutations on the render thread.
use vstd::prelude::*;
use crate::text::{decimal_text, push_decimal, text_equals};
use crate::views::{
    apply_mutation, resolve, resolve_view_spec, view_name, view_named, MutationKind, MutationSpec, PendingMutation, ViewId, ViewSpec, ViewTexts,
};

verus! {

/// The chat topic when none is configured.
pub const DEFAULT_CHAT_TOPIC: &'static str = "monolith";

/// A change that the network loop wants shown in the terminal.
#[derive(Clone, Debug)]
pub enum UiUpdate {
    /// A message received on a topic, from a peer.
    TextMessage { topic: String, origin_peer: String, body: String },
    /// Arbitrary program output, for the output view.
    TerminalOutput(String),
    /// Text to add at the end of a view.
    AppendToView(ViewSpec, String),
    /// Text to put in place of a view's content.
    ReplaceViewContent(ViewSpec, String),
}

/// A chat line: the origin peer, then the body on a line of its own.
pub open spec fn chat_line(peer: Seq<char>, body: Seq<char>) -> Seq<char> {
    "ⅈ"@ + peer + "ⅈSENT\r    "@ + body + "\r"@
}

/// The diagnostic for a message on a topic that has no view.
pub open spec fn unimplemented_topic_line(topic: Seq<char>, peer: Seq<char>, body: Seq<char>) -> Seq<char> {
    "Update Unimplemented: ❝TextMessage on "@ + topic + " from "@ + peer + ": "@ + body + "❞\r"@
}

/// How a `ViewSpec` is shown in a diagnostic.
pub open spec fn describe_view_spec(spec: ViewSpec) -> Seq<char> {
    match spec {
        ViewSpec::ViewName(n) => n@,
        ViewSpec::ViewIdS(n) => n@,
        ViewSpec::ViewIdI(i) => "#"@ + decimal_text(i as int),
    }
}

/// The diagnostic for an update addressed to a view that does not exist.
pub open spec fn unknown_view_line(spec: ViewSpec) -> Seq<char> {
    "Unknown view target ❝"@ + describe_view_spec(spec) + "❞: update dropped\r"@
}

/// A line of program output.
pub open spec fn output_line(body: Seq<char>) -> Seq<char> {
    body + "\r"@
}

/// An append of `text` to the output view.
pub open spec fn to_output(text: Seq<char>) -> MutationSpec {
    MutationSpec { target: ViewId::Output, kind: MutationKind::Append, text }
}

/// The mutation on `spec`'s view, or the diagnostic when it names none.
pub open spec fn targeted(spec: ViewSpec, kind: MutationKind, body: Seq<char>) -> MutationSpec {
    match resolve(spec) {
        Some(v) => MutationSpec { target: v, kind, text: body },
        None => to_output(unknown_view_line(spec)),
    }
}

/// The mutation that an update compiles to, given the chat topic.
pub open spec fn compiled(u: UiUpdate, chat_topic: Seq<char>) -> MutationSpec {
    match u {
        UiUpdate::TextMessage { topic, origin_peer, body } => {
            if topic@ == chat_topic {
                MutationSpec {
                    target: ViewId::Chat,
                    kind: MutationKind::Append,
                    text: chat_line(origin_peer@, body@),
                }
            } else {
                to_output(unimplemented_topic_line(topic@, origin_peer@, body@))
            }
        },
        UiUpdate::TerminalOutput(body) => to_output(output_line(body@)),
        UiUpdate::AppendToView(spec, body) => targeted(spec, MutationKind::Append, body@),
        UiUpdate::ReplaceViewContent(spec, body) => targeted(spec, MutationKind::Replace, body@),
    }
}

fn append_to_output(text: String) -> (r: PendingMutation)
    ensures
        r@ == to_output(text@),
{
    PendingMutation { target: ViewId::Output, kind: MutationKind::Append, text }
}

fn describe_into(out: &mut String, spec: &ViewSpec)
    ensures
        final(out)@ == old(out)@ + describe_view_spec(*spec),
{
    match spec {
        ViewSpec::ViewName(n) => out.append(n.as_str()),
        ViewSpec::ViewIdS(n) => out.append(n.as_str()),
        ViewSpec::ViewIdI(i) => {
            out.append("#");
            push_decimal(out, *i);
            assert(out@ =~= old(out)@ + describe_view_spec(*spec));
        },
    }
}

fn unknown_view_mutation(spec: &ViewSpec) -> (r: PendingMutation)
    ensures
        r@ == to_output(unknown_view_line(*spec)),
{
    let mut text = String::from_str("Unknown view target ❝");
    describe_into(&mut text, spec);
    text.append("❞: update dropped\r");
    assert(text@ =~= unknown_view_line(*spec));
    append_to_output(text)
}

fn targeted_mutation(spec: ViewSpec, kind: MutationKind, body: String) -> (r: PendingMutation)
    ensures
        r@ == targeted(spec, kind, body@),
{
    match resolve_view_spec(&spec) {
        Some(v) => PendingMutation { target: v, kind, text: body },
        None => unknown_view_mutation(&spec),
    }
}

/// Compiles an update into the one mutation it stands for. A message on
/// `chat_topic` goes to the chat view, annotated with its origin peer; a
/// message on another topic, and program output, go to the output view; an
/// update addressed to a view that does not exist becomes a diagnostic on
/// the output view. No update is dropped without a trace.
pub fn compile_update(update: UiUpdate, chat_topic: &str) -> (r: PendingMutation)
    ensures
        r@ == compiled(update, chat_topic@),
{
    match update {
        UiUpdate::TextMessage { topic, origin_peer, body } => {
            if text_equals(topic.as_str(), chat_topic) {
                let mut text = String::from_str("ⅈ");
                text.append(origin_peer.as_str());
                text.append("ⅈSENT\r    ");
                text.append(body.as_str());
                text.append("\r");
                assert(text@ =~= chat_line(origin_peer@, body@));
                PendingMutation { target: ViewId::Chat, kind: MutationKind::Append, text }
            } else {
                let mut text = String::from_str("Update Unimplemented: ❝TextMessage on ");
                text.append(topic.as_str());
                text.append(" from ");
                text.append(origin_peer.as_str());
                text.append(": ");
                text.append(body.as_str());
                text.append("❞\r");
                assert(text@ =~= unimplemented_topic_line(topic@, origin_peer@, body@));
                append_to_output(text)
            }
        },
        UiUpdate::TerminalOutput(body) => {
            let text = body.concat("\r");
            append_to_output(text)
        },
        UiUpdate::AppendToView(spec, body) => targeted_mutation(spec, MutationKind::Append, body),
        UiUpdate::ReplaceViewContent(spec, body) => targeted_mutation(
            spec,
            MutationKind::Replace,
            body,
        ),
    }
}

/// Compiles an update for the default chat topic.
pub fn ui_update_to_cursive_callback(ui_update: UiUpdate) -> (r: PendingMutation)
    ensures
        r@ == compiled(ui_update, DEFAULT_CHAT_TOPIC@),
{
    compile_update(ui_update, DEFAULT_CHAT_TOPIC)
}

/// The local echo of a message that the user submitted: whatever the chat
/// topic, it is appended to the chat view as one line.
pub fn user_message_update(message: &str) -> (r: UiUpdate)
    ensures
        forall|chat_topic: Seq<char>| #[trigger] compiled(r, chat_topic) == (MutationSpec {
            target: ViewId::Chat,
            kind: MutationKind::Append,
            text: output_line(message@),
        }),
{
    let text = String::from_str(message).concat("\r");
    let name = String::from_str(ViewId::Chat.name());
    let r = UiUpdate::AppendToView(ViewSpec::ViewName(name), text);
    proof {
        reveal_strlit("monolith_chat_view");
        reveal_strlit("output_view");
        reveal_strlit("instance_info");
        assert(view_named(view_name(ViewId::Chat)) == Some(ViewId::Chat));
    }
    r
}

/// The report that a message could not be handed to the network loop,
/// which has stopped.
pub fn send_failure_update(message: &str) -> (r: UiUpdate)
    ensures
        r matches UiUpdate::TerminalOutput(t) && t@ == "Not sent, the network loop has stopped: "@ + message@,
{
    UiUpdate::TerminalOutput(String::from_str("Not sent, the network loop has stopped: ").concat(message))
}

/// A message on the chat topic appends its body, annotated with its origin
/// peer, to the chat view; a message on any other topic appends to the
/// output view a line that reports it as unimplemented.
pub proof fn lemma_text_message_routing(topic: String, origin_peer: String, body: String, chat_topic: Seq<char>)
    ensures
        ({
            let m = compiled(UiUpdate::TextMessage { topic, origin_peer, body }, chat_topic);
            if topic@ == chat_topic {
                &&& m.target == ViewId::Chat
                &&& m.kind == MutationKind::Append
                &&& m.text == chat_line(origin_peer@, body@)
            } else {
                &&& m.target == ViewId::Output
                &&& m.kind == MutationKind::Append
                &&& m.text.subrange(7, 20) == "Unimplemented"@
            }
        }),
{
    reveal_strlit("Update Unimplemented: ❝TextMessage on ");
    reveal_strlit("Unimplemented");
    let m = compiled(UiUpdate::TextMessage { topic, origin_peer, body }, chat_topic);
    if topic@ != chat_topic {
        assert(m.text.subrange(7, 20) =~= "Unimplemented"@);
    }
}

/// An update addressed to a view that does not exist becomes exactly one
/// mutation: a diagnostic appended to the output view. The chat and info
/// views are left as they were.
pub proof fn lemma_unknown_target_diagnostic(views: ViewTexts, spec: ViewSpec, body: String, replace: bool, chat_topic: Seq<char>)
    requires
        resolve(spec) is None,
    ensures
        ({
            let u = if replace {
                UiUpdate::ReplaceViewContent(spec, body)
            } else {
                UiUpdate::AppendToView(spec, body)
            };
            let after = apply_mutation(views, compiled(u, chat_topic));
            &&& compiled(u, chat_topic) == to_output(unknown_view_line(spec))
            &&& after.chat == views.chat
            &&& after.info == views.info
            &&& after.output == views.output + unknown_view_line(spec)
        }),
{
}

} // verus!
