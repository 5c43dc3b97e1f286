//! The three named views of the terminal and a model of their contents.
use vstd::prelude::*;
use crate::text::text_equals;

verus! {

/// One of the mutable regions of the view tree.
#[derive(Clone, Copy, Debug, PartialEq, Eq, Structural)]
pub enum ViewId {
    /// The chat history of the chat topic.
    Chat,
    /// General program output and diagnostics.
    Output,
    /// The header describing this instance.
    Info,
}

/// Names a view, either by its name or by an id.
#[derive(Clone, Debug)]
pub enum ViewSpec {
    ViewName(String),
    ViewIdS(String),
    ViewIdI(i32),
}

/// How a mutation changes the text of its view.
#[derive(Clone, Copy, Debug, PartialEq, Eq, Structural)]
pub enum MutationKind {
    Append,
    Replace,
}

/// A change to one view, applied on the render thread at a frame boundary.
#[derive(Clone, Debug)]
pub struct PendingMutation {
    pub target: ViewId,
    pub kind: MutationKind,
    pub text: String,
}

/// The mathematical value of a mutation.
pub struct MutationSpec {
    pub target: ViewId,
    pub kind: MutationKind,
    pub text: Seq<char>,
}

impl View for PendingMutation {
    type V = MutationSpec;

    open spec fn view(&self) -> MutationSpec {
        MutationSpec { target: self.target, kind: self.kind, text: self.text@ }
    }
}

/// The text that each view shows.
pub struct ViewTexts {
    pub chat: Seq<char>,
    pub output: Seq<char>,
    pub info: Seq<char>,
}

/// The name under which a view is registered.
pub open spec fn view_name(v: ViewId) -> Seq<char> {
    match v {
        ViewId::Chat => "monolith_chat_view"@,
        ViewId::Output => "output_view"@,
        ViewId::Info => "instance_info"@,
    }
}

/// The view a name refers to, if any.
pub open spec fn view_named(name: Seq<char>) -> Option<ViewId> {
    if name == view_name(ViewId::Chat) {
        Some(ViewId::Chat)
    } else if name == view_name(ViewId::Output) {
        Some(ViewId::Output)
    } else if name == view_name(ViewId::Info) {
        Some(ViewId::Info)
    } else {
        None
    }
}

/// The view a numeric id refers to: the views are numbered chat, output,
/// info from zero.
pub open spec fn view_numbered(i: i32) -> Option<ViewId> {
    if i == 0 {
        Some(ViewId::Chat)
    } else if i == 1 {
        Some(ViewId::Output)
    } else if i == 2 {
        Some(ViewId::Info)
    } else {
        None
    }
}

/// The live view a `ViewSpec` resolves to, if any.
pub open spec fn resolve(spec: ViewSpec) -> Option<ViewId> {
    match spec {
        ViewSpec::ViewName(n) => view_named(n@),
        ViewSpec::ViewIdS(n) => view_named(n@),
        ViewSpec::ViewIdI(i) => view_numbered(i),
    }
}

/// The view texts at startup, with `info` in the header.
pub open spec fn initial_views(info: Seq<char>) -> ViewTexts {
    ViewTexts { chat: "   Start of chat for this node "@, output: "Output Start."@, info }
}

/// The text of one view.
pub open spec fn text_of(t: ViewTexts, v: ViewId) -> Seq<char> {
    match v {
        ViewId::Chat => t.chat,
        ViewId::Output => t.output,
        ViewId::Info => t.info,
    }
}

/// The texts after one mutation.
pub open spec fn apply_mutation(t: ViewTexts, m: MutationSpec) -> ViewTexts {
    let new_text = match m.kind {
        MutationKind::Append => text_of(t, m.target) + m.text,
        MutationKind::Replace => m.text,
    };
    match m.target {
        ViewId::Chat => ViewTexts { chat: new_text, ..t },
        ViewId::Output => ViewTexts { output: new_text, ..t },
        ViewId::Info => ViewTexts { info: new_text, ..t },
    }
}

/// The texts after applying each mutation of `ms` in turn, first to last.
pub open spec fn apply_mutations(t: ViewTexts, ms: Seq<MutationSpec>) -> ViewTexts
    decreases ms.len(),
{
    if ms.len() == 0 {
        t
    } else {
        apply_mutation(apply_mutations(t, ms.drop_last()), ms.last())
    }
}

/// The views of a sequence of mutations.
pub open spec fn mutation_specs(ms: Seq<PendingMutation>) -> Seq<MutationSpec> {
    ms.map_values(|m: PendingMutation| m@)
}

impl ViewId {
    /// The name under which this view is registered.
    pub fn name(&self) -> (r: &'static str)
        ensures
            r@ == view_name(*self),
    {
        match self {
            ViewId::Chat => "monolith_chat_view",
            ViewId::Output => "output_view",
            ViewId::Info => "instance_info",
        }
    }

    /// The view registered under `name`, if any.
    pub fn from_name(name: &str) -> (r: Option<ViewId>)
        ensures
            r == view_named(name@),
    {
        if text_equals(name, ViewId::Chat.name()) {
            Some(ViewId::Chat)
        } else if text_equals(name, ViewId::Output.name()) {
            Some(ViewId::Output)
        } else if text_equals(name, ViewId::Info.name()) {
            Some(ViewId::Info)
        } else {
            None
        }
    }
}

/// Resolves a `ViewSpec` to one of the live views; `None` when it names
/// none of them.
pub fn resolve_view_spec(spec: &ViewSpec) -> (r: Option<ViewId>)
    ensures
        r == resolve(*spec),
{
    match spec {
        ViewSpec::ViewName(n) => ViewId::from_name(n.as_str()),
        ViewSpec::ViewIdS(n) => ViewId::from_name(n.as_str()),
        ViewSpec::ViewIdI(i) => {
            if *i == 0 {
                Some(ViewId::Chat)
            } else if *i == 1 {
                Some(ViewId::Output)
            } else if *i == 2 {
                Some(ViewId::Info)
            } else {
                None
            }
        },
    }
}

/// The contents of the chat, output and info views.
pub struct ViewContents {
    chat: String,
    output: String,
    info: String,
}

impl View for ViewContents {
    type V = ViewTexts;

    closed spec fn view(&self) -> ViewTexts {
        ViewTexts { chat: self.chat@, output: self.output@, info: self.info@ }
    }
}

impl ViewContents {
    /// The views as they stand at startup, with `info` in the header.
    pub fn new(info: String) -> (r: ViewContents)
        ensures
            r@ == initial_views(info@),
    {
        ViewContents {
            chat: String::from_str("   Start of chat for this node "),
            output: String::from_str("Output Start."),
            info,
        }
    }

    /// The text of one view.
    pub fn text(&self, v: ViewId) -> (r: &str)
        ensures
            r@ == text_of(self@, v),
    {
        match v {
            ViewId::Chat => self.chat.as_str(),
            ViewId::Output => self.output.as_str(),
            ViewId::Info => self.info.as_str(),
        }
    }

    /// Applies one mutation to its target view.
    pub fn apply(&mut self, m: &PendingMutation)
        ensures
            final(self)@ == apply_mutation(old(self)@, m@),
    {
        let slot: &mut String = match m.target {
            ViewId::Chat => &mut self.chat,
            ViewId::Output => &mut self.output,
            ViewId::Info => &mut self.info,
        };
        match m.kind {
            MutationKind::Append => slot.append(m.text.as_str()),
            MutationKind::Replace => {
                *slot = m.text.clone();
            },
        }
    }

    /// Applies the mutations in order, first to last.
    pub fn apply_all(&mut self, ms: &Vec<PendingMutation>)
        ensures
            final(self)@ == apply_mutations(old(self)@, mutation_specs(ms@)),
    {
        let n = ms.len();
        let mut i: usize = 0;
        while i < n
            invariant
                n == ms@.len(),
                0 <= i <= n,
                self@ == apply_mutations(old(self)@, mutation_specs(ms@.subrange(0, i as int))),
            decreases n - i,
        {
            self.apply(&ms[i]);
            proof {
                let pre = mutation_specs(ms@.subrange(0, i as int));
                let post = mutation_specs(ms@.subrange(0, i + 1));
                assert(post.drop_last() =~= pre);
                assert(post.last() == ms@[i as int]@);
            }
            i = i + 1;
        }
        proof {
            assert(ms@.subrange(0, n as int) =~= ms@);
        }
    }
}

} // verus!
