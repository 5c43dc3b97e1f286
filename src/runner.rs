//! The render loop's state machine.
//!
//! The loop itself, which polls the terminal, draws and sleeps, belongs to
//! the caller. Each iteration it reports what happened and receives what to
//! do next.
use vstd::prelude::*;
use crate::pacer::{max_idle_iterations, next_idle_count, redraw_due};
use crate::updates::{compile_update, compiled, UiUpdate};
use crate::views::{apply_mutations, initial_views, mutation_specs, MutationSpec, PendingMutation, ViewContents, ViewTexts};

verus! {

/// Where the render loop stands.
#[derive(Clone, Copy, Debug, PartialEq, Eq, Structural)]
pub enum LoopState {
    /// No loop is running yet.
    Idle,
    /// The loop is stepping.
    Running,
    /// A handler asked to quit.
    Stopped,
}

/// What dispatching one input event or callback led to.
#[derive(Clone, Copy, Debug, PartialEq, Eq, Structural)]
pub enum Dispatched {
    /// The handler ran and the loop goes on.
    Handled,
    /// The handler asked the loop to stop.
    QuitRequested,
}

/// The size of one layer of the top-level view stack, in cells.
#[derive(Clone, Copy, Debug, PartialEq, Eq, Structural)]
pub struct Size {
    pub x: usize,
    pub y: usize,
}

/// What the caller does after the events of an iteration.
#[derive(Clone, Copy, Debug, PartialEq, Eq, Structural)]
pub struct PostAction {
    /// Lay out and draw the view tree, then flush the terminal.
    pub redraw: bool,
    /// Before drawing, deliver a refresh event: the redraw comes from the
    /// idle threshold rather than from input.
    pub refresh_event: bool,
    /// Sleep for the input poll delay before the next iteration.
    pub sleep: bool,
}

/// What one iteration did, and what the caller does next.
#[derive(Clone, Copy, Debug, PartialEq, Eq, Structural)]
pub struct StepPlan {
    /// Whether an input event or callback was dispatched.
    pub received_something: bool,
    /// Whether any update from the network loop was applied.
    pub applied_updates: bool,
    pub action: PostAction,
}

/// The mathematical state of a runner.
pub struct RunnerState {
    pub state: LoopState,
    pub fps: Option<u32>,
    pub boring_frames: u32,
    pub last_sizes: Seq<Size>,
    pub views: ViewTexts,
    pub chat_topic: Seq<char>,
    pub backend_name: Seq<char>,
}

/// The action that follows an iteration's events.
pub open spec fn post_action(fps: Option<u32>, boring_frames: u32, received_something: bool) -> PostAction {
    let redraw = redraw_due(fps, boring_frames, received_something);
    PostAction { redraw, refresh_event: redraw && !received_something, sleep: !redraw }
}

/// Whether any dispatch asked to quit.
pub open spec fn quit_requested(d: Seq<Dispatched>) -> bool {
    exists|i: int| 0 <= i < d.len() && d[i] == Dispatched::QuitRequested
}

/// The mutations that a sequence of updates compiles to, in order.
pub open spec fn compiled_all(us: Seq<UiUpdate>, chat_topic: Seq<char>) -> Seq<MutationSpec> {
    us.map_values(|u: UiUpdate| compiled(u, chat_topic))
}

/// The view texts after the updates are applied in the order received.
pub open spec fn views_after(views: ViewTexts, us: Seq<UiUpdate>, chat_topic: Seq<char>) -> ViewTexts {
    apply_mutations(views, compiled_all(us, chat_topic))
}

/// Drives a render loop: the wrapped UI root, the pacing state, the layer
/// sizes drawn last, and the contents of the named views.
pub struct CursiveChannelRunner<C> {
    siv: C,
    backend_name: String,
    state: LoopState,
    fps: Option<u32>,
    boring_frame_count: u32,
    last_sizes: Vec<Size>,
    views: ViewContents,
    chat_topic: String,
}

impl<C> View for CursiveChannelRunner<C> {
    type V = RunnerState;

    closed spec fn view(&self) -> RunnerState {
        RunnerState {
            state: self.state,
            fps: self.fps,
            boring_frames: self.boring_frame_count,
            last_sizes: self.last_sizes@,
            views: self.views@,
            chat_topic: self.chat_topic@,
            backend_name: self.backend_name@,
        }
    }
}

impl<C> CursiveChannelRunner<C> {
    /// The runner is well formed: a target rate, when set, is positive.
    pub open spec fn wf(&self) -> bool {
        self@.fps matches Some(f) ==> f > 0
    }

    /// The wrapped UI root.
    pub closed spec fn inner(&self) -> C {
        self.siv
    }

    /// Creates a runner around `siv`. It starts idle, with no target rate,
    /// no layer sizes drawn, and `info` in the info view.
    pub fn new(siv: C, backend_name: String, chat_topic: String, info: String) -> (r: Self)
        ensures
            r.wf(),
            r.inner() == siv,
            r@.state == LoopState::Idle,
            r@.fps is None,
            r@.boring_frames == 0,
            r@.last_sizes == Seq::<Size>::empty(),
            r@.views == initial_views(info@),
            r@.chat_topic == chat_topic@,
            r@.backend_name == backend_name@,
    {
        CursiveChannelRunner {
            siv,
            backend_name,
            state: LoopState::Idle,
            fps: None,
            boring_frame_count: 0,
            last_sizes: Vec::new(),
            views: ViewContents::new(info),
            chat_topic,
        }
    }

    /// Gives back the wrapped UI root.
    pub fn into_inner(self) -> (r: C)
        ensures
            r == self.inner(),
    {
        self.siv
    }

    /// The wrapped UI root, for the caller to drive.
    pub fn inner_mut(&mut self) -> (r: &mut C)
        ensures
            *r == old(self).inner(),
            final(self).inner() == *final(r),
            final(self)@ == old(self)@,
    {
        &mut self.siv
    }

    /// The name of the terminal backend.
    pub fn backend_name(&self) -> (r: &str)
        ensures
            r@ == self@.backend_name,
    {
        self.backend_name.as_str()
    }

    /// Where the loop stands.
    pub fn state(&self) -> (r: LoopState)
        ensures
            r == self@.state,
    {
        self.state
    }

    /// Whether the loop is running.
    pub fn is_running(&self) -> (r: bool)
        ensures
            r == (self@.state == LoopState::Running),
    {
        self.state == LoopState::Running
    }

    /// The contents of the named views.
    pub fn views(&self) -> (r: &ViewContents)
        ensures
            r@ == self@.views,
    {
        &self.views
    }

    /// The target refresh rate, if one is set.
    pub fn fps(&self) -> (r: Option<u32>)
        ensures
            r == self@.fps,
    {
        self.fps
    }

    /// Sets the target refresh rate; `None` lets only activity redraw.
    pub fn set_fps(&mut self, fps: Option<u32>)
        requires
            fps matches Some(f) ==> f > 0,
        ensures
            final(self).wf(),
            final(self)@ == (RunnerState { fps, ..old(self)@ }),
            final(self).inner() == old(self).inner(),
    {
        self.fps = fps;
    }
}

fn same_sizes(a: &Vec<Size>, b: &Vec<Size>) -> (r: bool)
    ensures
        r == (a@ == b@),
{
    if a.len() != b.len() {
        return false;
    }
    let n = a.len();
    let mut i: usize = 0;
    while i < n
        invariant
            n == a@.len(),
            n == b@.len(),
            0 <= i <= n,
            forall|j: int| 0 <= j < i ==> a@[j] == b@[j],
        decreases n - i,
    {
        if a[i] != b[i] {
            return false;
        }
        i = i + 1;
    }
    assert(a@ =~= b@);
    true
}

impl<C> CursiveChannelRunner<C> {
    /// Records the input events and callbacks dispatched in this iteration,
    /// in order. Returns whether anything was dispatched; if a handler asked
    /// to quit, the loop is stopped.
    pub fn process_events(&mut self, dispatched: &Vec<Dispatched>) -> (r: bool)
        ensures
            r == (dispatched@.len() > 0),
            final(self)@ == (RunnerState {
                state: if quit_requested(dispatched@) { LoopState::Stopped } else { old(self)@.state },
                ..old(self)@
            }),
            final(self).inner() == old(self).inner(),
    {
        if quit_in(dispatched) {
            self.state = LoopState::Stopped;
        }
        dispatched.len() > 0
    }

    /// Compiles the updates received from the network loop and applies them
    /// to the views in the order received. Returns whether there were any.
    pub fn handle_channel_updates(&mut self, updates: Vec<UiUpdate>) -> (r: bool)
        ensures
            r == (updates@.len() > 0),
            final(self)@ == (RunnerState {
                views: views_after(old(self)@.views, updates@, old(self)@.chat_topic),
                ..old(self)@
            }),
            final(self).inner() == old(self).inner(),
    {
        let n = updates.len();
        let mut mutations: Vec<PendingMutation> = Vec::new();
        let mut rest = updates;
        while rest.len() > 0
            invariant
                mutations@.len() + rest@.len() == n,
                n == updates@.len(),
                updates@ == updates@.take(mutations@.len() as int) + rest@,
                mutation_specs(mutations@) == compiled_all(
                    updates@.take(mutations@.len() as int),
                    self.chat_topic@,
                ),
            decreases rest@.len(),
        {
            let k = mutations.len();
            let u = rest.remove(0);
            proof {
                assert(updates@[k as int] == u);
                assert(updates@.take(k + 1) =~= updates@.take(k as int).push(u));
                assert(updates@ =~= updates@.take(k + 1) + rest@);
            }
            let m = compile_update(u, self.chat_topic.as_str());
            let ghost before = mutations@;
            mutations.push(m);
            proof {
                let topic = self.chat_topic@;
                assert forall|j: int| 0 <= j < k implies mutations@[j]@ == compiled(updates@[j], topic) by {
                    assert(mutations@[j] == before[j]);
                    assert(mutation_specs(before)[j] == compiled_all(updates@.take(k as int), topic)[j]);
                }
                assert(mutation_specs(mutations@) =~= compiled_all(
                    updates@.take(mutations@.len() as int),
                    self.chat_topic@,
                ));
            }
        }
        assert(updates@.take(n as int) =~= updates@);
        self.views.apply_all(&mutations);
        n > 0
    }

    /// Decides what follows an iteration's events. It redraws when
    /// something was received or the idle threshold is reached; the idle
    /// counter is then reset. Otherwise it sleeps and counts one more idle
    /// iteration.
    pub fn post_events(&mut self, received_something: bool) -> (r: PostAction)
        requires
            old(self).wf(),
        ensures
            r == post_action(old(self)@.fps, old(self)@.boring_frames, received_something),
            final(self)@ == (RunnerState {
                boring_frames: next_idle_count(old(self)@.fps, old(self)@.boring_frames, received_something),
                ..old(self)@
            }),
            final(self).inner() == old(self).inner(),
    {
        let due = received_something || match max_idle_iterations(self.fps) {
            Some(repeats) => self.boring_frame_count >= repeats,
            None => false,
        };
        if due {
            self.boring_frame_count = 0;
        } else if self.boring_frame_count < u32::MAX {
            self.boring_frame_count = self.boring_frame_count + 1;
        }
        PostAction { redraw: due, refresh_event: due && !received_something, sleep: !due }
    }

    /// Starts a redraw of the view tree laid out in layers of `sizes`.
    /// Returns whether the whole screen must be cleared first: exactly when
    /// the layer sizes differ from those of the previous redraw. The idle
    /// counter is reset.
    pub fn refresh(&mut self, sizes: Vec<Size>) -> (clear: bool)
        ensures
            clear == (sizes@ != old(self)@.last_sizes),
            final(self)@ == (RunnerState { boring_frames: 0, last_sizes: sizes@, ..old(self)@ }),
            final(self).inner() == old(self).inner(),
    {
        self.boring_frame_count = 0;
        let clear = !same_sizes(&sizes, &self.last_sizes);
        self.last_sizes = sizes;
        clear
    }

    /// One iteration: record the dispatched events, then, unless a handler
    /// stopped the loop, apply the network updates and decide what follows.
    /// The iteration is boring when nothing was dispatched and no update
    /// arrived.
    pub fn step(&mut self, dispatched: &Vec<Dispatched>, updates: Vec<UiUpdate>) -> (r: StepPlan)
        requires
            old(self).wf(),
        ensures
            r.received_something == (dispatched@.len() > 0),
            final(self).inner() == old(self).inner(),
            quit_requested(dispatched@) ==> {
                &&& final(self)@ == (RunnerState { state: LoopState::Stopped, ..old(self)@ })
                &&& !r.applied_updates
                &&& r.action == (PostAction { redraw: false, refresh_event: false, sleep: false })
            },
            !quit_requested(dispatched@) ==> {
                let active = dispatched@.len() > 0 || updates@.len() > 0;
                &&& r.applied_updates == (updates@.len() > 0)
                &&& r.action == post_action(old(self)@.fps, old(self)@.boring_frames, active)
                &&& final(self)@ == (RunnerState {
                    views: views_after(old(self)@.views, updates@, old(self)@.chat_topic),
                    boring_frames: next_idle_count(old(self)@.fps, old(self)@.boring_frames, active),
                    ..old(self)@
                })
            },
    {
        let received_something = self.process_events(dispatched);
        if quit_in(dispatched) {
            return StepPlan {
                received_something,
                applied_updates: false,
                action: PostAction { redraw: false, refresh_event: false, sleep: false },
            };
        }
        let applied_updates = self.handle_channel_updates(updates);
        let action = self.post_events(received_something || applied_updates);
        StepPlan { received_something, applied_updates, action }
    }

    /// Starts the loop: the caller makes one unconditional redraw, clearing
    /// the screen first when this returns `true`, then steps while the loop
    /// is running. A loop that a quit has stopped stays stopped: it gets the
    /// redraw and no step.
    pub fn run(&mut self, sizes: Vec<Size>) -> (clear: bool)
        ensures
            clear == (sizes@ != old(self)@.last_sizes),
            final(self)@ == (RunnerState {
                state: if old(self)@.state == LoopState::Stopped {
                    LoopState::Stopped
                } else {
                    LoopState::Running
                },
                boring_frames: 0,
                last_sizes: sizes@,
                ..old(self)@
            }),
            final(self).inner() == old(self).inner(),
    {
        if self.state != LoopState::Stopped {
            self.state = LoopState::Running;
        }
        self.refresh(sizes)
    }
}

/// Whether any dispatch asked to quit.
fn quit_in(dispatched: &Vec<Dispatched>) -> (r: bool)
    ensures
        r == quit_requested(dispatched@),
{
    let n = dispatched.len();
    let mut i: usize = 0;
    while i < n
        invariant
            n == dispatched@.len(),
            0 <= i <= n,
            forall|j: int| 0 <= j < i ==> dispatched@[j] == Dispatched::Handled,
        decreases n - i,
    {
        if dispatched[i] == Dispatched::QuitRequested {
            return true;
        }
        i = i + 1;
    }
    assert forall|j: int| 0 <= j < dispatched@.len() implies dispatched@[j] != Dispatched::QuitRequested by {
        assert(dispatched@[j] == Dispatched::Handled);
    }
    false
}


/// Applying a batch of mutations is applying them one after another: the
/// batch `a + b` leaves the views as `a` followed by `b` does.
pub proof fn lemma_apply_mutations_split(views: ViewTexts, a: Seq<MutationSpec>, b: Seq<MutationSpec>)
    ensures
        apply_mutations(views, a + b) == apply_mutations(apply_mutations(views, a), b),
    decreases b.len(),
{
    if b.len() == 0 {
        assert(a + b =~= a);
    } else {
        lemma_apply_mutations_split(views, a, b.drop_last());
        assert((a + b).drop_last() =~= a + b.drop_last());
        assert((a + b).last() == b.last());
    }
}

/// Updates drained together are applied in the order they were published,
/// each one's mutation to the views as the earlier ones left them: the batch
/// `us1 + us2` has the effect of `us1` and then `us2`, and a single update
/// has the effect of its own mutation.
pub proof fn lemma_updates_apply_in_order(
    views: ViewTexts,
    us1: Seq<UiUpdate>,
    us2: Seq<UiUpdate>,
    u: UiUpdate,
    chat_topic: Seq<char>,
)
    ensures
        views_after(views, us1 + us2, chat_topic)
            == views_after(views_after(views, us1, chat_topic), us2, chat_topic),
        views_after(views, seq![u], chat_topic)
            == crate::views::apply_mutation(views, compiled(u, chat_topic)),
{
    assert(compiled_all(us1 + us2, chat_topic) =~= compiled_all(us1, chat_topic) + compiled_all(
        us2,
        chat_topic,
    ));
    lemma_apply_mutations_split(views, compiled_all(us1, chat_topic), compiled_all(us2, chat_topic));
    let one = compiled_all(seq![u], chat_topic);
    assert(one.drop_last() =~= Seq::<MutationSpec>::empty());
    assert(one.last() == compiled(u, chat_topic));
    assert(apply_mutations(views, one.drop_last()) == views);
}

} // verus!
