use p2p_scope::pacer::{max_idle_iterations, INPUT_POLL_DELAY_MS};
use p2p_scope::runner::{CursiveChannelRunner, Dispatched, LoopState, PostAction, Size};
use p2p_scope::updates::UiUpdate;
use p2p_scope::views::{ViewId, ViewSpec};

fn runner() -> CursiveChannelRunner<()> {
    CursiveChannelRunner::new((), "test".to_string(), "monolith".to_string(), "info".to_string())
}

fn sizes(v: &[(usize, usize)]) -> Vec<Size> {
    v.iter().map(|&(x, y)| Size { x, y }).collect()
}

#[test]
fn idle_threshold_for_ten_fps_is_three() {
    assert_eq!(INPUT_POLL_DELAY_MS, 30);
    assert_eq!(max_idle_iterations(Some(10)), Some(3));
    assert_eq!(max_idle_iterations(Some(1)), Some(33));
    assert_eq!(max_idle_iterations(Some(100)), Some(1));
    assert_eq!(max_idle_iterations(Some(u32::MAX)), Some(1));
    assert_eq!(max_idle_iterations(None), None);
}

#[test]
fn fourth_boring_step_redraws_at_ten_fps() {
    let mut r = runner();
    r.set_fps(Some(10));
    assert!(r.run(sizes(&[(80, 24)])));
    for _ in 0..3 {
        let plan = r.step(&vec![], vec![]);
        assert!(!plan.received_something);
        assert_eq!(plan.action, PostAction { redraw: false, refresh_event: false, sleep: true });
    }
    let plan = r.step(&vec![], vec![]);
    assert_eq!(plan.action, PostAction { redraw: true, refresh_event: true, sleep: false });
    // The counter starts over after the forced redraw.
    for _ in 0..3 {
        assert!(!r.step(&vec![], vec![]).action.redraw);
    }
    assert!(r.step(&vec![], vec![]).action.redraw);
}

#[test]
fn without_fps_boring_steps_never_redraw() {
    let mut r = runner();
    r.run(vec![]);
    for _ in 0..100 {
        let plan = r.step(&vec![], vec![]);
        assert_eq!(plan.action, PostAction { redraw: false, refresh_event: false, sleep: true });
    }
}

#[test]
fn process_events_is_boring_iff_nothing_dispatched() {
    let mut r = runner();
    r.run(vec![]);
    assert!(!r.process_events(&vec![]));
    assert_eq!(r.state(), LoopState::Running);
    assert!(r.process_events(&vec![Dispatched::Handled]));
    assert!(r.process_events(&vec![Dispatched::Handled, Dispatched::Handled]));
    assert!(r.is_running());
}

#[test]
fn quit_request_stops_the_loop_and_skips_the_rest() {
    let mut r = runner();
    r.run(vec![]);
    let before = r.views().text(ViewId::Output).to_string();
    let plan = r.step(
        &vec![Dispatched::Handled, Dispatched::QuitRequested],
        vec![UiUpdate::TerminalOutput("late".to_string())],
    );
    assert!(plan.received_something);
    assert!(!plan.applied_updates);
    assert_eq!(plan.action, PostAction { redraw: false, refresh_event: false, sleep: false });
    assert_eq!(r.state(), LoopState::Stopped);
    assert!(!r.is_running());
    assert_eq!(r.views().text(ViewId::Output), before);
}

#[test]
fn input_redraws_without_refresh_event() {
    let mut r = runner();
    r.run(vec![]);
    let plan = r.step(&vec![Dispatched::Handled], vec![]);
    assert_eq!(plan.action, PostAction { redraw: true, refresh_event: false, sleep: false });
}

#[test]
fn channel_update_alone_is_not_boring() {
    let mut r = runner();
    r.run(vec![]);
    let plan = r.step(&vec![], vec![UiUpdate::TerminalOutput("x".to_string())]);
    assert!(!plan.received_something);
    assert!(plan.applied_updates);
    assert_eq!(plan.action, PostAction { redraw: true, refresh_event: false, sleep: false });
}

#[test]
fn clear_only_when_layer_sizes_change() {
    let mut r = runner();
    assert_eq!(r.state(), LoopState::Idle);
    assert!(r.run(sizes(&[(80, 24)])));
    assert_eq!(r.state(), LoopState::Running);
    assert!(!r.refresh(sizes(&[(80, 24)])));
    assert!(r.refresh(sizes(&[(80, 25)])));
    assert!(!r.refresh(sizes(&[(80, 25)])));
    assert!(r.refresh(sizes(&[(80, 25), (20, 5)])));
    assert!(r.refresh(sizes(&[(20, 5), (80, 25)])));
    assert!(r.refresh(vec![]));
    assert!(!r.refresh(vec![]));
}

#[test]
fn updates_apply_in_the_order_received() {
    let mut r = runner();
    r.run(vec![]);
    let out = || ViewSpec::ViewName("output_view".to_string());
    r.step(
        &vec![],
        vec![
            UiUpdate::AppendToView(out(), "a".to_string()),
            UiUpdate::ReplaceViewContent(out(), "b".to_string()),
            UiUpdate::AppendToView(out(), "c".to_string()),
            UiUpdate::AppendToView(ViewSpec::ViewIdI(0), "d".to_string()),
        ],
    );
    assert_eq!(r.views().text(ViewId::Output), "bc");
    assert_eq!(r.views().text(ViewId::Chat), "   Start of chat for this node d");
    assert_eq!(r.views().text(ViewId::Info), "info");
}

#[test]
fn updates_over_two_frames_match_one_frame() {
    let batch = || {
        vec![
            UiUpdate::TerminalOutput("one".to_string()),
            UiUpdate::ReplaceViewContent(ViewSpec::ViewIdS("instance_info".to_string()), "hdr".to_string()),
            UiUpdate::TextMessage {
                topic: "monolith".to_string(),
                origin_peer: "P".to_string(),
                body: "hi".to_string(),
            },
        ]
    };
    let mut a = runner();
    a.handle_channel_updates(batch());
    let mut b = runner();
    let mut all = batch();
    let tail = all.split_off(1);
    assert!(b.handle_channel_updates(all));
    assert!(b.handle_channel_updates(tail));
    assert!(!b.handle_channel_updates(vec![]));
    for v in [ViewId::Chat, ViewId::Output, ViewId::Info] {
        assert_eq!(a.views().text(v), b.views().text(v));
    }
    assert_eq!(a.views().text(ViewId::Output), "Output Start.one\r");
    assert_eq!(a.views().text(ViewId::Info), "hdr");
}

#[test]
fn runner_keeps_backend_name_and_inner() {
    let mut r = CursiveChannelRunner::new(5u8, "crossterm".to_string(), "monolith".to_string(), String::new());
    assert_eq!(r.backend_name(), "crossterm");
    *r.inner_mut() += 1;
    assert_eq!(r.fps(), None);
    r.set_fps(Some(20));
    assert_eq!(r.fps(), Some(20));
    assert_eq!(r.into_inner(), 6);
}

#[test]
fn run_leaves_a_stopped_loop_stopped() {
    let mut r = runner();
    r.run(sizes(&[(80, 24)]));
    r.step(&vec![Dispatched::QuitRequested], vec![]);
    assert_eq!(r.state(), LoopState::Stopped);
    assert!(r.run(sizes(&[(80, 25)])));
    assert_eq!(r.state(), LoopState::Stopped);
    assert!(!r.is_running());
}
