use wakeword::lifecycle::{advance, ControlEvent, Stage};

#[test]
fn lifecycle_runs_forward_only() {
    let s = advance(&Stage::Idle, &ControlEvent::Start);
    assert!(matches!(s, Stage::Streaming));
    let s = advance(&s, &ControlEvent::StopSignal);
    assert!(matches!(s, Stage::Draining));
    let s = advance(&s, &ControlEvent::Drained);
    assert!(matches!(s, Stage::Stopped));
    // No restart path: a stopped pipeline stays stopped.
    assert!(matches!(advance(&Stage::Stopped, &ControlEvent::Start), Stage::Stopped));
    assert!(matches!(advance(&Stage::Stopped, &ControlEvent::StopSignal), Stage::Stopped));
    assert!(matches!(advance(&Stage::Stopped, &ControlEvent::Drained), Stage::Stopped));
}

#[test]
fn out_of_order_events_do_not_move_the_stage() {
    assert!(matches!(advance(&Stage::Idle, &ControlEvent::StopSignal), Stage::Idle));
    assert!(matches!(advance(&Stage::Idle, &ControlEvent::Drained), Stage::Idle));
    assert!(matches!(advance(&Stage::Streaming, &ControlEvent::Start), Stage::Streaming));
    assert!(matches!(advance(&Stage::Draining, &ControlEvent::StopSignal), Stage::Draining));
}
