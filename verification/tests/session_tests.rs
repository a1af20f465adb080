use presentink::capture::MonitorDescriptor;
use presentink::orchestrator::{
    screenshot_gate, CaptureSession, GateDecision, SessionState, SETTLE_DELAY_MS,
};

fn two_monitors() -> Vec<MonitorDescriptor> {
    vec![
        MonitorDescriptor {
            index: 0,
            pos_x: 0,
            pos_y: 0,
            width: 1920,
            height: 1080,
            scale_milli: 1000,
        },
        MonitorDescriptor {
            index: 1,
            pos_x: 1920,
            pos_y: 0,
            width: 2880,
            height: 1800,
            scale_milli: 2000,
        },
    ]
}

#[test]
fn start_plans_one_overlay_per_monitor() {
    let mut session = CaptureSession::new();
    assert_eq!(session.state(), SessionState::Idle);
    assert_eq!(session.overlay_count(), 0);

    let (leftovers, plans) = session.start(&two_monitors());
    assert_eq!(leftovers.len(), 0);
    assert_eq!(plans.len(), 2);
    assert_eq!(session.state(), SessionState::Spawning);
    assert_eq!(session.overlay_count(), 2);

    assert!(plans[0].label.starts_with("screenshot-window-0-"));
    assert!(plans[1].label.starts_with("screenshot-window-1-"));
    // the label tail is the 36-character hyphenated session identifier
    assert_eq!(plans[0].label.len(), "screenshot-window-0-".len() + 36);
    // each overlay carries its monitor's index and scale factor, so the
    // selection it reports lands in the correct coordinate frame
    assert_eq!((plans[0].monitor, plans[0].scale_milli), (0, 1000));
    assert_eq!((plans[1].monitor, plans[1].scale_milli), (1, 2000));
    assert_eq!((plans[0].pos_x, plans[0].pos_y), (0, 0));
    assert_eq!((plans[0].width, plans[0].height), (1920, 1080));
    assert_eq!((plans[1].pos_x, plans[1].pos_y), (1920, 0));
    assert_eq!((plans[1].width, plans[1].height), (2880, 1800));
}

#[test]
fn selection_cycle_leaves_no_overlay() {
    let mut session = CaptureSession::new();
    let (_, plans) = session.start(&two_monitors());
    session.all_visible();
    assert_eq!(session.state(), SessionState::AwaitingSelection);

    let to_destroy = session.confirm_selection();
    // every overlay, including the reporting one, is torn down at once
    assert_eq!(to_destroy.len(), plans.len());
    assert_eq!(session.overlay_count(), 0);
    assert_eq!(session.state(), SessionState::Capturing);

    session.finish();
    assert_eq!(session.state(), SessionState::Idle);
    assert_eq!(session.overlay_count(), 0);
}

#[test]
fn cancel_cycle_leaves_no_overlay() {
    let mut session = CaptureSession::new();
    session.start(&two_monitors());
    session.all_visible();

    let to_destroy = session.close_all();
    assert_eq!(to_destroy.len(), 2);
    assert_eq!(session.state(), SessionState::Idle);
    assert_eq!(session.overlay_count(), 0);
}

#[test]
fn restart_hands_back_leftover_overlays() {
    let mut session = CaptureSession::new();
    let (_, first_plans) = session.start(&two_monitors());
    // the first session was abandoned mid-spawn; starting again must
    // force-destroy its windows before creating new ones
    let (leftovers, _) = session.start(&two_monitors());
    assert_eq!(leftovers.len(), 2);
    for (leftover, plan) in leftovers.iter().zip(first_plans.iter()) {
        assert_eq!(leftover, &plan.label);
    }
    assert_eq!(session.overlay_count(), 2);
}

#[test]
fn close_all_is_idempotent() {
    let mut session = CaptureSession::new();
    assert_eq!(session.close_all().len(), 0);
    session.start(&two_monitors());
    assert_eq!(session.close_all().len(), 2);
    assert_eq!(session.close_all().len(), 0);
    assert_eq!(session.state(), SessionState::Idle);
}

#[test]
fn settle_delay_is_the_fixed_teardown_pause() {
    assert_eq!(SETTLE_DELAY_MS, 200);
}

#[test]
fn permission_gate_decisions() {
    assert_eq!(screenshot_gate(true, false), GateDecision::Proceed);
    assert_eq!(screenshot_gate(true, true), GateDecision::Proceed);
    assert_eq!(screenshot_gate(false, true), GateDecision::Proceed);
    assert_eq!(screenshot_gate(false, false), GateDecision::RequestPermission);
}
