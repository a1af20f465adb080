//! The capture-window orchestrator.
//!
//! A capture session walks `Idle → Spawning → AwaitingSelection →
//! Capturing → Idle`. Starting a session re-enumerates monitors and plans
//! one capture-overlay window per monitor; confirming a selection or
//! cancelling tears every overlay down before anything else happens, so a
//! finished cycle always leaves the overlay set empty. The orchestrator
//! owns the set and decides; the toolkit layer creates and destroys the
//! actual windows with the labels handed out here, and sleeps for the
//! settling delay before capturing.

use crate::capture::MonitorDescriptor;
use crate::capture::monitors_wf;
use crate::windows::WindowPlan;
use crate::windows::fmt_u32;
use crate::windows::spec_dec;
use vstd::prelude::*;

verus! {

/// How long to wait after overlay teardown before capturing, in
/// milliseconds. Window destruction is asynchronous on some platforms; a
/// capture taken too soon can still include the overlay's own pixels.
pub const SETTLE_DELAY_MS: u64 = 200;

/// Whether a capture request may proceed to spawning overlays, or must
/// first ask the user for screen-recording permission.
#[derive(Debug, Clone, Copy, PartialEq, Eq, Structural)]
pub enum GateDecision {
    Proceed,
    RequestPermission,
}

/// The permission gate in front of a capture session: development builds
/// skip the platform permission check entirely; otherwise a session may
/// proceed exactly when permission is already granted, and must request
/// it once when it is not.
pub fn screenshot_gate(dev_build: bool, has_permission: bool) -> (r: GateDecision)
    ensures
        r == (if dev_build || has_permission {
            GateDecision::Proceed
        } else {
            GateDecision::RequestPermission
        }),
{
    if dev_build || has_permission {
        GateDecision::Proceed
    } else {
        GateDecision::RequestPermission
    }
}

/// Relies on `uuid::Uuid::new_v4` and its hyphenated text form: a fresh
/// random identifier always renders as 36 characters. The value itself is
/// random, so nothing else is promised of it.
#[verifier::external_body]
fn fresh_session_id() -> (r: String)
    ensures
        r@.len() == 36,
{
    uuid::Uuid::new_v4().to_string()
}

/// One live capture-overlay window.
#[derive(Debug, Clone, PartialEq, Eq)]
pub struct OverlayWindow {
    /// The monitor this overlay covers, by enumeration index.
    pub monitor: u32,
    /// The toolkit label the overlay was created under.
    pub label: String,
}

/// The phases of one capture session.
#[derive(Debug, Clone, Copy, PartialEq, Eq, Structural)]
pub enum SessionState {
    /// No session in flight; no overlay window exists.
    Idle,
    /// Overlay windows are being created, one per monitor.
    Spawning,
    /// Every overlay is up; the user is drawing a rectangle.
    AwaitingSelection,
    /// All overlays are torn down and the capture itself runs.
    Capturing,
}

/// The label prefix shared by every capture-overlay window.
pub fn overlay_label_prefix() -> (r: &'static str)
    ensures
        r@ == "screenshot-window-"@,
{
    "screenshot-window-"
}

/// The orchestrator of capture sessions.
///
/// Its invariant is the resting-state rule for the overlay set: while a
/// session is between spawning and selection there is exactly one overlay
/// per enumerated monitor, in enumeration order, and in every other state
/// the set is empty — partial sets are never a resting state.
pub struct CaptureSession {
    state: SessionState,
    windows: Vec<OverlayWindow>,
    monitor_count: usize,
}

impl CaptureSession {
    pub closed spec fn spec_state(&self) -> SessionState {
        self.state
    }

    pub closed spec fn spec_windows(&self) -> Seq<OverlayWindow> {
        self.windows@
    }

    /// The number of monitors the current session enumerated when it
    /// spawned its overlays.
    pub closed spec fn spec_monitor_count(&self) -> int {
        self.monitor_count as int
    }

    /// The overlay-set invariant (see the type documentation).
    pub open spec fn wf(&self) -> bool {
        &&& (self.spec_state() == SessionState::Spawning || self.spec_state()
            == SessionState::AwaitingSelection) ==> {
            &&& self.spec_windows().len() == self.spec_monitor_count()
            &&& forall|i: int|
                0 <= i < self.spec_windows().len() ==> (#[trigger] self.spec_windows()[i]).monitor
                    == i
        }
        &&& (self.spec_state() == SessionState::Idle || self.spec_state()
            == SessionState::Capturing) ==> self.spec_windows().len() == 0
    }

    /// A fresh orchestrator: idle, with no overlay window.
    pub fn new() -> (r: CaptureSession)
        ensures
            r.wf(),
            r.spec_state() == SessionState::Idle,
            r.spec_windows().len() == 0,
    {
        CaptureSession { state: SessionState::Idle, windows: Vec::new(), monitor_count: 0 }
    }

    pub fn state(&self) -> (r: SessionState)
        ensures
            r == self.spec_state(),
    {
        self.state
    }

    pub fn overlay_count(&self) -> (r: usize)
        ensures
            r == self.spec_windows().len(),
    {
        self.windows.len()
    }

    /// The labels of every live overlay, in enumeration order.
    pub fn overlay_labels(&self) -> (r: Vec<String>)
        ensures
            r@.len() == self.spec_windows().len(),
            forall|i: int|
                0 <= i < r@.len() ==> r@[i]@ == (#[trigger] self.spec_windows()[i]).label@,
    {
        let mut r: Vec<String> = Vec::new();
        let n = self.windows.len();
        let mut i: usize = 0;
        while i < n
            invariant
                n == self.windows@.len(),
                i <= n,
                r@.len() == i,
                forall|j: int|
                    0 <= j < i ==> r@[j]@ == (#[trigger] self.windows@[j]).label@,
            decreases n - i,
        {
            let mut label = String::new();
            label.append(self.windows[i].label.as_str());
            r.push(label);
            i = i + 1;
        }
        r
    }

    /// Starts a capture session against a fresh monitor enumeration.
    ///
    /// Any leftover overlay from an aborted session is handed back for
    /// destruction first (idempotent cleanup), and one new overlay per
    /// monitor is planned, labelled with the shared prefix, its monitor
    /// index and a fresh session identifier, covering exactly that
    /// monitor's physical bounds, and carrying that monitor's index and
    /// scale factor so the overlay reports its selection in the correct
    /// coordinate frame. The session is then `Spawning`.
    pub fn start(&mut self, monitors: &Vec<MonitorDescriptor>) -> (r: (Vec<String>, Vec<
        WindowPlan,
    >))
        requires
            old(self).wf(),
            monitors_wf(monitors@),
            monitors@.len() <= u32::MAX,
        ensures
            final(self).wf(),
            final(self).spec_state() == SessionState::Spawning,
            r.0@.len() == old(self).spec_windows().len(),
            forall|i: int|
                0 <= i < r.0@.len() ==> r.0@[i]@ == (#[trigger] old(
                    self,
                ).spec_windows()[i]).label@,
            final(self).spec_windows().len() == monitors@.len(),
            final(self).spec_monitor_count() == monitors@.len(),
            r.1@.len() == monitors@.len(),
            forall|i: int|
                0 <= i < monitors@.len() ==> {
                    let w = #[trigger] final(self).spec_windows()[i];
                    let p = r.1@[i];
                    &&& w.monitor == i
                    &&& p.label@ == w.label@
                    &&& p.label@.len() > "screenshot-window-"@.len() + spec_dec(i).len()
                    &&& p.label@.subrange(
                        0,
                        "screenshot-window-"@.len() + spec_dec(i).len() as int,
                    ) == "screenshot-window-"@ + spec_dec(i)
                    &&& p.monitor == i
                    &&& p.pos_x == monitors@[i].pos_x
                    &&& p.pos_y == monitors@[i].pos_y
                    &&& p.width == monitors@[i].width
                    &&& p.height == monitors@[i].height
                    &&& p.scale_milli == monitors@[i].scale_milli
                },
    {
        let leftovers = self.overlay_labels();
        self.windows = Vec::new();
        let n = monitors.len();
        let mut plans: Vec<WindowPlan> = Vec::new();
        let mut i: usize = 0;
        while i < n
            invariant
                n == monitors@.len(),
                n <= u32::MAX,
                i <= n,
                self.windows@.len() == i,
                plans@.len() == i,
                forall|j: int|
                    0 <= j < i ==> {
                        let w = #[trigger] self.windows@[j];
                        let p = plans@[j];
                        &&& w.monitor == j
                        &&& p.label@ == w.label@
                        &&& p.label@.len() > "screenshot-window-"@.len() + spec_dec(j).len()
                        &&& p.label@.subrange(
                            0,
                            "screenshot-window-"@.len() + spec_dec(j).len() as int,
                        ) == "screenshot-window-"@ + spec_dec(j)
                        &&& p.monitor == j
                        &&& p.pos_x == monitors@[j].pos_x
                        &&& p.pos_y == monitors@[j].pos_y
                        &&& p.width == monitors@[j].width
                        &&& p.height == monitors@[j].height
                        &&& p.scale_milli == monitors@[j].scale_milli
                    },
            decreases n - i,
        {
            let m = monitors[i];
            let mut label = overlay_label_prefix().to_owned();
            let num = fmt_u32(i as u32);
            label.append(num.as_str());
            label.append("-");
            let id = fresh_session_id();
            label.append(id.as_str());
            proof {
                reveal_strlit("-");
            }
            let mut window_label = String::new();
            window_label.append(label.as_str());
            self.windows.push(OverlayWindow { monitor: i as u32, label: window_label });
            plans.push(
                WindowPlan {
                    label,
                    monitor: i as u32,
                    pos_x: m.pos_x,
                    pos_y: m.pos_y,
                    width: m.width,
                    height: m.height,
                    scale_milli: m.scale_milli,
                },
            );
            assert(plans@[i as int].label@.subrange(
                0,
                "screenshot-window-"@.len() + spec_dec(i as int).len() as int,
            ) =~= "screenshot-window-"@ + spec_dec(i as int));
            proof {
                assert(self.windows@[i as int].monitor == i as u32);
                assert(plans@[i as int].monitor == i as u32);
                assert(plans@[i as int].scale_milli == monitors@[i as int].scale_milli);
                assert(plans@[i as int].label@ == self.windows@[i as int].label@);
            }
            i = i + 1;
        }
        self.monitor_count = n;
        self.state = SessionState::Spawning;
        (leftovers, plans)
    }

    /// Records that every overlay window is up and focused; the session
    /// now waits for the user's rectangle.
    pub fn all_visible(&mut self)
        requires
            old(self).wf(),
            old(self).spec_state() == SessionState::Spawning,
        ensures
            final(self).wf(),
            final(self).spec_state() == SessionState::AwaitingSelection,
            final(self).spec_windows() == old(self).spec_windows(),
            final(self).spec_monitor_count() == old(self).spec_monitor_count(),
    {
        self.state = SessionState::AwaitingSelection;
    }

    /// Accepts the rectangle one overlay reported and moves to capturing.
    ///
    /// Every overlay window — including the reporting one — is handed
    /// back for immediate destruction, and the overlay set is empty
    /// afterwards; the caller must wait `SETTLE_DELAY_MS` before invoking
    /// the capture itself.
    pub fn confirm_selection(&mut self) -> (to_destroy: Vec<String>)
        requires
            old(self).wf(),
            old(self).spec_state() == SessionState::AwaitingSelection,
        ensures
            final(self).wf(),
            final(self).spec_state() == SessionState::Capturing,
            final(self).spec_windows().len() == 0,
            to_destroy@.len() == old(self).spec_windows().len(),
            forall|i: int|
                0 <= i < to_destroy@.len() ==> to_destroy@[i]@ == (#[trigger] old(
                    self,
                ).spec_windows()[i]).label@,
    {
        let to_destroy = self.overlay_labels();
        self.windows = Vec::new();
        self.state = SessionState::Capturing;
        to_destroy
    }

    /// Tears down every overlay and returns to `Idle`, whatever the
    /// current phase. This is both the user's cancel path and the
    /// idempotent force-close command: afterwards no overlay is left.
    pub fn close_all(&mut self) -> (to_destroy: Vec<String>)
        requires
            old(self).wf(),
        ensures
            final(self).wf(),
            final(self).spec_state() == SessionState::Idle,
            final(self).spec_windows().len() == 0,
            to_destroy@.len() == old(self).spec_windows().len(),
            forall|i: int|
                0 <= i < to_destroy@.len() ==> to_destroy@[i]@ == (#[trigger] old(
                    self,
                ).spec_windows()[i]).label@,
    {
        let to_destroy = self.overlay_labels();
        self.windows = Vec::new();
        self.state = SessionState::Idle;
        to_destroy
    }

    /// The resting-state rule behind a capture cycle: a confirmed
    /// selection leaves the session `Capturing` and a cancel leaves it
    /// `Idle`, and in both states the overlay set is empty — so after any
    /// `start → cancel` or `start → select` cycle no overlay window is
    /// left before the next session may spawn.
    pub proof fn lemma_resting_states_have_no_overlay(&self)
        requires
            self.wf(),
            self.spec_state() == SessionState::Idle || self.spec_state()
                == SessionState::Capturing,
        ensures
            self.spec_windows().len() == 0,
    {
    }

    /// Records that capture and delivery finished, successfully or not:
    /// the session returns to `Idle` either way, and no overlay exists,
    /// so a failed capture never blocks the next session.
    pub fn finish(&mut self)
        requires
            old(self).wf(),
            old(self).spec_state() == SessionState::Capturing,
        ensures
            final(self).wf(),
            final(self).spec_state() == SessionState::Idle,
            final(self).spec_windows().len() == 0,
    {
        self.state = SessionState::Idle;
    }
}

} // verus!
