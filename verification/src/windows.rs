//! Per-monitor window planning.
//!
//! Several features put one full-screen window on every monitor: the draw
//! overlays, the break-timer screens and the splash screens. A window plan
//! fixes what the toolkit needs to build such a window — a unique label
//! derived from the monitor's position in the enumeration, and a position
//! and size covering exactly that monitor's physical bounds. The toolkit
//! layer adds its fixed chrome flags (borderless, always-on-top, and so
//! on), which carry no per-monitor information.

use crate::capture::MonitorDescriptor;
use crate::capture::monitors_wf;
use vstd::prelude::*;

verus! {

/// The decimal digit character for a value below ten.
pub open spec fn dec_digit(d: int) -> char
    recommends
        0 <= d < 10,
{
    ((48 + d) as u8) as char
}

/// The decimal rendering of a non-negative number, most significant digit
/// first, without leading zeros.
pub open spec fn spec_dec(n: int) -> Seq<char>
    recommends
        n >= 0,
    decreases n,
{
    if n < 10 {
        seq![dec_digit(n)]
    } else {
        spec_dec(n / 10) + seq![dec_digit(n % 10)]
    }
}

/// The single-character string for one decimal digit.
fn digit_str(d: u32) -> (r: String)
    requires
        d < 10,
    ensures
        r@ == seq![dec_digit(d as int)],
{
    proof {
        reveal_strlit("0");
        reveal_strlit("1");
        reveal_strlit("2");
        reveal_strlit("3");
        reveal_strlit("4");
        reveal_strlit("5");
        reveal_strlit("6");
        reveal_strlit("7");
        reveal_strlit("8");
        reveal_strlit("9");
    }
    let s: &str = if d == 0 {
        "0"
    } else if d == 1 {
        "1"
    } else if d == 2 {
        "2"
    } else if d == 3 {
        "3"
    } else if d == 4 {
        "4"
    } else if d == 5 {
        "5"
    } else if d == 6 {
        "6"
    } else if d == 7 {
        "7"
    } else if d == 8 {
        "8"
    } else {
        "9"
    };
    assert(s@ =~= seq![dec_digit(d as int)]);
    s.to_owned()
}

/// Renders a number in decimal.
pub fn fmt_u32(n: u32) -> (r: String)
    ensures
        r@ == spec_dec(n as int),
    decreases n,
{
    if n < 10 {
        digit_str(n)
    } else {
        let mut s = fmt_u32(n / 10);
        let last = digit_str(n % 10);
        s.append(last.as_str());
        s
    }
}

/// Everything monitor-specific about one full-screen toolkit window.
///
/// The monitor index and scale factor are injected into the window so a
/// selection drawn on it can be reported in the correct coordinate frame.
#[derive(Debug, Clone, PartialEq, Eq)]
pub struct WindowPlan {
    /// The window's unique label.
    pub label: String,
    /// The monitor this window covers, by enumeration index.
    pub monitor: u32,
    /// Top-left corner, in the global physical coordinate space.
    pub pos_x: i32,
    pub pos_y: i32,
    /// Size, in physical pixels.
    pub width: u32,
    pub height: u32,
    /// The monitor's scale factor in thousandths.
    pub scale_milli: u32,
}

impl WindowPlan {
    /// The plan covers exactly the monitor's physical bounds, is labelled
    /// with the given prefix and the monitor's index, and carries that
    /// monitor's index and scale factor.
    pub open spec fn covers(&self, prefix: Seq<char>, index: int, m: MonitorDescriptor) -> bool {
        &&& self.label@ == prefix + spec_dec(index)
        &&& self.monitor == index
        &&& self.pos_x == m.pos_x
        &&& self.pos_y == m.pos_y
        &&& self.width == m.width
        &&& self.height == m.height
        &&& self.scale_milli == m.scale_milli
    }
}

/// One window plan per enumerated monitor, in enumeration order, each
/// labelled `prefix` followed by its monitor index and covering exactly
/// that monitor's bounds.
pub fn monitor_window_plans(prefix: &str, monitors: &Vec<MonitorDescriptor>) -> (r: Vec<
    WindowPlan,
>)
    requires
        monitors_wf(monitors@),
        monitors@.len() <= u32::MAX,
    ensures
        r@.len() == monitors@.len(),
        forall|i: int|
            0 <= i < r@.len() ==> (#[trigger] r@[i]).covers(prefix@, i, monitors@[i]),
{
    let mut r: Vec<WindowPlan> = Vec::new();
    let n = monitors.len();
    let mut i: usize = 0;
    while i < n
        invariant
            n == monitors@.len(),
            n <= u32::MAX,
            i <= n,
            r@.len() == i,
            forall|j: int|
                0 <= j < i ==> (#[trigger] r@[j]).covers(prefix@, j, monitors@[j]),
        decreases n - i,
    {
        let m = monitors[i];
        let mut label = prefix.to_owned();
        let num = fmt_u32(i as u32);
        label.append(num.as_str());
        r.push(
            WindowPlan {
                label,
                monitor: i as u32,
                pos_x: m.pos_x,
                pos_y: m.pos_y,
                width: m.width,
                height: m.height,
                scale_milli: m.scale_milli,
            },
        );
        i = i + 1;
    }
    r
}

/// Whether a window label begins with the given family prefix. Broadcasts
/// and teardowns select their windows by this test.
pub fn label_has_prefix(label: &str, prefix: &str) -> (r: bool)
    ensures
        r == (label@.len() >= prefix@.len() && label@.subrange(0, prefix@.len() as int)
            == prefix@),
{
    let nl = label.unicode_len();
    let np = prefix.unicode_len();
    if nl < np {
        return false;
    }
    let mut k: usize = 0;
    while k < np
        invariant
            nl == label@.len(),
            np == prefix@.len(),
            np <= nl,
            k <= np,
            forall|t: int| 0 <= t < k ==> label@[t] == prefix@[t],
        decreases np - k,
    {
        if label.get_char(k) != prefix.get_char(k) {
            proof {
                assert(label@.subrange(0, np as int)[k as int] != prefix@[k as int]);
            }
            return false;
        }
        k = k + 1;
    }
    proof {
        assert(label@.subrange(0, np as int) =~= prefix@);
    }
    true
}

/// The label prefix of the draw-overlay window on each monitor.
pub fn draw_window_prefix() -> (r: &'static str)
    ensures
        r@ == "draw-window-"@,
{
    "draw-window-"
}

/// The label prefix of the break-timer window on each monitor.
pub fn break_window_prefix() -> (r: &'static str)
    ensures
        r@ == "break-window-"@,
{
    "break-window-"
}

/// The label prefix of the splash window on each monitor.
pub fn splash_window_prefix() -> (r: &'static str)
    ensures
        r@ == "splash-window-"@,
{
    "splash-window-"
}

/// How long a splash window stays up before it is closed, in milliseconds.
pub const SPLASH_DURATION_MS: u64 = 3200;

/// How long after creation an overlay window is focused again, in
/// milliseconds, to win races with the platform's focus handling.
pub const OVERLAY_REFOCUS_MS: u64 = 100;

} // verus!
