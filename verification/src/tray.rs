//! Tray-icon selection and the draw-mode toggle.
//!
//! The tray icon reflects the current drawing state: while drawing, each
//! known pen color (by hex value or name) maps to a fixed colored icon
//! asset; unknown colors and the non-drawing state fall back to the
//! template icon.

use vstd::prelude::*;

verus! {

/// Exact string equality over character sequences.
fn str_eq(a: &str, b: &str) -> (r: bool)
    ensures
        r == (a@ == b@),
{
    let na = a.unicode_len();
    let nb = b.unicode_len();
    if na != nb {
        return false;
    }
    let mut k: usize = 0;
    while k < na
        invariant
            na == a@.len(),
            nb == b@.len(),
            na == nb,
            k <= na,
            forall|t: int| 0 <= t < k ==> a@[t] == b@[t],
        decreases na - k,
    {
        if a.get_char(k) != b.get_char(k) {
            return false;
        }
        k = k + 1;
    }
    proof {
        assert(a@ =~= b@);
    }
    true
}

/// The icon asset shown while not drawing, and for unknown colors.
pub open spec fn template_icon() -> Seq<char> {
    "icons/iconTemplate.png"@
}

/// The icon asset for a pen color and drawing state.
pub open spec fn spec_icon_path(color: Seq<char>, is_drawing: bool) -> Seq<char> {
    if !is_drawing {
        template_icon()
    } else if color == "#ff0000"@ || color == "red"@ {
        "icons/icon-red.png"@
    } else if color == "#0000ff"@ || color == "blue"@ {
        "icons/icon-blue.png"@
    } else if color == "#00ff00"@ || color == "green"@ {
        "icons/icon-green.png"@
    } else if color == "#ffff00"@ || color == "yellow"@ {
        "icons/icon-yellow.png"@
    } else if color == "#ff00ff"@ || color == "black"@ {
        "icons/icon-pink.png"@
    } else if color == "#ffa500"@ || color == "orange"@ {
        "icons/icon-orange.png"@
    } else {
        template_icon()
    }
}

/// Picks the tray icon asset for a pen color and drawing state.
pub fn icon_path_for(color: &str, is_drawing: bool) -> (r: String)
    ensures
        r@ == spec_icon_path(color@, is_drawing),
{
    let path: &str = if !is_drawing {
        "icons/iconTemplate.png"
    } else if str_eq(color, "#ff0000") || str_eq(color, "red") {
        "icons/icon-red.png"
    } else if str_eq(color, "#0000ff") || str_eq(color, "blue") {
        "icons/icon-blue.png"
    } else if str_eq(color, "#00ff00") || str_eq(color, "green") {
        "icons/icon-green.png"
    } else if str_eq(color, "#ffff00") || str_eq(color, "yellow") {
        "icons/icon-yellow.png"
    } else if str_eq(color, "#ff00ff") || str_eq(color, "black") {
        "icons/icon-pink.png"
    } else if str_eq(color, "#ffa500") || str_eq(color, "orange") {
        "icons/icon-orange.png"
    } else {
        "icons/iconTemplate.png"
    };
    path.to_owned()
}

/// What the draw-mode toggle does, given whether any draw overlay is
/// currently visible: a visible overlay means drawing is on and must stop,
/// otherwise it starts; the tray menu's check mark follows the new state.
#[derive(Debug, Clone, Copy, PartialEq, Eq, Structural)]
pub enum DrawCommand {
    StartDraw,
    StopDraw,
}

/// The draw toggle's decision and the menu check mark it leaves behind.
pub fn toggle_draw_decision(any_overlay_visible: bool) -> (r: (DrawCommand, bool))
    ensures
        any_overlay_visible ==> r == (DrawCommand::StopDraw, false),
        !any_overlay_visible ==> r == (DrawCommand::StartDraw, true),
{
    if any_overlay_visible {
        (DrawCommand::StopDraw, false)
    } else {
        (DrawCommand::StartDraw, true)
    }
}

} // verus!
