use crate::binary64::{clamp, Binary64};
use crate::lifecycle::{load_diagnostics, spec_load_diagnostics, Diagnostic, StoreLoad};
use vstd::prelude::*;

verus! {

/// The remembered window state, each field optional and independent of the others.
#[derive(Clone, Copy, Debug, PartialEq, Eq, Structural)]
pub struct WindowState {
    pub width: Option<Binary64>,
    pub height: Option<Binary64>,
    pub x: Option<Binary64>,
    pub y: Option<Binary64>,
    pub maximized: Option<bool>,
}

/// One operation on the live window, in physical pixels.
#[derive(Clone, Copy, Debug, PartialEq, Eq, Structural)]
pub enum WindowOp {
    Resize { width: u32, height: u32 },
    Reposition { x: i32, y: i32 },
    Maximize,
    Show,
    Focus,
}

/// What the store held under the window-state key.
#[derive(Clone, Copy, Debug, PartialEq, Eq, Structural)]
pub enum StoredState {
    Absent,
    /// A value was stored but does not have the shape of a window state.
    Malformed,
    Record(WindowState),
}

/// Everything decided at startup: what to report, then what to do to the
/// window, in order.
#[derive(Clone, Debug)]
pub struct StartupPlan {
    pub diagnostics: Vec<Diagnostic>,
    pub ops: Vec<WindowOp>,
}

/// A usable width or height: present, finite and strictly positive.
pub open spec fn valid_extent(v: Option<Binary64>) -> bool {
    match v {
        Some(b) => b.finite() && b.positive(),
        None => false,
    }
}

/// A usable coordinate: present and finite; negative values are allowed.
pub open spec fn valid_coordinate(v: Option<Binary64>) -> bool {
    match v {
        Some(b) => b.finite(),
        None => false,
    }
}

/// An extent rounded to the nearest pixel, limited to `u32`.
pub open spec fn physical_extent(b: Binary64) -> u32 {
    clamp(b.rounded(), 0, u32::MAX as int) as u32
}

/// A coordinate rounded to the nearest pixel, limited to `i32`.
pub open spec fn physical_coordinate(b: Binary64) -> i32 {
    clamp(b.rounded(), i32::MIN as int, i32::MAX as int) as i32
}

pub open spec fn is_geometry(op: WindowOp) -> bool {
    op is Resize || op is Reposition
}

impl WindowState {
    pub open spec fn spec_size_intent(self) -> Option<(u32, u32)> {
        if valid_extent(self.width) && valid_extent(self.height) {
            Some((physical_extent(self.width->0), physical_extent(self.height->0)))
        } else {
            None
        }
    }

    pub open spec fn spec_position_intent(self) -> Option<(i32, i32)> {
        if valid_coordinate(self.x) && valid_coordinate(self.y) {
            Some((physical_coordinate(self.x->0), physical_coordinate(self.y->0)))
        } else {
            None
        }
    }

    pub open spec fn spec_maximize(self) -> bool {
        self.maximized == Some(true)
    }

    /// Size, then position, then maximize, each only where it applies.
    pub open spec fn spec_restore_ops(self) -> Seq<WindowOp> {
        let size = match self.spec_size_intent() {
            Some((w, h)) => seq![WindowOp::Resize { width: w, height: h }],
            None => seq![],
        };
        let position = match self.spec_position_intent() {
            Some((x, y)) => seq![WindowOp::Reposition { x, y }],
            None => seq![],
        };
        let maximize = if self.spec_maximize() {
            seq![WindowOp::Maximize]
        } else {
            seq![]
        };
        size + position + maximize
    }

    /// The size to apply, if both width and height are usable.
    pub fn size_intent(&self) -> (r: Option<(u32, u32)>)
        ensures
            r == self.spec_size_intent(),
    {
        match (self.width, self.height) {
            (Some(w), Some(h)) => {
                if w.is_finite() && h.is_finite() && w.is_positive() && h.is_positive() {
                    Some((w.round_to_u32(), h.round_to_u32()))
                } else {
                    None
                }
            },
            _ => None,
        }
    }

    /// The position to apply, if both coordinates are usable.
    pub fn position_intent(&self) -> (r: Option<(i32, i32)>)
        ensures
            r == self.spec_position_intent(),
    {
        match (self.x, self.y) {
            (Some(x), Some(y)) => {
                if x.is_finite() && y.is_finite() {
                    Some((x.round_to_i32(), y.round_to_i32()))
                } else {
                    None
                }
            },
            _ => None,
        }
    }

    /// The operations that restore this state, in the order they must run.
    pub fn restore_ops(&self) -> (r: Vec<WindowOp>)
        ensures
            r@ == self.spec_restore_ops(),
    {
        let mut r: Vec<WindowOp> = Vec::new();
        match self.size_intent() {
            Some((width, height)) => r.push(WindowOp::Resize { width, height }),
            None => {},
        }
        match self.position_intent() {
            Some((x, y)) => r.push(WindowOp::Reposition { x, y }),
            None => {},
        }
        let maximize = match self.maximized {
            Some(m) => m,
            None => false,
        };
        if maximize {
            r.push(WindowOp::Maximize);
        }
        assert(r@ =~= self.spec_restore_ops());
        r
    }
}

pub open spec fn spec_parse_diagnostics(stored: StoredState) -> Seq<Diagnostic> {
    match stored {
        StoredState::Malformed => seq![Diagnostic::InvalidWindowState],
        _ => seq![],
    }
}

/// Restoring what was stored, then showing and focusing the window.
pub open spec fn spec_startup_ops(stored: StoredState) -> Seq<WindowOp> {
    let restore = match stored {
        StoredState::Record(s) => s.spec_restore_ops(),
        _ => seq![],
    };
    restore + seq![WindowOp::Show, WindowOp::Focus]
}

/// Decides the startup sequence from how the store loaded and what it held.
pub fn startup_plan(load: StoreLoad, stored: StoredState) -> (r: StartupPlan)
    ensures
        r.diagnostics@ == spec_load_diagnostics(load) + spec_parse_diagnostics(stored),
        r.ops@ == spec_startup_ops(stored),
{
    let mut diagnostics = load_diagnostics(load);
    let mut ops: Vec<WindowOp> = match stored {
        StoredState::Record(s) => s.restore_ops(),
        StoredState::Malformed => {
            diagnostics.push(Diagnostic::InvalidWindowState);
            Vec::new()
        },
        StoredState::Absent => Vec::new(),
    };
    ops.push(WindowOp::Show);
    ops.push(WindowOp::Focus);
    assert(diagnostics@ =~= spec_load_diagnostics(load) + spec_parse_diagnostics(stored));
    assert(ops@ =~= spec_startup_ops(stored));
    StartupPlan { diagnostics, ops }
}

/// No operation in `ops` resizes the window.
pub open spec fn no_resize(ops: Seq<WindowOp>) -> bool {
    forall|i: int| 0 <= i < ops.len() ==> !(#[trigger] ops[i] is Resize)
}

/// A width or height that is not finite, is zero or is negative.
pub open spec fn bad_extent(v: Option<Binary64>) -> bool {
    match v {
        Some(b) => !b.finite() || b.zero() || b.sign_negative(),
        None => false,
    }
}

/// A record that lacks a width or a height (in particular one that lacks
/// both) never resizes the window.
pub proof fn lemma_missing_extent_no_resize(s: WindowState)
    requires
        s.width is None || s.height is None,
    ensures
        no_resize(spec_startup_ops(StoredState::Record(s))),
{
    let ops = spec_startup_ops(StoredState::Record(s));
    assert(s.spec_size_intent() is None);
    assert forall|i: int| 0 <= i < ops.len() implies !(#[trigger] ops[i] is Resize) by {}
}

/// A record whose width or height is non-finite, zero or negative never
/// resizes the window, whatever the other field holds.
pub proof fn lemma_bad_extent_no_resize(s: WindowState)
    requires
        bad_extent(s.width) || bad_extent(s.height),
    ensures
        no_resize(spec_startup_ops(StoredState::Record(s))),
{
    let ops = spec_startup_ops(StoredState::Record(s));
    assert(s.spec_size_intent() is None);
    assert forall|i: int| 0 <= i < ops.len() implies !(#[trigger] ops[i] is Resize) by {}
}

/// A record with finite x and y (negative and fractional values included)
/// repositions the window to each coordinate rounded to the nearest integer
/// (limited to the `i32` range of physical coordinates).
pub proof fn lemma_finite_position_repositions(s: WindowState)
    requires
        valid_coordinate(s.x),
        valid_coordinate(s.y),
    ensures
        spec_startup_ops(StoredState::Record(s)).contains(
            WindowOp::Reposition {
                x: physical_coordinate(s.x->0),
                y: physical_coordinate(s.y->0),
            },
        ),
        i32::MIN <= s.x->0.rounded() <= i32::MAX ==> physical_coordinate(s.x->0) as int
            == s.x->0.rounded(),
        i32::MIN <= s.y->0.rounded() <= i32::MAX ==> physical_coordinate(s.y->0) as int
            == s.y->0.rounded(),
{
    let ops = spec_startup_ops(StoredState::Record(s));
    let k: int = if s.spec_size_intent() is Some {
        1
    } else {
        0
    };
    assert(ops[k] == WindowOp::Reposition {
        x: physical_coordinate(s.x->0),
        y: physical_coordinate(s.y->0),
    });
}

/// With the maximized flag set, the window is maximized, and only after every
/// resize and reposition.
pub proof fn lemma_maximize_after_geometry(s: WindowState)
    requires
        s.maximized == Some(true),
    ensures
        spec_startup_ops(StoredState::Record(s)).contains(WindowOp::Maximize),
        forall|i: int, j: int|
            0 <= i < spec_startup_ops(StoredState::Record(s)).len() && 0 <= j
                < spec_startup_ops(StoredState::Record(s)).len() && is_geometry(
                #[trigger] spec_startup_ops(StoredState::Record(s))[i],
            ) && #[trigger] spec_startup_ops(StoredState::Record(s))[j] == WindowOp::Maximize
                ==> i < j,
{
    let ops = spec_startup_ops(StoredState::Record(s));
    let k = s.spec_restore_ops().len() - 1;
    assert(ops[k] == WindowOp::Maximize);
    assert forall|i: int, j: int|
        0 <= i < ops.len() && 0 <= j < ops.len() && is_geometry(#[trigger] ops[i])
            && #[trigger] ops[j] == WindowOp::Maximize implies i < j by {
        assert(i < k);
        assert(j == k);
    }
}

/// An absent value is not parsed and adds no diagnostic; a malformed one adds
/// exactly one. Neither leads to a resize, reposition or maximize: the window
/// is only shown and focused.
pub proof fn lemma_absent_or_malformed(load: StoreLoad)
    ensures
        spec_parse_diagnostics(StoredState::Absent) == Seq::<Diagnostic>::empty(),
        spec_load_diagnostics(load) + spec_parse_diagnostics(StoredState::Absent)
            == spec_load_diagnostics(load),
        spec_parse_diagnostics(StoredState::Malformed) == seq![Diagnostic::InvalidWindowState],
        spec_startup_ops(StoredState::Absent) == seq![WindowOp::Show, WindowOp::Focus],
        spec_startup_ops(StoredState::Malformed) == seq![WindowOp::Show, WindowOp::Focus],
{
    assert(spec_load_diagnostics(load) + spec_parse_diagnostics(StoredState::Absent)
        =~= spec_load_diagnostics(load));
    assert(spec_startup_ops(StoredState::Absent) =~= seq![WindowOp::Show, WindowOp::Focus]);
    assert(spec_startup_ops(StoredState::Malformed) =~= seq![WindowOp::Show, WindowOp::Focus]);
}

} // verus!
