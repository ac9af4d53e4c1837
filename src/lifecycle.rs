use crate::restore::WindowOp;
use vstd::prelude::*;

verus! {

/// What happened when the settings store tried to read its backing file.
#[derive(Clone, Debug)]
pub enum StoreLoad {
    Loaded,
    /// The backing file does not exist yet: the store starts empty.
    NotFound,
    /// The file exists but could not be loaded; the detail describes why.
    Failed(String),
}

/// A non-fatal condition to report on the diagnostic stream.
#[derive(Clone, Debug)]
pub enum Diagnostic {
    StoreLoadFailed(String),
    InvalidWindowState,
    ShowFailed(String),
    FocusFailed(String),
}

/// The kind of event that the host delivers for a window.
#[derive(Clone, Copy, Debug, PartialEq, Eq, Structural)]
pub enum WindowEventKind {
    CloseRequested,
    Other,
}

/// What the process does in answer to a window event.
#[derive(Clone, Copy, Debug, PartialEq, Eq, Structural)]
pub enum LifecycleAction {
    /// Terminate the whole process with this exit code.
    ExitProcess(i32),
    Continue,
}

pub open spec fn spec_load_diagnostics(load: StoreLoad) -> Seq<Diagnostic> {
    match load {
        StoreLoad::Failed(detail) => seq![Diagnostic::StoreLoadFailed(detail)],
        _ => seq![],
    }
}

/// The diagnostics owed for a store load: one for a failed load, none for a
/// loaded store or a missing file.
pub fn load_diagnostics(load: StoreLoad) -> (r: Vec<Diagnostic>)
    ensures
        r@ == spec_load_diagnostics(load),
{
    let mut r: Vec<Diagnostic> = Vec::new();
    match load {
        StoreLoad::Failed(detail) => r.push(Diagnostic::StoreLoadFailed(detail)),
        _ => {},
    }
    r
}

pub open spec fn spec_failure_diagnostic(op: WindowOp, detail: String) -> Option<Diagnostic> {
    match op {
        WindowOp::Show => Some(Diagnostic::ShowFailed(detail)),
        WindowOp::Focus => Some(Diagnostic::FocusFailed(detail)),
        _ => None,
    }
}

/// What to report when a window operation fails. Failures to show or focus
/// the window are reported; a failed resize, reposition or maximize is not.
/// Either way the remaining operations still run.
pub fn failure_diagnostic(op: WindowOp, detail: String) -> (r: Option<Diagnostic>)
    ensures
        r == spec_failure_diagnostic(op, detail),
{
    match op {
        WindowOp::Show => Some(Diagnostic::ShowFailed(detail)),
        WindowOp::Focus => Some(Diagnostic::FocusFailed(detail)),
        _ => None,
    }
}

/// A close request on the window ends the whole process, not only the window.
pub fn on_window_event(event: WindowEventKind) -> (r: LifecycleAction)
    ensures
        event == WindowEventKind::CloseRequested ==> r == LifecycleAction::ExitProcess(0),
        event != WindowEventKind::CloseRequested ==> r == LifecycleAction::Continue,
{
    match event {
        WindowEventKind::CloseRequested => LifecycleAction::ExitProcess(0),
        WindowEventKind::Other => LifecycleAction::Continue,
    }
}

} // verus!
