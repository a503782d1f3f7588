//! The floating button: a small square window at the bottom-right of the
//! work area, created hidden and shown while a session runs.

use vstd::prelude::*;
use crate::geometry::{fab_origin, fab_position, monitor_or_fallback, MonitorInfo, PhysicalPosition};
use crate::host::{Reply, Request, Step};
use crate::window::{fab_spec, WindowLabel, WindowSpec};

verus! {

/// How far the search for a monitor has come.
#[derive(Clone, Copy, Debug, PartialEq, Eq, Structural)]
pub enum MonitorStage {
    /// Nothing asked yet.
    Start,
    /// Asked whether the reference window exists.
    Lookup,
    /// Asked for the monitor the reference window is on.
    Current,
    /// Asked for the primary monitor.
    Primary,
}

/// How far the creation of the floating button has come.
#[derive(Clone, Copy, Debug, PartialEq, Eq, Structural)]
pub enum FabStage {
    /// Nothing asked yet.
    Start,
    /// Asked whether the button exists.
    Lookup,
    /// Looking for the monitor to put it on.
    Monitor(MonitorStage),
    /// Asked for the window to be built; it goes to the position held here.
    Build(PhysicalPosition),
    /// Asked for the window to be moved into place.
    Place,
}

/// How far the hiding of the floating button has come.
#[derive(Clone, Copy, Debug, PartialEq, Eq, Structural)]
pub enum HideFabStage {
    /// Nothing asked yet.
    Start,
    /// Asked whether the button exists.
    Lookup,
    /// Asked for the button to be hidden.
    Hide,
}

/// The search for the monitor to lay out on: the monitor that shows the
/// window `label`, else the primary monitor, else the fallback display. It
/// never fails.
pub open spec fn monitor_info_step(label: WindowLabel, stage: MonitorStage, reply: Reply) -> Step<
    MonitorStage,
    MonitorInfo,
> {
    match stage {
        MonitorStage::Start => Step::Ask {
            request: Request::Lookup(label),
            stage: MonitorStage::Lookup,
        },
        MonitorStage::Lookup => if reply.flag() {
            Step::Ask { request: Request::QueryCurrentMonitor(label), stage: MonitorStage::Current }
        } else {
            Step::Ask { request: Request::QueryPrimaryMonitor, stage: MonitorStage::Primary }
        },
        MonitorStage::Current => match reply.monitor() {
            Some(m) => Step::Finish(Ok(m)),
            None => Step::Ask {
                request: Request::QueryPrimaryMonitor,
                stage: MonitorStage::Primary,
            },
        },
        MonitorStage::Primary => Step::Finish(Ok(monitor_or_fallback(reply.monitor()))),
    }
}

/// What the creation of the button does with a step of the monitor search:
/// it goes along while the search asks, and asks for the window once the
/// monitor is known.
pub open spec fn fab_after_monitor(inner: Step<MonitorStage, MonitorInfo>) -> Step<FabStage, ()> {
    match inner {
        Step::Ask { request, stage } => Step::Ask { request, stage: FabStage::Monitor(stage) },
        Step::Finish(Ok(m)) => Step::Ask {
            request: Request::Build(fab_spec()),
            stage: FabStage::Build(fab_origin(m)),
        },
        Step::Finish(Err(e)) => Step::Finish(Err(e)),
    }
}

/// The creation of the floating button. Where the button exists nothing is
/// done. Otherwise it is built hidden and then moved to the bottom-right of
/// the work area of the main window's monitor; a failure of either request
/// ends the routine with the host's words.
pub open spec fn create_editor_fab_step(stage: FabStage, reply: Reply) -> Step<FabStage, ()> {
    match stage {
        FabStage::Start => Step::Ask {
            request: Request::Lookup(WindowLabel::EditorFab),
            stage: FabStage::Lookup,
        },
        FabStage::Lookup => if reply.flag() {
            Step::Finish(Ok(()))
        } else {
            fab_after_monitor(monitor_info_step(WindowLabel::Main, MonitorStage::Start, reply))
        },
        FabStage::Monitor(inner) => fab_after_monitor(
            monitor_info_step(WindowLabel::Main, inner, reply),
        ),
        FabStage::Build(position) => match reply.failure() {
            Some(e) => Step::Finish(Err(e)),
            None => Step::Ask {
                request: Request::SetPosition(WindowLabel::EditorFab, position),
                stage: FabStage::Place,
            },
        },
        FabStage::Place => match reply.failure() {
            Some(e) => Step::Finish(Err(e)),
            None => Step::Finish(Ok(())),
        },
    }
}

/// The hiding of the floating button: hidden where it exists, and whether
/// the host manages to hide it makes no difference to the routine.
pub open spec fn hide_fab_step(stage: HideFabStage, reply: Reply) -> Step<HideFabStage, ()> {
    match stage {
        HideFabStage::Start => Step::Ask {
            request: Request::Lookup(WindowLabel::EditorFab),
            stage: HideFabStage::Lookup,
        },
        HideFabStage::Lookup => if reply.flag() {
            Step::Ask { request: Request::Hide(WindowLabel::EditorFab), stage: HideFabStage::Hide }
        } else {
            Step::Finish(Ok(()))
        },
        HideFabStage::Hide => Step::Finish(Ok(())),
    }
}

impl MonitorStage {
    /// The most requests the search can still make from this stage.
    pub open spec fn budget(self) -> nat {
        match self {
            MonitorStage::Start => 3,
            MonitorStage::Lookup => 2,
            MonitorStage::Current => 1,
            MonitorStage::Primary => 0,
        }
    }
}

impl FabStage {
    /// The most requests the creation can still make from this stage.
    pub open spec fn budget(self) -> nat {
        match self {
            FabStage::Start => 6,
            FabStage::Lookup => 5,
            FabStage::Monitor(inner) => inner.budget() + 2,
            FabStage::Build(_) => 1,
            FabStage::Place => 0,
        }
    }
}

impl HideFabStage {
    /// The most requests the hiding can still make from this stage.
    pub open spec fn budget(self) -> nat {
        match self {
            HideFabStage::Start => 2,
            HideFabStage::Lookup => 1,
            HideFabStage::Hide => 0,
        }
    }
}

/// A step of the monitor search that asks leaves fewer requests to come.
pub proof fn lemma_monitor_search_spends_budget(label: WindowLabel, stage: MonitorStage, reply: Reply)
    ensures
        monitor_info_step(label, stage, reply) matches Step::Ask { stage: next, .. }
            ==> next.budget() < stage.budget(),
{
}

/// A step of the button's creation that asks leaves fewer requests to come.
pub proof fn lemma_fab_creation_spends_budget(stage: FabStage, reply: Reply)
    ensures
        create_editor_fab_step(stage, reply) matches Step::Ask { stage: next, .. }
            ==> next.budget() < stage.budget(),
{
    match stage {
        FabStage::Lookup => lemma_monitor_search_spends_budget(
            WindowLabel::Main,
            MonitorStage::Start,
            reply,
        ),
        FabStage::Monitor(inner) => lemma_monitor_search_spends_budget(
            WindowLabel::Main,
            inner,
            reply,
        ),
        _ => {},
    }
}

/// A step of the button's hiding that asks leaves fewer requests to come.
pub proof fn lemma_fab_hiding_spends_budget(stage: HideFabStage, reply: Reply)
    ensures
        hide_fab_step(stage, reply) matches Step::Ask { stage: next, .. } ==> next.budget()
            < stage.budget(),
{
}

/// One step of the search for the monitor to lay out on.
pub fn monitor_info_for_window(label: WindowLabel, stage: MonitorStage, reply: Reply) -> (step:
    Step<MonitorStage, MonitorInfo>)
    ensures
        step == monitor_info_step(label, stage, reply),
        step matches Step::Ask { stage: next, .. } ==> next.budget() < stage.budget(),
{
    match stage {
        MonitorStage::Start => Step::Ask {
            request: Request::Lookup(label),
            stage: MonitorStage::Lookup,
        },
        MonitorStage::Lookup => {
            if reply.is_yes() {
                Step::Ask {
                    request: Request::QueryCurrentMonitor(label),
                    stage: MonitorStage::Current,
                }
            } else {
                Step::Ask { request: Request::QueryPrimaryMonitor, stage: MonitorStage::Primary }
            }
        },
        MonitorStage::Current => match reply.found_monitor() {
            Some(m) => Step::Finish(Ok(m)),
            None => Step::Ask {
                request: Request::QueryPrimaryMonitor,
                stage: MonitorStage::Primary,
            },
        },
        MonitorStage::Primary => Step::Finish(Ok(MonitorInfo::or_fallback(reply.found_monitor()))),
    }
}

/// Carries a step of the monitor search over into the creation of the button.
fn continue_after_monitor(inner: Step<MonitorStage, MonitorInfo>) -> (step: Step<FabStage, ()>)
    ensures
        step == fab_after_monitor(inner),
{
    match inner {
        Step::Ask { request, stage } => Step::Ask { request, stage: FabStage::Monitor(stage) },
        Step::Finish(Ok(m)) => Step::Ask {
            request: Request::Build(WindowSpec::editor_fab()),
            stage: FabStage::Build(fab_position(&m)),
        },
        Step::Finish(Err(e)) => Step::Finish(Err(e)),
    }
}

/// One step of the creation of the floating button.
pub fn create_editor_fab(stage: FabStage, reply: Reply) -> (step: Step<FabStage, ()>)
    ensures
        step == create_editor_fab_step(stage, reply),
        step matches Step::Ask { stage: next, .. } ==> next.budget() < stage.budget(),
{
    match stage {
        FabStage::Start => Step::Ask {
            request: Request::Lookup(WindowLabel::EditorFab),
            stage: FabStage::Lookup,
        },
        FabStage::Lookup => {
            if reply.is_yes() {
                Step::Finish(Ok(()))
            } else {
                continue_after_monitor(
                    monitor_info_for_window(WindowLabel::Main, MonitorStage::Start, reply),
                )
            }
        },
        FabStage::Monitor(inner) => continue_after_monitor(
            monitor_info_for_window(WindowLabel::Main, inner, reply),
        ),
        FabStage::Build(position) => match reply.into_failure() {
            Err(e) => Step::Finish(Err(e)),
            Ok(_) => Step::Ask {
                request: Request::SetPosition(WindowLabel::EditorFab, position),
                stage: FabStage::Place,
            },
        },
        FabStage::Place => match reply.into_failure() {
            Err(e) => Step::Finish(Err(e)),
            Ok(_) => Step::Finish(Ok(())),
        },
    }
}

/// One step of the hiding of the floating button.
pub fn hide_fab(stage: HideFabStage, reply: Reply) -> (step: Step<HideFabStage, ()>)
    ensures
        step == hide_fab_step(stage, reply),
        step matches Step::Ask { stage: next, .. } ==> next.budget() < stage.budget(),
{
    match stage {
        HideFabStage::Start => Step::Ask {
            request: Request::Lookup(WindowLabel::EditorFab),
            stage: HideFabStage::Lookup,
        },
        HideFabStage::Lookup => {
            if reply.is_yes() {
                Step::Ask {
                    request: Request::Hide(WindowLabel::EditorFab),
                    stage: HideFabStage::Hide,
                }
            } else {
                Step::Finish(Ok(()))
            }
        },
        HideFabStage::Hide => Step::Finish(Ok(())),
    }
}

} // verus!
