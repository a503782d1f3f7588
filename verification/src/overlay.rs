//! The overlay: the window that shows the teleprompter text, centred at the
//! top of the work area, above every other window and absent from screen
//! captures.

use vstd::prelude::*;
use crate::geometry::{
    monitor_or_fallback,
    overlay_origin,
    overlay_position,
    MonitorInfo,
    PhysicalPosition,
    CORNER_RADIUS,
};
use crate::host::{Reply, Request, Step};
use crate::shortcuts::Platform;
use crate::window::{overlay_spec, WindowLabel, WindowSpec};

verus! {

/// How far the creation of the overlay has come.
#[derive(Clone, Copy, Debug, PartialEq, Eq, Structural)]
pub enum OverlayStage {
    /// Nothing asked yet.
    Start,
    /// Asked whether the overlay exists.
    Lookup,
    /// Asked for the primary monitor.
    Monitor,
    /// Asked for the window to be built; it goes to the position held here.
    Build(PhysicalPosition),
    /// Asked for the window to be moved into place.
    Place,
    /// Asked for the bottom corners to be rounded.
    Round,
}

/// How far a toggle of the overlay has come.
#[derive(Clone, Copy, Debug, PartialEq, Eq, Structural)]
pub enum ToggleStage {
    /// Nothing asked yet.
    Start,
    /// Asked whether the overlay exists.
    Lookup,
    /// Asked whether the overlay is visible.
    Visible,
    /// Asked for the overlay to be shown or hidden; it was visible before
    /// if the flag held here says so.
    Apply(bool),
    /// The overlay did not exist and is being created.
    Create(OverlayStage),
    /// Asked for the overlay just created to be shown.
    Reveal,
}

/// The request that gives the overlay its shape on `platform`: on macOS the
/// two bottom corners are rounded on the window's own layer; elsewhere the
/// window stays as it was built.
pub open spec fn corner_request(platform: Platform) -> Option<Request> {
    match platform {
        Platform::MacOs => Some(Request::RoundBottomCorners(WindowLabel::Overlay, CORNER_RADIUS)),
        Platform::Other => None,
    }
}

/// The creation of the overlay. Where the overlay exists nothing is done.
/// Otherwise it is built hidden on the primary monitor (the fallback
/// display where the host knows none), moved to the top centre of the work
/// area, and given its shape; a failure to build or to move ends the
/// routine with the host's words, a failure to shape does not.
pub open spec fn create_overlay_step(platform: Platform, stage: OverlayStage, reply: Reply) -> Step<
    OverlayStage,
    (),
> {
    match stage {
        OverlayStage::Start => Step::Ask {
            request: Request::Lookup(WindowLabel::Overlay),
            stage: OverlayStage::Lookup,
        },
        OverlayStage::Lookup => if reply.flag() {
            Step::Finish(Ok(()))
        } else {
            Step::Ask { request: Request::QueryPrimaryMonitor, stage: OverlayStage::Monitor }
        },
        OverlayStage::Monitor => {
            let m = monitor_or_fallback(reply.monitor());
            Step::Ask {
                request: Request::Build(overlay_spec(m)),
                stage: OverlayStage::Build(overlay_origin(m)),
            }
        },
        OverlayStage::Build(position) => match reply.failure() {
            Some(e) => Step::Finish(Err(e)),
            None => Step::Ask {
                request: Request::SetPosition(WindowLabel::Overlay, position),
                stage: OverlayStage::Place,
            },
        },
        OverlayStage::Place => match reply.failure() {
            Some(e) => Step::Finish(Err(e)),
            None => match corner_request(platform) {
                Some(request) => Step::Ask { request, stage: OverlayStage::Round },
                None => Step::Finish(Ok(())),
            },
        },
        OverlayStage::Round => Step::Finish(Ok(())),
    }
}

/// What a toggle does with a step of the overlay's creation: it goes along
/// while the creation asks, and asks for the new overlay to be shown once
/// it is there.
pub open spec fn toggle_after_create(inner: Step<OverlayStage, ()>) -> Step<ToggleStage, bool> {
    match inner {
        Step::Ask { request, stage } => Step::Ask { request, stage: ToggleStage::Create(stage) },
        Step::Finish(Ok(_)) => Step::Ask {
            request: Request::Show(WindowLabel::Overlay),
            stage: ToggleStage::Reveal,
        },
        Step::Finish(Err(e)) => Step::Finish(Err(e)),
    }
}

/// A toggle of the overlay. An overlay that exists is hidden where it was
/// visible and shown where it was not, and the routine ends with the new
/// visibility. An overlay that does not exist is created and shown, and the
/// routine ends with `true`. A failure of any request but the shaping of a
/// new overlay ends the routine with the host's words.
pub open spec fn toggle_overlay_step(platform: Platform, stage: ToggleStage, reply: Reply) -> Step<
    ToggleStage,
    bool,
> {
    match stage {
        ToggleStage::Start => Step::Ask {
            request: Request::Lookup(WindowLabel::Overlay),
            stage: ToggleStage::Lookup,
        },
        ToggleStage::Lookup => if reply.flag() {
            Step::Ask { request: Request::QueryVisible(WindowLabel::Overlay), stage: ToggleStage::Visible }
        } else {
            toggle_after_create(create_overlay_step(platform, OverlayStage::Lookup, reply))
        },
        ToggleStage::Visible => match reply.failure() {
            Some(e) => Step::Finish(Err(e)),
            None => if reply.flag() {
                Step::Ask {
                    request: Request::Hide(WindowLabel::Overlay),
                    stage: ToggleStage::Apply(true),
                }
            } else {
                Step::Ask {
                    request: Request::Show(WindowLabel::Overlay),
                    stage: ToggleStage::Apply(false),
                }
            },
        },
        ToggleStage::Apply(was_visible) => match reply.failure() {
            Some(e) => Step::Finish(Err(e)),
            None => Step::Finish(Ok(!was_visible)),
        },
        ToggleStage::Create(inner) => toggle_after_create(
            create_overlay_step(platform, inner, reply),
        ),
        ToggleStage::Reveal => match reply.failure() {
            Some(e) => Step::Finish(Err(e)),
            None => Step::Finish(Ok(true)),
        },
    }
}

impl OverlayStage {
    /// The most requests the creation can still make from this stage.
    pub open spec fn budget(self) -> nat {
        match self {
            OverlayStage::Start => 5,
            OverlayStage::Lookup => 4,
            OverlayStage::Monitor => 3,
            OverlayStage::Build(_) => 2,
            OverlayStage::Place => 1,
            OverlayStage::Round => 0,
        }
    }
}

impl ToggleStage {
    /// The most requests the toggle can still make from this stage.
    pub open spec fn budget(self) -> nat {
        match self {
            ToggleStage::Start => 7,
            ToggleStage::Lookup => 6,
            ToggleStage::Visible => 1,
            ToggleStage::Apply(_) => 0,
            ToggleStage::Create(inner) => inner.budget() + 1,
            ToggleStage::Reveal => 0,
        }
    }
}

/// A step of the overlay's creation that asks leaves fewer requests to come.
pub proof fn lemma_overlay_creation_spends_budget(
    platform: Platform,
    stage: OverlayStage,
    reply: Reply,
)
    ensures
        create_overlay_step(platform, stage, reply) matches Step::Ask { stage: next, .. }
            ==> next.budget() < stage.budget(),
{
}

/// A step of a toggle that asks leaves fewer requests to come.
pub proof fn lemma_toggle_spends_budget(platform: Platform, stage: ToggleStage, reply: Reply)
    ensures
        toggle_overlay_step(platform, stage, reply) matches Step::Ask { stage: next, .. }
            ==> next.budget() < stage.budget(),
{
    match stage {
        ToggleStage::Lookup => lemma_overlay_creation_spends_budget(
            platform,
            OverlayStage::Lookup,
            reply,
        ),
        ToggleStage::Create(inner) => lemma_overlay_creation_spends_budget(platform, inner, reply),
        _ => {},
    }
}

/// The request that gives the overlay its shape on `platform`, if the
/// platform needs one.
pub fn apply_bottom_rounded_corners(platform: Platform) -> (request: Option<Request>)
    ensures
        request == corner_request(platform),
{
    match platform {
        Platform::MacOs => Some(Request::RoundBottomCorners(WindowLabel::Overlay, CORNER_RADIUS)),
        Platform::Other => None,
    }
}

/// One step of the creation of the overlay.
pub fn create_overlay(platform: Platform, stage: OverlayStage, reply: Reply) -> (step: Step<
    OverlayStage,
    (),
>)
    ensures
        step == create_overlay_step(platform, stage, reply),
        step matches Step::Ask { stage: next, .. } ==> next.budget() < stage.budget(),
{
    match stage {
        OverlayStage::Start => Step::Ask {
            request: Request::Lookup(WindowLabel::Overlay),
            stage: OverlayStage::Lookup,
        },
        OverlayStage::Lookup => {
            if reply.is_yes() {
                Step::Finish(Ok(()))
            } else {
                Step::Ask { request: Request::QueryPrimaryMonitor, stage: OverlayStage::Monitor }
            }
        },
        OverlayStage::Monitor => {
            let m: MonitorInfo = MonitorInfo::or_fallback(reply.found_monitor());
            Step::Ask {
                request: Request::Build(WindowSpec::overlay(&m)),
                stage: OverlayStage::Build(overlay_position(&m)),
            }
        },
        OverlayStage::Build(position) => match reply.into_failure() {
            Err(e) => Step::Finish(Err(e)),
            Ok(_) => Step::Ask {
                request: Request::SetPosition(WindowLabel::Overlay, position),
                stage: OverlayStage::Place,
            },
        },
        OverlayStage::Place => match reply.into_failure() {
            Err(e) => Step::Finish(Err(e)),
            Ok(_) => match apply_bottom_rounded_corners(platform) {
                Some(request) => Step::Ask { request, stage: OverlayStage::Round },
                None => Step::Finish(Ok(())),
            },
        },
        OverlayStage::Round => Step::Finish(Ok(())),
    }
}

/// Carries a step of the overlay's creation over into a toggle.
fn continue_after_create(inner: Step<OverlayStage, ()>) -> (step: Step<ToggleStage, bool>)
    ensures
        step == toggle_after_create(inner),
{
    match inner {
        Step::Ask { request, stage } => Step::Ask { request, stage: ToggleStage::Create(stage) },
        Step::Finish(Ok(_)) => Step::Ask {
            request: Request::Show(WindowLabel::Overlay),
            stage: ToggleStage::Reveal,
        },
        Step::Finish(Err(e)) => Step::Finish(Err(e)),
    }
}

/// One step of a toggle of the overlay.
pub fn toggle_overlay(platform: Platform, stage: ToggleStage, reply: Reply) -> (step: Step<
    ToggleStage,
    bool,
>)
    ensures
        step == toggle_overlay_step(platform, stage, reply),
        step matches Step::Ask { stage: next, .. } ==> next.budget() < stage.budget(),
{
    match stage {
        ToggleStage::Start => Step::Ask {
            request: Request::Lookup(WindowLabel::Overlay),
            stage: ToggleStage::Lookup,
        },
        ToggleStage::Lookup => {
            if reply.is_yes() {
                Step::Ask {
                    request: Request::QueryVisible(WindowLabel::Overlay),
                    stage: ToggleStage::Visible,
                }
            } else {
                continue_after_create(create_overlay(platform, OverlayStage::Lookup, reply))
            }
        },
        ToggleStage::Visible => match reply.into_failure() {
            Err(e) => Step::Finish(Err(e)),
            Ok(answer) => {
                if answer.is_yes() {
                    Step::Ask {
                        request: Request::Hide(WindowLabel::Overlay),
                        stage: ToggleStage::Apply(true),
                    }
                } else {
                    Step::Ask {
                        request: Request::Show(WindowLabel::Overlay),
                        stage: ToggleStage::Apply(false),
                    }
                }
            },
        },
        ToggleStage::Apply(was_visible) => match reply.into_failure() {
            Err(e) => Step::Finish(Err(e)),
            Ok(_) => Step::Finish(Ok(!was_visible)),
        },
        ToggleStage::Create(inner) => continue_after_create(create_overlay(platform, inner, reply)),
        ToggleStage::Reveal => match reply.into_failure() {
            Err(e) => Step::Finish(Err(e)),
            Ok(_) => Step::Finish(Ok(true)),
        },
    }
}

} // verus!
