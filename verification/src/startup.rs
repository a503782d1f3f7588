//! What the shell does when the application starts, and what it does when
//! a global shortcut fires.

use vstd::prelude::*;
use crate::editor_fab::{
    create_editor_fab,
    create_editor_fab_step,
    lemma_fab_creation_spends_budget,
    FabStage,
};
use crate::host::{Notice, Reply, Request, Step};
use crate::overlay::{
    create_overlay,
    create_overlay_step,
    lemma_overlay_creation_spends_budget,
    lemma_toggle_spends_budget,
    toggle_overlay,
    toggle_overlay_step,
    OverlayStage,
    ToggleStage,
};
use crate::shortcuts::{
    action_for,
    binding,
    registration_order,
    successor,
    triggered,
    Action,
    OverlayEvent,
    Platform,
    Shortcut,
    ShortcutState,
};
use crate::window::WindowLabel;

verus! {

/// How far the startup has come.
#[derive(Clone, Copy, Debug, PartialEq, Eq, Structural)]
pub enum StartupStage {
    /// Nothing asked yet.
    Start,
    /// Asked for the shortcut of this action to be registered.
    Registering(Action),
    /// Asked for a notice that the shortcut of this action was refused.
    Noted(Action),
    /// Creating the overlay.
    Overlay(OverlayStage),
    /// Asked for a notice that the overlay could not be created.
    OverlayNoted,
    /// Creating the floating button.
    Fab(FabStage),
    /// Asked for a notice that the floating button could not be created.
    FabNoted,
}

/// How far the handling of a shortcut event has come.
#[derive(Clone, Copy, Debug, PartialEq, Eq, Structural)]
pub enum HotkeyStage {
    /// The event has arrived and nothing is asked yet.
    Received(Shortcut, ShortcutState),
    /// Toggling the overlay.
    Toggle(ToggleStage),
    /// Asked for an event to be broadcast to the overlay.
    Emitted,
}

/// What the startup does with a step of the creation of the floating
/// button, its last piece of work: a failure is noted and the startup
/// still ends well.
pub open spec fn startup_after_fab(inner: Step<FabStage, ()>) -> Step<StartupStage, ()> {
    match inner {
        Step::Ask { request, stage } => Step::Ask { request, stage: StartupStage::Fab(stage) },
        Step::Finish(Ok(_)) => Step::Finish(Ok(())),
        Step::Finish(Err(e)) => Step::Ask {
            request: Request::Log(Notice::FabNotCreated(e)),
            stage: StartupStage::FabNoted,
        },
    }
}

/// What the startup does with a step of the creation of the overlay: a
/// failure is noted, and either way the floating button comes next.
pub open spec fn startup_after_overlay(inner: Step<OverlayStage, ()>) -> Step<StartupStage, ()> {
    match inner {
        Step::Ask { request, stage } => Step::Ask { request, stage: StartupStage::Overlay(stage) },
        Step::Finish(Ok(_)) => startup_after_fab(
            create_editor_fab_step(FabStage::Start, Reply::Done),
        ),
        Step::Finish(Err(e)) => Step::Ask {
            request: Request::Log(Notice::OverlayNotCreated(e)),
            stage: StartupStage::OverlayNoted,
        },
    }
}

/// What the startup does once the shortcut of `action` is dealt with: the
/// next shortcut is registered, and after the last the windows are created.
pub open spec fn startup_after_shortcut(platform: Platform, action: Action) -> Step<
    StartupStage,
    (),
> {
    match successor(action) {
        Some(next) => Step::Ask {
            request: Request::Register(binding(platform, next)),
            stage: StartupStage::Registering(next),
        },
        None => startup_after_overlay(
            create_overlay_step(platform, OverlayStage::Start, Reply::Done),
        ),
    }
}

/// The startup. Every shortcut is registered, in registration order; then
/// the overlay is created, then the floating button. Nothing that fails
/// stops it: each failure is noted on the diagnostic output with the host's
/// words, the work goes on with the next piece, and the startup always ends
/// well.
pub open spec fn run_step(platform: Platform, stage: StartupStage, reply: Reply) -> Step<
    StartupStage,
    (),
> {
    match stage {
        StartupStage::Start => Step::Ask {
            request: Request::Register(binding(platform, registration_order()[0])),
            stage: StartupStage::Registering(registration_order()[0]),
        },
        StartupStage::Registering(action) => match reply.failure() {
            Some(e) => Step::Ask {
                request: Request::Log(Notice::ShortcutRejected(binding(platform, action), e)),
                stage: StartupStage::Noted(action),
            },
            None => startup_after_shortcut(platform, action),
        },
        StartupStage::Noted(action) => startup_after_shortcut(platform, action),
        StartupStage::Overlay(inner) => startup_after_overlay(
            create_overlay_step(platform, inner, reply),
        ),
        StartupStage::OverlayNoted => startup_after_fab(
            create_editor_fab_step(FabStage::Start, Reply::Done),
        ),
        StartupStage::Fab(inner) => startup_after_fab(create_editor_fab_step(inner, reply)),
        StartupStage::FabNoted => Step::Finish(Ok(())),
    }
}

/// What the handling of a shortcut does with a step of a toggle: it goes
/// along while the toggle asks, and ends well however the toggle ends.
pub open spec fn hotkey_after_toggle(inner: Step<ToggleStage, bool>) -> Step<HotkeyStage, ()> {
    match inner {
        Step::Ask { request, stage } => Step::Ask { request, stage: HotkeyStage::Toggle(stage) },
        Step::Finish(_) => Step::Finish(Ok(())),
    }
}

/// The handling of a shortcut event. A key that comes up, or a shortcut
/// that is not the shell's, does nothing. A bound shortcut whose key goes
/// down does the one thing it is bound to: the overlay is toggled, or one
/// event is broadcast to the overlay's content. The handling ends well
/// whatever the host answers.
pub open spec fn on_shortcut_step(platform: Platform, stage: HotkeyStage, reply: Reply) -> Step<
    HotkeyStage,
    (),
> {
    match stage {
        HotkeyStage::Received(shortcut, state) => match triggered(platform, shortcut, state) {
            None => Step::Finish(Ok(())),
            Some(Action::ToggleOverlay) => hotkey_after_toggle(
                toggle_overlay_step(platform, ToggleStage::Start, reply),
            ),
            Some(Action::Emit(event)) => Step::Ask {
                request: Request::Emit(WindowLabel::Overlay, event),
                stage: HotkeyStage::Emitted,
            },
        },
        HotkeyStage::Toggle(inner) => hotkey_after_toggle(
            toggle_overlay_step(platform, inner, reply),
        ),
        HotkeyStage::Emitted => Step::Finish(Ok(())),
    }
}

/// How many shortcuts are registered after that of `action`.
pub open spec fn shortcuts_after(action: Action) -> nat {
    match action {
        Action::ToggleOverlay => 5,
        Action::Emit(OverlayEvent::TogglePlay) => 4,
        Action::Emit(OverlayEvent::CycleSpeed) => 3,
        Action::Emit(OverlayEvent::Rewind) => 2,
        Action::Emit(OverlayEvent::ScrollUp) => 1,
        Action::Emit(OverlayEvent::ScrollDown) => 0,
    }
}

impl StartupStage {
    /// The most requests the startup can still make from this stage.
    pub open spec fn budget(self) -> nat {
        match self {
            StartupStage::Start => 25,
            StartupStage::Registering(action) => 14 + 2 * shortcuts_after(action),
            StartupStage::Noted(action) => 13 + 2 * shortcuts_after(action),
            StartupStage::Overlay(inner) => inner.budget() + 8,
            StartupStage::OverlayNoted => 7,
            StartupStage::Fab(inner) => inner.budget() + 1,
            StartupStage::FabNoted => 0,
        }
    }
}

impl HotkeyStage {
    /// The most requests the handling can still make from this stage.
    pub open spec fn budget(self) -> nat {
        match self {
            HotkeyStage::Received(_, _) => 8,
            HotkeyStage::Toggle(inner) => inner.budget(),
            HotkeyStage::Emitted => 0,
        }
    }
}

/// A step of the startup that asks leaves fewer requests to come.
pub proof fn lemma_startup_spends_budget(platform: Platform, stage: StartupStage, reply: Reply)
    ensures
        run_step(platform, stage, reply) matches Step::Ask { stage: next, .. } ==> next.budget()
            < stage.budget(),
{
    lemma_fab_creation_spends_budget(FabStage::Start, Reply::Done);
    lemma_overlay_creation_spends_budget(platform, OverlayStage::Start, Reply::Done);
    match stage {
        StartupStage::Overlay(inner) => lemma_overlay_creation_spends_budget(
            platform,
            inner,
            reply,
        ),
        StartupStage::Fab(inner) => lemma_fab_creation_spends_budget(inner, reply),
        _ => {},
    }
}

/// A step of the handling of a shortcut that asks leaves fewer requests to come.
pub proof fn lemma_hotkey_spends_budget(platform: Platform, stage: HotkeyStage, reply: Reply)
    ensures
        on_shortcut_step(platform, stage, reply) matches Step::Ask { stage: next, .. }
            ==> next.budget() < stage.budget(),
{
    match stage {
        HotkeyStage::Received(_, _) => lemma_toggle_spends_budget(
            platform,
            ToggleStage::Start,
            reply,
        ),
        HotkeyStage::Toggle(inner) => lemma_toggle_spends_budget(platform, inner, reply),
        _ => {},
    }
}

/// Carries a step of the creation of the floating button over into the startup.
fn continue_after_fab(inner: Step<FabStage, ()>) -> (step: Step<StartupStage, ()>)
    ensures
        step == startup_after_fab(inner),
{
    match inner {
        Step::Ask { request, stage } => Step::Ask { request, stage: StartupStage::Fab(stage) },
        Step::Finish(Ok(_)) => Step::Finish(Ok(())),
        Step::Finish(Err(e)) => Step::Ask {
            request: Request::Log(Notice::FabNotCreated(e)),
            stage: StartupStage::FabNoted,
        },
    }
}

/// Carries a step of the creation of the overlay over into the startup.
fn continue_after_overlay(inner: Step<OverlayStage, ()>) -> (step: Step<StartupStage, ()>)
    ensures
        step == startup_after_overlay(inner),
{
    match inner {
        Step::Ask { request, stage } => Step::Ask { request, stage: StartupStage::Overlay(stage) },
        Step::Finish(Ok(_)) => continue_after_fab(create_editor_fab(FabStage::Start, Reply::Done)),
        Step::Finish(Err(e)) => Step::Ask {
            request: Request::Log(Notice::OverlayNotCreated(e)),
            stage: StartupStage::OverlayNoted,
        },
    }
}

/// Goes on after the shortcut of `action` is dealt with.
fn continue_after_shortcut(platform: Platform, action: Action) -> (step: Step<StartupStage, ()>)
    ensures
        step == startup_after_shortcut(platform, action),
{
    match action.next() {
        Some(next) => Step::Ask {
            request: Request::Register(next.shortcut(platform)),
            stage: StartupStage::Registering(next),
        },
        None => continue_after_overlay(create_overlay(platform, OverlayStage::Start, Reply::Done)),
    }
}

/// One step of the startup.
pub fn run(platform: Platform, stage: StartupStage, reply: Reply) -> (step: Step<StartupStage, ()>)
    ensures
        step == run_step(platform, stage, reply),
        step matches Step::Ask { stage: next, .. } ==> next.budget() < stage.budget(),
{
    match stage {
        StartupStage::Start => {
            let first: Action = Action::first();
            Step::Ask {
                request: Request::Register(first.shortcut(platform)),
                stage: StartupStage::Registering(first),
            }
        },
        StartupStage::Registering(action) => match reply.into_failure() {
            Err(e) => Step::Ask {
                request: Request::Log(Notice::ShortcutRejected(action.shortcut(platform), e)),
                stage: StartupStage::Noted(action),
            },
            Ok(_) => continue_after_shortcut(platform, action),
        },
        StartupStage::Noted(action) => continue_after_shortcut(platform, action),
        StartupStage::Overlay(inner) => continue_after_overlay(
            create_overlay(platform, inner, reply),
        ),
        StartupStage::OverlayNoted => continue_after_fab(
            create_editor_fab(FabStage::Start, Reply::Done),
        ),
        StartupStage::Fab(inner) => continue_after_fab(create_editor_fab(inner, reply)),
        StartupStage::FabNoted => Step::Finish(Ok(())),
    }
}

/// Carries a step of a toggle over into the handling of a shortcut.
fn continue_after_toggle(inner: Step<ToggleStage, bool>) -> (step: Step<HotkeyStage, ()>)
    ensures
        step == hotkey_after_toggle(inner),
{
    match inner {
        Step::Ask { request, stage } => Step::Ask { request, stage: HotkeyStage::Toggle(stage) },
        Step::Finish(_) => Step::Finish(Ok(())),
    }
}

/// One step of the handling of a shortcut event.
pub fn on_shortcut(platform: Platform, stage: HotkeyStage, reply: Reply) -> (step: Step<
    HotkeyStage,
    (),
>)
    ensures
        step == on_shortcut_step(platform, stage, reply),
        step matches Step::Ask { stage: next, .. } ==> next.budget() < stage.budget(),
{
    match stage {
        HotkeyStage::Received(shortcut, state) => match action_for(platform, shortcut, state) {
            None => Step::Finish(Ok(())),
            Some(Action::ToggleOverlay) => continue_after_toggle(
                toggle_overlay(platform, ToggleStage::Start, reply),
            ),
            Some(Action::Emit(event)) => Step::Ask {
                request: Request::Emit(WindowLabel::Overlay, event),
                stage: HotkeyStage::Emitted,
            },
        },
        HotkeyStage::Toggle(inner) => continue_after_toggle(toggle_overlay(platform, inner, reply)),
        HotkeyStage::Emitted => Step::Finish(Ok(())),
    }
}

} // verus!
