//! The commands the front end can invoke. Each is a routine that ends
//! with a value for the caller or with the host's words for a failure.

use vstd::prelude::*;
use crate::editor_fab::{
    create_editor_fab,
    create_editor_fab_step,
    hide_fab,
    hide_fab_step,
    lemma_fab_creation_spends_budget,
    lemma_fab_hiding_spends_budget,
    FabStage,
    HideFabStage,
};
use crate::host::{Reply, Request, Step};
use crate::overlay;
use crate::overlay::{
    create_overlay_step,
    lemma_overlay_creation_spends_budget,
    lemma_toggle_spends_budget,
    toggle_overlay_step,
    OverlayStage,
    ToggleStage,
};
use crate::shortcuts::Platform;
use crate::window::WindowLabel;

verus! {

/// The commands, by what they do.
#[derive(Clone, Copy, Debug, PartialEq, Eq, Structural)]
pub enum Command {
    ToggleOverlay,
    CreateOverlay,
    StartTeleprompterSession,
    HideOverlay,
    RestoreEditor,
}

/// What a command hands back to the front end when it succeeds.
#[derive(Clone, Copy, Debug, PartialEq, Eq, Structural)]
pub enum Outcome {
    /// Nothing but the fact that it succeeded.
    Unit,
    /// The overlay's visibility after a toggle.
    Visibility(bool),
}

/// How far the start of a session has come.
#[derive(Clone, Copy, Debug, PartialEq, Eq, Structural)]
pub enum SessionStage {
    /// Making sure the floating button exists.
    Fab(FabStage),
    /// Asked whether the overlay exists.
    OverlayLookup,
    /// Asked for the overlay to be shown.
    OverlayShow,
    /// Asked whether the floating button exists.
    FabLookup,
    /// Asked for the floating button to be shown.
    FabShow,
    /// Asked whether the main window exists.
    MainLookup,
    /// Asked for the main window to be hidden.
    MainHide,
}

/// How far the hiding of the overlay has come.
#[derive(Clone, Copy, Debug, PartialEq, Eq, Structural)]
pub enum HideOverlayStage {
    /// Nothing asked yet.
    Start,
    /// Asked whether the overlay exists.
    Lookup,
    /// Asked for the overlay to be hidden.
    Hide,
}

/// How far the return to the editor has come.
#[derive(Clone, Copy, Debug, PartialEq, Eq, Structural)]
pub enum RestoreStage {
    /// Nothing asked yet.
    Start,
    /// Asked whether the main window exists.
    MainLookup,
    /// Asked for the main window to be shown.
    MainShow,
    /// Asked for the main window to be focused.
    MainFocus,
    /// Hiding the floating button.
    Fab(HideFabStage),
}

/// Where a command stands.
#[derive(Clone, Copy, Debug, PartialEq, Eq, Structural)]
pub enum CommandStage {
    Toggle(ToggleStage),
    Create(OverlayStage),
    Session(SessionStage),
    HideOverlay(HideOverlayStage),
    Restore(RestoreStage),
}

/// The toggle command: a toggle of the overlay, handing back the new
/// visibility.
pub open spec fn toggle_command_step(platform: Platform, stage: ToggleStage, reply: Reply) -> Step<
    CommandStage,
    Outcome,
> {
    match toggle_overlay_step(platform, stage, reply) {
        Step::Ask { request, stage } => Step::Ask { request, stage: CommandStage::Toggle(stage) },
        Step::Finish(Ok(visible)) => Step::Finish(Ok(Outcome::Visibility(visible))),
        Step::Finish(Err(e)) => Step::Finish(Err(e)),
    }
}

/// The create command: the creation of the overlay.
pub open spec fn create_command_step(platform: Platform, stage: OverlayStage, reply: Reply) -> Step<
    CommandStage,
    Outcome,
> {
    match create_overlay_step(platform, stage, reply) {
        Step::Ask { request, stage } => Step::Ask { request, stage: CommandStage::Create(stage) },
        Step::Finish(Ok(_)) => Step::Finish(Ok(Outcome::Unit)),
        Step::Finish(Err(e)) => Step::Finish(Err(e)),
    }
}

/// The start of a session within its own stages: the floating button is
/// made sure of first; then the overlay is shown, the button is shown and
/// the main window is hidden, each only where it exists. The first request
/// that fails ends the routine with the host's words.
pub open spec fn session_step(stage: SessionStage, reply: Reply) -> Step<SessionStage, ()> {
    match stage {
        SessionStage::Fab(inner) => match create_editor_fab_step(inner, reply) {
            Step::Ask { request, stage } => Step::Ask { request, stage: SessionStage::Fab(stage) },
            Step::Finish(Ok(_)) => Step::Ask {
                request: Request::Lookup(WindowLabel::Overlay),
                stage: SessionStage::OverlayLookup,
            },
            Step::Finish(Err(e)) => Step::Finish(Err(e)),
        },
        SessionStage::OverlayLookup => if reply.flag() {
            Step::Ask { request: Request::Show(WindowLabel::Overlay), stage: SessionStage::OverlayShow }
        } else {
            Step::Ask { request: Request::Lookup(WindowLabel::EditorFab), stage: SessionStage::FabLookup }
        },
        SessionStage::OverlayShow => match reply.failure() {
            Some(e) => Step::Finish(Err(e)),
            None => Step::Ask {
                request: Request::Lookup(WindowLabel::EditorFab),
                stage: SessionStage::FabLookup,
            },
        },
        SessionStage::FabLookup => if reply.flag() {
            Step::Ask { request: Request::Show(WindowLabel::EditorFab), stage: SessionStage::FabShow }
        } else {
            Step::Ask { request: Request::Lookup(WindowLabel::Main), stage: SessionStage::MainLookup }
        },
        SessionStage::FabShow => match reply.failure() {
            Some(e) => Step::Finish(Err(e)),
            None => Step::Ask {
                request: Request::Lookup(WindowLabel::Main),
                stage: SessionStage::MainLookup,
            },
        },
        SessionStage::MainLookup => if reply.flag() {
            Step::Ask { request: Request::Hide(WindowLabel::Main), stage: SessionStage::MainHide }
        } else {
            Step::Finish(Ok(()))
        },
        SessionStage::MainHide => match reply.failure() {
            Some(e) => Step::Finish(Err(e)),
            None => Step::Finish(Ok(())),
        },
    }
}

/// The hiding of the overlay within its own stages: hidden where it
/// exists, and no other window is touched.
pub open spec fn hide_overlay_step(stage: HideOverlayStage, reply: Reply) -> Step<
    HideOverlayStage,
    (),
> {
    match stage {
        HideOverlayStage::Start => Step::Ask {
            request: Request::Lookup(WindowLabel::Overlay),
            stage: HideOverlayStage::Lookup,
        },
        HideOverlayStage::Lookup => if reply.flag() {
            Step::Ask { request: Request::Hide(WindowLabel::Overlay), stage: HideOverlayStage::Hide }
        } else {
            Step::Finish(Ok(()))
        },
        HideOverlayStage::Hide => match reply.failure() {
            Some(e) => Step::Finish(Err(e)),
            None => Step::Finish(Ok(())),
        },
    }
}

/// What the return to the editor does with a step of the hiding of the
/// floating button.
pub open spec fn restore_after_hide(inner: Step<HideFabStage, ()>) -> Step<RestoreStage, ()> {
    match inner {
        Step::Ask { request, stage } => Step::Ask { request, stage: RestoreStage::Fab(stage) },
        Step::Finish(r) => Step::Finish(r),
    }
}

/// The return to the editor within its own stages: the main window is
/// shown and focused where it exists, and a failure of either ends the
/// routine with the host's words; then the floating button is hidden.
pub open spec fn restore_step(stage: RestoreStage, reply: Reply) -> Step<RestoreStage, ()> {
    match stage {
        RestoreStage::Start => Step::Ask {
            request: Request::Lookup(WindowLabel::Main),
            stage: RestoreStage::MainLookup,
        },
        RestoreStage::MainLookup => if reply.flag() {
            Step::Ask { request: Request::Show(WindowLabel::Main), stage: RestoreStage::MainShow }
        } else {
            restore_after_hide(hide_fab_step(HideFabStage::Start, reply))
        },
        RestoreStage::MainShow => match reply.failure() {
            Some(e) => Step::Finish(Err(e)),
            None => Step::Ask {
                request: Request::Focus(WindowLabel::Main),
                stage: RestoreStage::MainFocus,
            },
        },
        RestoreStage::MainFocus => match reply.failure() {
            Some(e) => Step::Finish(Err(e)),
            None => restore_after_hide(hide_fab_step(HideFabStage::Start, reply)),
        },
        RestoreStage::Fab(inner) => restore_after_hide(hide_fab_step(inner, reply)),
    }
}

/// The session command.
pub open spec fn session_command_step(stage: SessionStage, reply: Reply) -> Step<
    CommandStage,
    Outcome,
> {
    match session_step(stage, reply) {
        Step::Ask { request, stage } => Step::Ask { request, stage: CommandStage::Session(stage) },
        Step::Finish(Ok(_)) => Step::Finish(Ok(Outcome::Unit)),
        Step::Finish(Err(e)) => Step::Finish(Err(e)),
    }
}

/// The hide command.
pub open spec fn hide_command_step(stage: HideOverlayStage, reply: Reply) -> Step<
    CommandStage,
    Outcome,
> {
    match hide_overlay_step(stage, reply) {
        Step::Ask { request, stage } => Step::Ask {
            request,
            stage: CommandStage::HideOverlay(stage),
        },
        Step::Finish(Ok(_)) => Step::Finish(Ok(Outcome::Unit)),
        Step::Finish(Err(e)) => Step::Finish(Err(e)),
    }
}

/// The restore command.
pub open spec fn restore_command_step(stage: RestoreStage, reply: Reply) -> Step<
    CommandStage,
    Outcome,
> {
    match restore_step(stage, reply) {
        Step::Ask { request, stage } => Step::Ask { request, stage: CommandStage::Restore(stage) },
        Step::Finish(Ok(_)) => Step::Finish(Ok(Outcome::Unit)),
        Step::Finish(Err(e)) => Step::Finish(Err(e)),
    }
}

/// One step of whichever command `stage` belongs to.
pub open spec fn command_step(platform: Platform, stage: CommandStage, reply: Reply) -> Step<
    CommandStage,
    Outcome,
> {
    match stage {
        CommandStage::Toggle(inner) => toggle_command_step(platform, inner, reply),
        CommandStage::Create(inner) => create_command_step(platform, inner, reply),
        CommandStage::Session(inner) => session_command_step(inner, reply),
        CommandStage::HideOverlay(inner) => hide_command_step(inner, reply),
        CommandStage::Restore(inner) => restore_command_step(inner, reply),
    }
}

/// The stage in which `command` begins.
pub open spec fn first_stage(command: Command) -> CommandStage {
    match command {
        Command::ToggleOverlay => CommandStage::Toggle(ToggleStage::Start),
        Command::CreateOverlay => CommandStage::Create(OverlayStage::Start),
        Command::StartTeleprompterSession => CommandStage::Session(
            SessionStage::Fab(FabStage::Start),
        ),
        Command::HideOverlay => CommandStage::HideOverlay(HideOverlayStage::Start),
        Command::RestoreEditor => CommandStage::Restore(RestoreStage::Start),
    }
}

impl SessionStage {
    /// The most requests the start of a session can still make from this stage.
    pub open spec fn budget(self) -> nat {
        match self {
            SessionStage::Fab(inner) => inner.budget() + 6,
            SessionStage::OverlayLookup => 5,
            SessionStage::OverlayShow => 4,
            SessionStage::FabLookup => 3,
            SessionStage::FabShow => 2,
            SessionStage::MainLookup => 1,
            SessionStage::MainHide => 0,
        }
    }
}

impl HideOverlayStage {
    /// The most requests the hiding can still make from this stage.
    pub open spec fn budget(self) -> nat {
        match self {
            HideOverlayStage::Start => 2,
            HideOverlayStage::Lookup => 1,
            HideOverlayStage::Hide => 0,
        }
    }
}

impl RestoreStage {
    /// The most requests the return to the editor can still make from this stage.
    pub open spec fn budget(self) -> nat {
        match self {
            RestoreStage::Start => 5,
            RestoreStage::MainLookup => 4,
            RestoreStage::MainShow => 3,
            RestoreStage::MainFocus => 2,
            RestoreStage::Fab(inner) => inner.budget(),
        }
    }
}

impl CommandStage {
    /// The most requests the command can still make from this stage.
    pub open spec fn budget(self) -> nat {
        match self {
            CommandStage::Toggle(inner) => inner.budget(),
            CommandStage::Create(inner) => inner.budget(),
            CommandStage::Session(inner) => inner.budget(),
            CommandStage::HideOverlay(inner) => inner.budget(),
            CommandStage::Restore(inner) => inner.budget(),
        }
    }
}

impl Command {
    /// The name by which the front end invokes the command.
    pub fn name(&self) -> (name: &'static str)
        ensures
            name@ == match *self {
                Command::ToggleOverlay => "toggle_overlay"@,
                Command::CreateOverlay => "create_overlay"@,
                Command::StartTeleprompterSession => "start_teleprompter_session"@,
                Command::HideOverlay => "hide_overlay"@,
                Command::RestoreEditor => "restore_editor"@,
            },
    {
        match self {
            Command::ToggleOverlay => "toggle_overlay",
            Command::CreateOverlay => "create_overlay",
            Command::StartTeleprompterSession => "start_teleprompter_session",
            Command::HideOverlay => "hide_overlay",
            Command::RestoreEditor => "restore_editor",
        }
    }

    /// The stage in which the command begins.
    pub fn begin(&self) -> (stage: CommandStage)
        ensures
            stage == first_stage(*self),
    {
        match self {
            Command::ToggleOverlay => CommandStage::Toggle(ToggleStage::Start),
            Command::CreateOverlay => CommandStage::Create(OverlayStage::Start),
            Command::StartTeleprompterSession => CommandStage::Session(
                SessionStage::Fab(FabStage::Start),
            ),
            Command::HideOverlay => CommandStage::HideOverlay(HideOverlayStage::Start),
            Command::RestoreEditor => CommandStage::Restore(RestoreStage::Start),
        }
    }
}

/// A step of a command that asks leaves fewer requests to come.
pub proof fn lemma_command_spends_budget(platform: Platform, stage: CommandStage, reply: Reply)
    ensures
        command_step(platform, stage, reply) matches Step::Ask { stage: next, .. }
            ==> next.budget() < stage.budget(),
{
    match stage {
        CommandStage::Toggle(inner) => lemma_toggle_spends_budget(platform, inner, reply),
        CommandStage::Create(inner) => lemma_overlay_creation_spends_budget(
            platform,
            inner,
            reply,
        ),
        CommandStage::Session(SessionStage::Fab(inner)) => lemma_fab_creation_spends_budget(
            inner,
            reply,
        ),
        CommandStage::Restore(RestoreStage::Fab(inner)) => lemma_fab_hiding_spends_budget(
            inner,
            reply,
        ),
        CommandStage::Restore(_) => lemma_fab_hiding_spends_budget(HideFabStage::Start, reply),
        _ => {},
    }
}

/// One step of the toggle command.
pub fn toggle_overlay(platform: Platform, stage: ToggleStage, reply: Reply) -> (step: Step<
    CommandStage,
    Outcome,
>)
    ensures
        step == toggle_command_step(platform, stage, reply),
        step matches Step::Ask { stage: next, .. } ==> next.budget() < stage.budget(),
{
    match overlay::toggle_overlay(platform, stage, reply) {
        Step::Ask { request, stage } => Step::Ask { request, stage: CommandStage::Toggle(stage) },
        Step::Finish(Ok(visible)) => Step::Finish(Ok(Outcome::Visibility(visible))),
        Step::Finish(Err(e)) => Step::Finish(Err(e)),
    }
}

/// One step of the create command.
pub fn create_overlay(platform: Platform, stage: OverlayStage, reply: Reply) -> (step: Step<
    CommandStage,
    Outcome,
>)
    ensures
        step == create_command_step(platform, stage, reply),
        step matches Step::Ask { stage: next, .. } ==> next.budget() < stage.budget(),
{
    match overlay::create_overlay(platform, stage, reply) {
        Step::Ask { request, stage } => Step::Ask { request, stage: CommandStage::Create(stage) },
        Step::Finish(Ok(_)) => Step::Finish(Ok(Outcome::Unit)),
        Step::Finish(Err(e)) => Step::Finish(Err(e)),
    }
}

/// One step of the start of a session, within its own stages.
fn session(stage: SessionStage, reply: Reply) -> (step: Step<SessionStage, ()>)
    ensures
        step == session_step(stage, reply),
{
    match stage {
        SessionStage::Fab(inner) => match create_editor_fab(inner, reply) {
            Step::Ask { request, stage } => Step::Ask { request, stage: SessionStage::Fab(stage) },
            Step::Finish(Ok(_)) => Step::Ask {
                request: Request::Lookup(WindowLabel::Overlay),
                stage: SessionStage::OverlayLookup,
            },
            Step::Finish(Err(e)) => Step::Finish(Err(e)),
        },
        SessionStage::OverlayLookup => {
            if reply.is_yes() {
                Step::Ask {
                    request: Request::Show(WindowLabel::Overlay),
                    stage: SessionStage::OverlayShow,
                }
            } else {
                Step::Ask {
                    request: Request::Lookup(WindowLabel::EditorFab),
                    stage: SessionStage::FabLookup,
                }
            }
        },
        SessionStage::OverlayShow => match reply.into_failure() {
            Err(e) => Step::Finish(Err(e)),
            Ok(_) => Step::Ask {
                request: Request::Lookup(WindowLabel::EditorFab),
                stage: SessionStage::FabLookup,
            },
        },
        SessionStage::FabLookup => {
            if reply.is_yes() {
                Step::Ask {
                    request: Request::Show(WindowLabel::EditorFab),
                    stage: SessionStage::FabShow,
                }
            } else {
                Step::Ask {
                    request: Request::Lookup(WindowLabel::Main),
                    stage: SessionStage::MainLookup,
                }
            }
        },
        SessionStage::FabShow => match reply.into_failure() {
            Err(e) => Step::Finish(Err(e)),
            Ok(_) => Step::Ask {
                request: Request::Lookup(WindowLabel::Main),
                stage: SessionStage::MainLookup,
            },
        },
        SessionStage::MainLookup => {
            if reply.is_yes() {
                Step::Ask { request: Request::Hide(WindowLabel::Main), stage: SessionStage::MainHide }
            } else {
                Step::Finish(Ok(()))
            }
        },
        SessionStage::MainHide => match reply.into_failure() {
            Err(e) => Step::Finish(Err(e)),
            Ok(_) => Step::Finish(Ok(())),
        },
    }
}

/// One step of the session command.
pub fn start_teleprompter_session(stage: SessionStage, reply: Reply) -> (step: Step<
    CommandStage,
    Outcome,
>)
    ensures
        step == session_command_step(stage, reply),
        step matches Step::Ask { stage: next, .. } ==> next.budget() < stage.budget(),
{
    match session(stage, reply) {
        Step::Ask { request, stage } => Step::Ask { request, stage: CommandStage::Session(stage) },
        Step::Finish(Ok(_)) => Step::Finish(Ok(Outcome::Unit)),
        Step::Finish(Err(e)) => Step::Finish(Err(e)),
    }
}

/// One step of the hide command.
pub fn hide_overlay(stage: HideOverlayStage, reply: Reply) -> (step: Step<CommandStage, Outcome>)
    ensures
        step == hide_command_step(stage, reply),
        step matches Step::Ask { stage: next, .. } ==> next.budget() < stage.budget(),
{
    match stage {
        HideOverlayStage::Start => Step::Ask {
            request: Request::Lookup(WindowLabel::Overlay),
            stage: CommandStage::HideOverlay(HideOverlayStage::Lookup),
        },
        HideOverlayStage::Lookup => {
            if reply.is_yes() {
                Step::Ask {
                    request: Request::Hide(WindowLabel::Overlay),
                    stage: CommandStage::HideOverlay(HideOverlayStage::Hide),
                }
            } else {
                Step::Finish(Ok(Outcome::Unit))
            }
        },
        HideOverlayStage::Hide => match reply.into_failure() {
            Err(e) => Step::Finish(Err(e)),
            Ok(_) => Step::Finish(Ok(Outcome::Unit)),
        },
    }
}

/// Carries a step of the hiding of the floating button over into the
/// restore command.
fn finish_with_fab_hidden(inner: Step<HideFabStage, ()>) -> (step: Step<CommandStage, Outcome>)
    ensures
        step == match restore_after_hide(inner) {
            Step::Ask { request, stage } => Step::Ask {
                request,
                stage: CommandStage::Restore(stage),
            },
            Step::Finish(Ok(_)) => Step::Finish(Ok(Outcome::Unit)),
            Step::Finish(Err(e)) => Step::Finish(Err(e)),
        },
{
    match inner {
        Step::Ask { request, stage } => Step::Ask {
            request,
            stage: CommandStage::Restore(RestoreStage::Fab(stage)),
        },
        Step::Finish(Ok(_)) => Step::Finish(Ok(Outcome::Unit)),
        Step::Finish(Err(e)) => Step::Finish(Err(e)),
    }
}

/// One step of the restore command.
pub fn restore_editor(stage: RestoreStage, reply: Reply) -> (step: Step<CommandStage, Outcome>)
    ensures
        step == restore_command_step(stage, reply),
        step matches Step::Ask { stage: next, .. } ==> next.budget() < stage.budget(),
{
    match stage {
        RestoreStage::Start => Step::Ask {
            request: Request::Lookup(WindowLabel::Main),
            stage: CommandStage::Restore(RestoreStage::MainLookup),
        },
        RestoreStage::MainLookup => {
            if reply.is_yes() {
                Step::Ask {
                    request: Request::Show(WindowLabel::Main),
                    stage: CommandStage::Restore(RestoreStage::MainShow),
                }
            } else {
                finish_with_fab_hidden(hide_fab(HideFabStage::Start, reply))
            }
        },
        RestoreStage::MainShow => match reply.into_failure() {
            Err(e) => Step::Finish(Err(e)),
            Ok(_) => Step::Ask {
                request: Request::Focus(WindowLabel::Main),
                stage: CommandStage::Restore(RestoreStage::MainFocus),
            },
        },
        RestoreStage::MainFocus => match reply.into_failure() {
            Err(e) => Step::Finish(Err(e)),
            Ok(answer) => finish_with_fab_hidden(hide_fab(HideFabStage::Start, answer)),
        },
        RestoreStage::Fab(inner) => finish_with_fab_hidden(hide_fab(inner, reply)),
    }
}

/// One step of whichever command `stage` belongs to.
pub fn advance(platform: Platform, stage: CommandStage, reply: Reply) -> (step: Step<
    CommandStage,
    Outcome,
>)
    ensures
        step == command_step(platform, stage, reply),
        step matches Step::Ask { stage: next, .. } ==> next.budget() < stage.budget(),
{
    match stage {
        CommandStage::Toggle(inner) => toggle_overlay(platform, inner, reply),
        CommandStage::Create(inner) => create_overlay(platform, inner, reply),
        CommandStage::Session(inner) => start_teleprompter_session(inner, reply),
        CommandStage::HideOverlay(inner) => hide_overlay(inner, reply),
        CommandStage::Restore(inner) => restore_editor(inner, reply),
    }
}

} // verus!
