//! Everything the shell can be asked to do, under one type, so that one
//! loop can drive it: ask the host what the step asks, hand the reply
//! back, until the step is a finish.

use vstd::prelude::*;
use crate::commands::{
    advance,
    command_step,
    first_stage,
    lemma_command_spends_budget,
    Command,
    CommandStage,
    Outcome,
};
use crate::editor_fab::{
    create_editor_fab,
    create_editor_fab_step,
    hide_fab,
    hide_fab_step,
    lemma_fab_creation_spends_budget,
    lemma_fab_hiding_spends_budget,
    FabStage,
    HideFabStage,
};
use crate::host::{Reply, Step};
use crate::shortcuts::{Platform, Shortcut, ShortcutState};
use crate::startup::{
    lemma_hotkey_spends_budget,
    lemma_startup_spends_budget,
    on_shortcut,
    on_shortcut_step,
    run,
    run_step,
    HotkeyStage,
    StartupStage,
};

verus! {

/// A piece of work of the shell and how far it has come.
#[derive(Clone, Copy, Debug, PartialEq, Eq, Structural)]
pub enum Task {
    /// The work done once when the application starts.
    Startup(StartupStage),
    /// The handling of one shortcut event.
    Hotkey(HotkeyStage),
    /// One command of the front end.
    Command(CommandStage),
    /// The creation of the floating button by itself.
    CreateFab(FabStage),
    /// The hiding of the floating button by itself.
    HideFab(HideFabStage),
}

/// One step of a task. The startup and the handling of a shortcut hand
/// nothing back; a command hands back its outcome.
pub open spec fn task_step(platform: Platform, task: Task, reply: Reply) -> Step<Task, Outcome> {
    match task {
        Task::Startup(stage) => match run_step(platform, stage, reply) {
            Step::Ask { request, stage } => Step::Ask { request, stage: Task::Startup(stage) },
            Step::Finish(Ok(_)) => Step::Finish(Ok(Outcome::Unit)),
            Step::Finish(Err(e)) => Step::Finish(Err(e)),
        },
        Task::Hotkey(stage) => match on_shortcut_step(platform, stage, reply) {
            Step::Ask { request, stage } => Step::Ask { request, stage: Task::Hotkey(stage) },
            Step::Finish(Ok(_)) => Step::Finish(Ok(Outcome::Unit)),
            Step::Finish(Err(e)) => Step::Finish(Err(e)),
        },
        Task::Command(stage) => match command_step(platform, stage, reply) {
            Step::Ask { request, stage } => Step::Ask { request, stage: Task::Command(stage) },
            Step::Finish(r) => Step::Finish(r),
        },
        Task::CreateFab(stage) => match create_editor_fab_step(stage, reply) {
            Step::Ask { request, stage } => Step::Ask { request, stage: Task::CreateFab(stage) },
            Step::Finish(Ok(_)) => Step::Finish(Ok(Outcome::Unit)),
            Step::Finish(Err(e)) => Step::Finish(Err(e)),
        },
        Task::HideFab(stage) => match hide_fab_step(stage, reply) {
            Step::Ask { request, stage } => Step::Ask { request, stage: Task::HideFab(stage) },
            Step::Finish(Ok(_)) => Step::Finish(Ok(Outcome::Unit)),
            Step::Finish(Err(e)) => Step::Finish(Err(e)),
        },
    }
}

impl Task {
    /// The most requests the task can still make.
    pub open spec fn budget(self) -> nat {
        match self {
            Task::Startup(stage) => stage.budget(),
            Task::Hotkey(stage) => stage.budget(),
            Task::Command(stage) => stage.budget(),
            Task::CreateFab(stage) => stage.budget(),
            Task::HideFab(stage) => stage.budget(),
        }
    }

    /// The startup, before its first step.
    pub fn startup() -> (task: Task)
        ensures
            task == Task::Startup(StartupStage::Start),
    {
        Task::Startup(StartupStage::Start)
    }

    /// The handling of a shortcut event, before its first step.
    pub fn shortcut(shortcut: Shortcut, state: ShortcutState) -> (task: Task)
        ensures
            task == Task::Hotkey(HotkeyStage::Received(shortcut, state)),
    {
        Task::Hotkey(HotkeyStage::Received(shortcut, state))
    }

    /// A command, before its first step.
    pub fn command(command: Command) -> (task: Task)
        ensures
            task == Task::Command(first_stage(command)),
    {
        Task::Command(command.begin())
    }

    /// The creation of the floating button, before its first step.
    pub fn create_editor_fab() -> (task: Task)
        ensures
            task == Task::CreateFab(FabStage::Start),
    {
        Task::CreateFab(FabStage::Start)
    }

    /// The hiding of the floating button, before its first step.
    pub fn hide_fab() -> (task: Task)
        ensures
            task == Task::HideFab(HideFabStage::Start),
    {
        Task::HideFab(HideFabStage::Start)
    }

    /// One step of the task. The reply is that to the request of the step
    /// before; the first step reads no reply, and any will do.
    pub fn step(self, platform: Platform, reply: Reply) -> (step: Step<Task, Outcome>)
        ensures
            step == task_step(platform, self, reply),
            step matches Step::Ask { stage: next, .. } ==> next.budget() < self.budget(),
    {
        match self {
            Task::Startup(stage) => match run(platform, stage, reply) {
                Step::Ask { request, stage } => Step::Ask { request, stage: Task::Startup(stage) },
                Step::Finish(Ok(_)) => Step::Finish(Ok(Outcome::Unit)),
                Step::Finish(Err(e)) => Step::Finish(Err(e)),
            },
            Task::Hotkey(stage) => match on_shortcut(platform, stage, reply) {
                Step::Ask { request, stage } => Step::Ask { request, stage: Task::Hotkey(stage) },
                Step::Finish(Ok(_)) => Step::Finish(Ok(Outcome::Unit)),
                Step::Finish(Err(e)) => Step::Finish(Err(e)),
            },
            Task::Command(stage) => match advance(platform, stage, reply) {
                Step::Ask { request, stage } => Step::Ask { request, stage: Task::Command(stage) },
                Step::Finish(r) => Step::Finish(r),
            },
            Task::CreateFab(stage) => match create_editor_fab(stage, reply) {
                Step::Ask { request, stage } => Step::Ask {
                    request,
                    stage: Task::CreateFab(stage),
                },
                Step::Finish(Ok(_)) => Step::Finish(Ok(Outcome::Unit)),
                Step::Finish(Err(e)) => Step::Finish(Err(e)),
            },
            Task::HideFab(stage) => match hide_fab(stage, reply) {
                Step::Ask { request, stage } => Step::Ask { request, stage: Task::HideFab(stage) },
                Step::Finish(Ok(_)) => Step::Finish(Ok(Outcome::Unit)),
                Step::Finish(Err(e)) => Step::Finish(Err(e)),
            },
        }
    }
}

/// Every step that asks leaves fewer requests to come, so every task ends
/// after at most as many requests as its budget, whatever the host
/// replies.
pub proof fn lemma_step_spends_budget(platform: Platform, task: Task, reply: Reply)
    ensures
        task_step(platform, task, reply) matches Step::Ask { stage: next, .. } ==> next.budget()
            < task.budget(),
{
    match task {
        Task::Startup(stage) => lemma_startup_spends_budget(platform, stage, reply),
        Task::Hotkey(stage) => lemma_hotkey_spends_budget(platform, stage, reply),
        Task::Command(stage) => lemma_command_spends_budget(platform, stage, reply),
        Task::CreateFab(stage) => lemma_fab_creation_spends_budget(stage, reply),
        Task::HideFab(stage) => lemma_fab_hiding_spends_budget(stage, reply),
    }
}

} // verus!
