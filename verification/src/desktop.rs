//! A windowing host in memory: the windows, monitors and shortcuts that the
//! shell's requests act on, reduced to what those requests can tell apart.
//!
//! It serves two ends. It is a host to run the shell against where no
//! window system is at hand, and it is the ground on which the shell's
//! laws are stated: what holds of the windows after a task has run.

use vstd::prelude::*;
use crate::commands::Outcome;
use crate::geometry::{LogicalSize, MonitorInfo, PhysicalPosition};
use crate::host::{Notice, Reply, Request, Step};
use crate::shell::{lemma_step_spends_budget, task_step, Task};
use crate::shortcuts::{OverlayEvent, Platform, Shortcut};
use crate::window::{WindowLabel, WindowSpec, WindowStyle};

verus! {

/// What the host knows of one window.
#[derive(Clone, Copy, Debug, PartialEq, Eq, Structural)]
pub struct WindowState {
    /// The style the window was created with.
    pub style: WindowStyle,
    /// The size the window was created with.
    pub size: LogicalSize,
    /// Where the window was last moved to, if it ever was.
    pub position: Option<PhysicalPosition>,
    /// Whether the window is on screen.
    pub visible: bool,
    /// Whether the window has the input focus.
    pub focused: bool,
    /// The radius of its rounded bottom corners, if they were rounded.
    pub corner_radius: Option<u32>,
}

/// The host in memory.
#[derive(Debug)]
pub struct Desktop {
    /// The main window, if there is one.
    pub main: Option<WindowState>,
    /// The overlay, if there is one.
    pub overlay: Option<WindowState>,
    /// The floating button, if there is one.
    pub editor_fab: Option<WindowState>,
    /// The monitor the windows are on, if the host can tell.
    pub current_monitor: Option<MonitorInfo>,
    /// The primary monitor, if the host can tell.
    pub primary_monitor: Option<MonitorInfo>,
    /// Shortcuts that belong to someone else and cannot be registered.
    pub taken: Vec<Shortcut>,
    /// Shortcuts registered so far, oldest first.
    pub registered: Vec<Shortcut>,
    /// Events broadcast so far, oldest first, each with its target.
    pub emitted: Vec<(WindowLabel, OverlayEvent)>,
    /// Notices written so far, oldest first.
    pub notices: Vec<Notice>,
    /// The words with which this host refuses a request.
    pub refusal: String,
}

/// The host in memory, as a mathematical value.
pub ghost struct DesktopView {
    pub main: Option<WindowState>,
    pub overlay: Option<WindowState>,
    pub editor_fab: Option<WindowState>,
    pub current_monitor: Option<MonitorInfo>,
    pub primary_monitor: Option<MonitorInfo>,
    pub taken: Seq<Shortcut>,
    pub registered: Seq<Shortcut>,
    pub emitted: Seq<(WindowLabel, OverlayEvent)>,
    pub notices: Seq<Notice>,
    pub refusal: String,
}

impl View for Desktop {
    type V = DesktopView;

    open spec fn view(&self) -> DesktopView {
        DesktopView {
            main: self.main,
            overlay: self.overlay,
            editor_fab: self.editor_fab,
            current_monitor: self.current_monitor,
            primary_monitor: self.primary_monitor,
            taken: self.taken@,
            registered: self.registered@,
            emitted: self.emitted@,
            notices: self.notices@,
            refusal: self.refusal,
        }
    }
}

/// A window as it is right after the host has built it from `spec`.
pub open spec fn fresh_window(spec: WindowSpec) -> WindowState {
    WindowState {
        style: spec.style,
        size: spec.size,
        position: None,
        visible: spec.style.visible,
        focused: false,
        corner_radius: None,
    }
}

/// `w` without the input focus.
pub open spec fn unfocused(w: Option<WindowState>) -> Option<WindowState> {
    match w {
        Some(state) => Some(WindowState { focused: false, ..state }),
        None => None,
    }
}

impl DesktopView {
    /// The window with the given label, if there is one.
    pub open spec fn window(self, label: WindowLabel) -> Option<WindowState> {
        match label {
            WindowLabel::Main => self.main,
            WindowLabel::Overlay => self.overlay,
            WindowLabel::EditorFab => self.editor_fab,
        }
    }

    /// This host with the window `label` replaced by `w`.
    pub open spec fn with_window(self, label: WindowLabel, w: Option<WindowState>) -> DesktopView {
        match label {
            WindowLabel::Main => DesktopView { main: w, ..self },
            WindowLabel::Overlay => DesktopView { overlay: w, ..self },
            WindowLabel::EditorFab => DesktopView { editor_fab: w, ..self },
        }
    }

    /// This host with no window focused.
    pub open spec fn without_focus(self) -> DesktopView {
        DesktopView {
            main: unfocused(self.main),
            overlay: unfocused(self.overlay),
            editor_fab: unfocused(self.editor_fab),
            ..self
        }
    }

    /// What the host does with a request that acts on a window: `change`
    /// where the window exists, a refusal where it does not.
    pub open spec fn act_on(
        self,
        label: WindowLabel,
        change: spec_fn(WindowState) -> WindowState,
    ) -> (Reply, DesktopView) {
        match self.window(label) {
            Some(w) => (Reply::Done, self.with_window(label, Some(change(w)))),
            None => (Reply::Failed(self.refusal), self),
        }
    }

    /// The host's reply to `request` and the host after it.
    ///
    /// Questions leave the host as it is. A window is built only where none
    /// has its label, and moved, shaped, shown, hidden or focused only where
    /// it exists; a hidden window loses the focus, and focusing one window
    /// takes the focus from the others. A shortcut is registered unless it
    /// is taken or registered already. Events and notices are recorded in
    /// the order in which they come. What the host cannot do it refuses
    /// with its words of refusal, and is then unchanged.
    pub open spec fn perform(self, request: Request) -> (Reply, DesktopView) {
        match request {
            Request::Lookup(label) => (Reply::Flag(self.window(label) is Some), self),
            Request::QueryVisible(label) => match self.window(label) {
                Some(w) => (Reply::Flag(w.visible), self),
                None => (Reply::Failed(self.refusal), self),
            },
            Request::QueryCurrentMonitor(label) => match self.window(label) {
                Some(_) => (Reply::Monitor(self.current_monitor), self),
                None => (Reply::Monitor(None), self),
            },
            Request::QueryPrimaryMonitor => (Reply::Monitor(self.primary_monitor), self),
            Request::Build(spec) => match self.window(spec.label) {
                Some(_) => (Reply::Failed(self.refusal), self),
                None => (Reply::Done, self.with_window(spec.label, Some(fresh_window(spec)))),
            },
            Request::SetPosition(label, position) => self.act_on(
                label,
                |w: WindowState| WindowState { position: Some(position), ..w },
            ),
            Request::RoundBottomCorners(label, radius) => self.act_on(
                label,
                |w: WindowState| WindowState { corner_radius: Some(radius), ..w },
            ),
            Request::Show(label) => self.act_on(
                label,
                |w: WindowState| WindowState { visible: true, ..w },
            ),
            Request::Hide(label) => self.act_on(
                label,
                |w: WindowState| WindowState { visible: false, focused: false, ..w },
            ),
            Request::Focus(label) => self.without_focus().act_on(
                label,
                |w: WindowState| WindowState { focused: true, ..w },
            ),
            Request::Emit(label, event) => (
                Reply::Done,
                DesktopView { emitted: self.emitted.push((label, event)), ..self },
            ),
            Request::Register(shortcut) => if self.taken.contains(shortcut)
                || self.registered.contains(shortcut) {
                (Reply::Failed(self.refusal), self)
            } else {
                (Reply::Done, DesktopView { registered: self.registered.push(shortcut), ..self })
            },
            Request::Log(notice) => (
                Reply::Done,
                DesktopView { notices: self.notices.push(notice), ..self },
            ),
        }
    }
}

/// The outcome of a task that resumes in `task` with `reply` on the host
/// `desktop`, and the host after it: the task's requests are put to the
/// host one after the other until the task ends.
pub open spec fn run_from(platform: Platform, task: Task, reply: Reply, desktop: DesktopView) -> (
    Result<Outcome, String>,
    DesktopView,
)
    decreases task.budget(),
{
    match task_step(platform, task, reply) {
        Step::Finish(outcome) => (outcome, desktop),
        Step::Ask { request, stage } => {
            proof {
                lemma_step_spends_budget(platform, task, reply);
            }
            let (answer, after) = desktop.perform(request);
            run_from(platform, stage, answer, after)
        },
    }
}

/// The outcome of `task`, run from its beginning on the host `desktop`, and
/// the host after it.
pub open spec fn run_task(platform: Platform, task: Task, desktop: DesktopView) -> (
    Result<Outcome, String>,
    DesktopView,
) {
    run_from(platform, task, Reply::Done, desktop)
}

/// Whether `shortcut` is among `shortcuts`.
fn holds(shortcuts: &Vec<Shortcut>, shortcut: Shortcut) -> (found: bool)
    ensures
        found == shortcuts@.contains(shortcut),
{
    let mut i: usize = 0;
    while i < shortcuts.len()
        invariant
            i <= shortcuts.len(),
            forall|j: int| 0 <= j < i ==> shortcuts@[j] != shortcut,
        decreases shortcuts.len() - i,
    {
        if shortcuts[i] == shortcut {
            return true;
        }
        i = i + 1;
    }
    false
}

impl WindowState {
    /// A window as it is right after the host has built it from `spec`.
    pub fn fresh(spec: &WindowSpec) -> (w: WindowState)
        ensures
            w == fresh_window(*spec),
    {
        WindowState {
            style: spec.style,
            size: spec.size,
            position: None,
            visible: spec.style.visible,
            focused: false,
            corner_radius: None,
        }
    }
}

impl Desktop {
    /// A host with no window, no monitor it can tell of and no shortcut
    /// taken or registered, which refuses with the words given.
    pub fn new(refusal: String) -> (desktop: Desktop)
        ensures
            desktop@ == (DesktopView {
                main: None,
                overlay: None,
                editor_fab: None,
                current_monitor: None,
                primary_monitor: None,
                taken: Seq::empty(),
                registered: Seq::empty(),
                emitted: Seq::empty(),
                notices: Seq::empty(),
                refusal,
            }),
    {
        Desktop {
            main: None,
            overlay: None,
            editor_fab: None,
            current_monitor: None,
            primary_monitor: None,
            taken: Vec::new(),
            registered: Vec::new(),
            emitted: Vec::new(),
            notices: Vec::new(),
            refusal,
        }
    }

    /// The window with the given label, if there is one.
    pub fn window(&self, label: WindowLabel) -> (w: Option<WindowState>)
        ensures
            w == self@.window(label),
    {
        match label {
            WindowLabel::Main => self.main,
            WindowLabel::Overlay => self.overlay,
            WindowLabel::EditorFab => self.editor_fab,
        }
    }

    /// Puts `w` in the place of the window `label`.
    fn put(&mut self, label: WindowLabel, w: Option<WindowState>)
        ensures
            final(self)@ == old(self)@.with_window(label, w),
    {
        match label {
            WindowLabel::Main => {
                self.main = w;
            },
            WindowLabel::Overlay => {
                self.overlay = w;
            },
            WindowLabel::EditorFab => {
                self.editor_fab = w;
            },
        }
    }

    /// Takes the focus from every window.
    fn drop_focus(&mut self)
        ensures
            final(self)@ == old(self)@.without_focus(),
    {
        if let Some(w) = self.main {
            self.main = Some(WindowState { focused: false, ..w });
        }
        if let Some(w) = self.overlay {
            self.overlay = Some(WindowState { focused: false, ..w });
        }
        if let Some(w) = self.editor_fab {
            self.editor_fab = Some(WindowState { focused: false, ..w });
        }
    }

    /// The words of refusal, as a reply.
    fn refuse(&self) -> (reply: Reply)
        ensures
            reply == Reply::Failed(self@.refusal),
    {
        Reply::Failed(self.refusal.clone())
    }

    /// Carries out `request` and answers it.
    pub fn perform(&mut self, request: Request) -> (reply: Reply)
        ensures
            (reply, final(self)@) == old(self)@.perform(request),
    {
        match request {
            Request::Lookup(label) => Reply::Flag(self.window(label).is_some()),
            Request::QueryVisible(label) => match self.window(label) {
                Some(w) => Reply::Flag(w.visible),
                None => self.refuse(),
            },
            Request::QueryCurrentMonitor(label) => match self.window(label) {
                Some(_) => Reply::Monitor(self.current_monitor),
                None => Reply::Monitor(None),
            },
            Request::QueryPrimaryMonitor => Reply::Monitor(self.primary_monitor),
            Request::Build(spec) => match self.window(spec.label) {
                Some(_) => self.refuse(),
                None => {
                    self.put(spec.label, Some(WindowState::fresh(&spec)));
                    Reply::Done
                },
            },
            Request::SetPosition(label, position) => match self.window(label) {
                Some(w) => {
                    self.put(label, Some(WindowState { position: Some(position), ..w }));
                    Reply::Done
                },
                None => self.refuse(),
            },
            Request::RoundBottomCorners(label, radius) => match self.window(label) {
                Some(w) => {
                    self.put(label, Some(WindowState { corner_radius: Some(radius), ..w }));
                    Reply::Done
                },
                None => self.refuse(),
            },
            Request::Show(label) => match self.window(label) {
                Some(w) => {
                    self.put(label, Some(WindowState { visible: true, ..w }));
                    Reply::Done
                },
                None => self.refuse(),
            },
            Request::Hide(label) => match self.window(label) {
                Some(w) => {
                    self.put(label, Some(WindowState { visible: false, focused: false, ..w }));
                    Reply::Done
                },
                None => self.refuse(),
            },
            Request::Focus(label) => {
                self.drop_focus();
                match self.window(label) {
                    Some(w) => {
                        self.put(label, Some(WindowState { focused: true, ..w }));
                        Reply::Done
                    },
                    None => self.refuse(),
                }
            },
            Request::Emit(label, event) => {
                self.emitted.push((label, event));
                Reply::Done
            },
            Request::Register(shortcut) => {
                if holds(&self.taken, shortcut) || holds(&self.registered, shortcut) {
                    self.refuse()
                } else {
                    self.registered.push(shortcut);
                    Reply::Done
                }
            },
            Request::Log(notice) => {
                self.notices.push(notice);
                Reply::Done
            },
        }
    }

    /// Runs `task` from its beginning on this host: puts its requests to
    /// the host one after the other until the task ends, and returns what
    /// it ends with.
    pub fn run(&mut self, platform: Platform, task: Task) -> (outcome: Result<Outcome, String>)
        ensures
            (outcome, final(self)@) == run_task(platform, task, old(self)@),
    {
        let mut current: Task = task;
        let mut reply: Reply = Reply::Done;
        loop
            invariant
                run_from(platform, current, reply, self@) == run_task(platform, task, old(self)@),
            decreases current.budget(),
        {
            match current.step(platform, reply) {
                Step::Finish(outcome) => {
                    return outcome;
                },
                Step::Ask { request, stage } => {
                    reply = self.perform(request);
                    current = stage;
                },
            }
        }
    }
}

} // verus!
