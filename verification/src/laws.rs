//! What holds of the windows after the shell has run a task on a host,
//! proved of the host in memory for every state it can be in.

use vstd::prelude::*;
use crate::commands::{first_stage, Command, CommandStage, Outcome, SessionStage};
use crate::desktop::{fresh_window, run_from, run_task, DesktopView, WindowState};
use crate::editor_fab::{monitor_info_step, FabStage, HideFabStage, MonitorStage};
use crate::geometry::{
    fab_origin,
    fallback_monitor,
    monitor_or_fallback,
    overlay_origin,
    LogicalSize,
    MonitorInfo,
    PhysicalPosition,
    CORNER_RADIUS,
};
use crate::host::{Notice, Reply, Request, Step};
use crate::overlay::OverlayStage;
use crate::shell::Task;
use crate::shortcuts::{
    binding,
    successor,
    triggered,
    Action,
    OverlayEvent,
    Platform,
    Shortcut,
    ShortcutState,
};
use crate::startup::{HotkeyStage, StartupStage};
use crate::window::{fab_spec, overlay_spec, WindowLabel};

verus! {

/// The overlay as the shell leaves it after creating it on a host whose
/// primary monitor is `primary`: built as [`overlay_spec`] says,
/// moved to the top centre, shaped where the platform shapes, and still
/// hidden.
pub open spec fn created_overlay(platform: Platform, primary: Option<MonitorInfo>) -> WindowState {
    let m = monitor_or_fallback(primary);
    WindowState {
        position: Some(overlay_origin(m)),
        corner_radius: match platform {
            Platform::MacOs => Some(CORNER_RADIUS),
            Platform::Other => None,
        },
        ..fresh_window(overlay_spec(m))
    }
}

/// Creating the overlay where it exists asks the host for nothing but
/// whether it exists, changes nothing and ends well. So however often the
/// overlay is created there is one overlay, and no call after the first
/// fails.
pub proof fn law_create_overlay_keeps_existing(platform: Platform, d: DesktopView)
    requires
        d.overlay is Some,
    ensures
        run_task(platform, Task::Command(first_stage(Command::CreateOverlay)), d) == (
            Ok::<Outcome, String>(Outcome::Unit),
            d,
        ),
{
    reveal_with_fuel(run_from, 3);
}

/// Creating the overlay where there is none ends well and leaves the
/// overlay hidden at the top centre of the primary monitor's work area, or
/// of the fallback display where the host knows no primary monitor; no
/// other part of the host changes.
pub proof fn law_create_overlay_builds_missing(platform: Platform, d: DesktopView)
    requires
        d.overlay is None,
    ensures
        run_task(platform, Task::Command(first_stage(Command::CreateOverlay)), d) == (
            Ok::<Outcome, String>(Outcome::Unit),
            DesktopView { overlay: Some(created_overlay(platform, d.primary_monitor)), ..d },
        ),
{
    reveal_with_fuel(run_from, 7);
}

/// However the host stands, creating the overlay ends well and leaves an
/// overlay, and creating it once more ends well and changes nothing.
pub proof fn law_create_overlay_is_idempotent(platform: Platform, d: DesktopView)
    ensures
        ({
            let create = Task::Command(first_stage(Command::CreateOverlay));
            let (first, once) = run_task(platform, create, d);
            &&& first == Ok::<Outcome, String>(Outcome::Unit)
            &&& once.overlay is Some
            &&& run_task(platform, create, once) == (Ok::<Outcome, String>(Outcome::Unit), once)
        }),
{
    let create = Task::Command(first_stage(Command::CreateOverlay));
    if d.overlay is Some {
        law_create_overlay_keeps_existing(platform, d);
    } else {
        law_create_overlay_builds_missing(platform, d);
    }
    law_create_overlay_keeps_existing(platform, run_task(platform, create, d).1);
}

/// The monitor on which the floating button is laid out: the monitor
/// that shows the main window where there is a main window and the host
/// can tell its monitor, else the primary monitor, else the fallback
/// display.
pub open spec fn fab_monitor(d: DesktopView) -> MonitorInfo {
    if d.main is Some && d.current_monitor is Some {
        d.current_monitor->0
    } else {
        monitor_or_fallback(d.primary_monitor)
    }
}

/// The floating button as the shell leaves it after creating it on the
/// monitor `m`: built as [`fab_spec`] says, moved to the bottom
/// right, and still hidden.
pub open spec fn created_fab(m: MonitorInfo) -> WindowState {
    WindowState { position: Some(fab_origin(m)), ..fresh_window(fab_spec()) }
}

/// Creating the floating button where it exists changes nothing and ends
/// well.
pub proof fn law_create_fab_keeps_existing(platform: Platform, d: DesktopView)
    requires
        d.editor_fab is Some,
    ensures
        run_task(platform, Task::CreateFab(FabStage::Start), d) == (
            Ok::<Outcome, String>(Outcome::Unit),
            d,
        ),
{
    reveal_with_fuel(run_from, 3);
}

/// Creating the floating button where there is none ends well and leaves
/// the button hidden at the bottom right of its monitor's work area; no
/// other part of the host changes.
pub proof fn law_create_fab_builds_missing(platform: Platform, d: DesktopView)
    requires
        d.editor_fab is None,
    ensures
        run_task(platform, Task::CreateFab(FabStage::Start), d) == (
            Ok::<Outcome, String>(Outcome::Unit),
            DesktopView { editor_fab: Some(created_fab(fab_monitor(d))), ..d },
        ),
{
    reveal_with_fuel(run_from, 8);
}

/// However the host stands, creating the floating button ends well and
/// leaves a button, and creating it once more ends well and changes
/// nothing.
pub proof fn law_create_fab_is_idempotent(platform: Platform, d: DesktopView)
    ensures
        ({
            let create = Task::CreateFab(FabStage::Start);
            let (first, once) = run_task(platform, create, d);
            &&& first == Ok::<Outcome, String>(Outcome::Unit)
            &&& once.editor_fab is Some
            &&& run_task(platform, create, once) == (Ok::<Outcome, String>(Outcome::Unit), once)
        }),
{
    let create = Task::CreateFab(FabStage::Start);
    if d.editor_fab is Some {
        law_create_fab_keeps_existing(platform, d);
    } else {
        law_create_fab_builds_missing(platform, d);
    }
    law_create_fab_keeps_existing(platform, run_task(platform, create, d).1);
}

/// A toggle of a hidden overlay shows it and hands back `true`; nothing
/// else changes.
pub proof fn law_toggle_shows_hidden(platform: Platform, d: DesktopView, w: WindowState)
    requires
        d.overlay == Some(w),
        !w.visible,
    ensures
        run_task(platform, Task::Command(first_stage(Command::ToggleOverlay)), d) == (
            Ok::<Outcome, String>(Outcome::Visibility(true)),
            DesktopView { overlay: Some(WindowState { visible: true, ..w }), ..d },
        ),
{
    reveal_with_fuel(run_from, 4);
}

/// A toggle of a visible overlay hides it and hands back `false`; nothing
/// else changes.
pub proof fn law_toggle_hides_visible(platform: Platform, d: DesktopView, w: WindowState)
    requires
        d.overlay == Some(w),
        w.visible,
    ensures
        run_task(platform, Task::Command(first_stage(Command::ToggleOverlay)), d) == (
            Ok::<Outcome, String>(Outcome::Visibility(false)),
            DesktopView {
                overlay: Some(WindowState { visible: false, focused: false, ..w }),
                ..d
            },
        ),
{
    reveal_with_fuel(run_from, 4);
}

/// A toggle where there is no overlay creates it, leaves it visible and
/// hands back `true`; nothing else changes.
pub proof fn law_toggle_creates_missing(platform: Platform, d: DesktopView)
    requires
        d.overlay is None,
    ensures
        run_task(platform, Task::Command(first_stage(Command::ToggleOverlay)), d) == (
            Ok::<Outcome, String>(Outcome::Visibility(true)),
            DesktopView {
                overlay: Some(
                    WindowState { visible: true, ..created_overlay(platform, d.primary_monitor) },
                ),
                ..d
            },
        ),
{
    reveal_with_fuel(run_from, 8);
}

/// `w` on screen.
pub open spec fn shown(w: Option<WindowState>) -> Option<WindowState> {
    match w {
        Some(state) => Some(WindowState { visible: true, ..state }),
        None => None,
    }
}

/// `w` off screen, and so without the focus.
pub open spec fn hidden(w: Option<WindowState>) -> Option<WindowState> {
    match w {
        Some(state) => Some(WindowState { visible: false, focused: false, ..state }),
        None => None,
    }
}

/// The floating button of `d`, or the button as the shell would create it
/// on `d` where `d` has none.
pub open spec fn fab_made_sure(d: DesktopView) -> WindowState {
    match d.editor_fab {
        Some(w) => w,
        None => created_fab(fab_monitor(d)),
    }
}

/// The first part of the start of a session: the floating button is made
/// sure of, and the session goes on to ask for the overlay.
proof fn lemma_session_makes_sure_of_fab(platform: Platform, d: DesktopView)
    ensures
        run_task(platform, Task::Command(first_stage(Command::StartTeleprompterSession)), d)
            == run_from(
            platform,
            Task::Command(CommandStage::Session(SessionStage::OverlayLookup)),
            Reply::Flag(d.overlay is Some),
            DesktopView { editor_fab: Some(fab_made_sure(d)), ..d },
        ),
{
    reveal_with_fuel(run_from, 8);
}

/// The second part of the start of a session: with the floating button
/// there, the overlay and the button are shown and the main window is
/// hidden.
proof fn lemma_session_arranges_windows(platform: Platform, d: DesktopView)
    requires
        d.editor_fab is Some,
    ensures
        run_from(
            platform,
            Task::Command(CommandStage::Session(SessionStage::OverlayLookup)),
            Reply::Flag(d.overlay is Some),
            d,
        ) == (
            Ok::<Outcome, String>(Outcome::Unit),
            DesktopView {
                main: hidden(d.main),
                overlay: shown(d.overlay),
                editor_fab: shown(d.editor_fab),
                ..d
            },
        ),
{
    reveal_with_fuel(run_from, 7);
}

/// The start of a session ends well on every host, and leaves the host
/// with a floating button on screen (created where there was none), the
/// overlay on screen where there is one, the main window off screen where
/// there is one, and nothing else changed.
pub proof fn law_session_start(platform: Platform, d: DesktopView)
    ensures
        run_task(platform, Task::Command(first_stage(Command::StartTeleprompterSession)), d) == (
            Ok::<Outcome, String>(Outcome::Unit),
            DesktopView {
                main: hidden(d.main),
                overlay: shown(d.overlay),
                editor_fab: shown(Some(fab_made_sure(d))),
                ..d
            },
        ),
{
    lemma_session_makes_sure_of_fab(platform, d);
    lemma_session_arranges_windows(
        platform,
        DesktopView { editor_fab: Some(fab_made_sure(d)), ..d },
    );
}

/// After the start of a session on a host that has an overlay, the
/// floating button and the overlay are both visible and the main window,
/// where there is one, is hidden, whatever was visible before.
pub proof fn law_session_shows_overlay_and_fab_hides_main(platform: Platform, d: DesktopView)
    requires
        d.overlay is Some,
    ensures
        ({
            let (outcome, after) = run_task(
                platform,
                Task::Command(first_stage(Command::StartTeleprompterSession)),
                d,
            );
            &&& outcome is Ok
            &&& after.overlay is Some && after.overlay->0.visible
            &&& after.editor_fab is Some && after.editor_fab->0.visible
            &&& after.main is Some <==> d.main is Some
            &&& after.main is Some ==> !after.main->0.visible
        }),
{
    law_session_start(platform, d);
}

/// The host after the editor is restored: the main window, where there is
/// one, is on screen and alone has the focus; the floating button is off
/// screen.
pub open spec fn editor_restored(d: DesktopView) -> DesktopView {
    let focused = match d.main {
        Some(w) => {
            let lit = DesktopView { main: Some(WindowState { visible: true, ..w }), ..d };
            DesktopView {
                main: Some(WindowState { visible: true, focused: true, ..w }),
                ..lit.without_focus()
            }
        },
        None => d,
    };
    DesktopView { editor_fab: hidden(focused.editor_fab), ..focused }
}

/// The return to the editor ends well on every host and leaves it as
/// [`editor_restored`] says.
pub proof fn law_restore_editor(platform: Platform, d: DesktopView)
    ensures
        run_task(platform, Task::Command(first_stage(Command::RestoreEditor)), d) == (
            Ok::<Outcome, String>(Outcome::Unit),
            editor_restored(d),
        ),
{
    reveal_with_fuel(run_from, 6);
}

/// After the return to the editor on a host that has a main window, the
/// main window is visible and focused and the floating button, where there
/// is one, is hidden, whatever was visible before.
pub proof fn law_restore_shows_main_hides_fab(platform: Platform, d: DesktopView)
    requires
        d.main is Some,
    ensures
        ({
            let (outcome, after) = run_task(
                platform,
                Task::Command(first_stage(Command::RestoreEditor)),
                d,
            );
            &&& outcome is Ok
            &&& after.main is Some && after.main->0.visible && after.main->0.focused
            &&& after.editor_fab is Some <==> d.editor_fab is Some
            &&& after.editor_fab is Some ==> !after.editor_fab->0.visible
        }),
{
    law_restore_editor(platform, d);
}

/// Hiding the overlay ends well on every host and changes nothing but the
/// overlay, which is off screen afterwards where there is one.
pub proof fn law_hide_overlay(platform: Platform, d: DesktopView)
    ensures
        run_task(platform, Task::Command(first_stage(Command::HideOverlay)), d) == (
            Ok::<Outcome, String>(Outcome::Unit),
            DesktopView { overlay: hidden(d.overlay), ..d },
        ),
{
    reveal_with_fuel(run_from, 3);
}

/// Hiding the floating button ends well on every host and changes
/// nothing but the button, which is off screen afterwards where there is
/// one.
pub proof fn law_hide_fab(platform: Platform, d: DesktopView)
    ensures
        run_task(platform, Task::HideFab(HideFabStage::Start), d) == (
            Ok::<Outcome, String>(Outcome::Unit),
            DesktopView { editor_fab: hidden(d.editor_fab), ..d },
        ),
{
    reveal_with_fuel(run_from, 3);
}

/// On the fallback display the floating button sits at (1848, 1008) and
/// measures 56 by 56, and the overlay sits at (576, 0) and measures 768
/// by 140.
pub proof fn law_fallback_geometry()
    ensures
        fab_origin(fallback_monitor()) == (PhysicalPosition { x: 1848, y: 1008 }),
        fab_spec().size == (LogicalSize { width: 56, height: 56 }),
        overlay_origin(fallback_monitor()) == (PhysicalPosition { x: 576, y: 0 }),
        overlay_spec(fallback_monitor()).size == (LogicalSize { width: 768, height: 140 }),
{
}

/// The search for a monitor never ends in a failure, whatever the host
/// replies; and a reply to the last question that names no monitor ends
/// it with the fallback display.
pub proof fn law_monitor_search_never_fails(label: WindowLabel, stage: MonitorStage, reply: Reply)
    ensures
        !(monitor_info_step(label, stage, reply) matches Step::Finish(Err(_))),
        reply.monitor() is None ==> monitor_info_step(label, MonitorStage::Primary, reply)
            == Step::<MonitorStage, MonitorInfo>::Finish(Ok(fallback_monitor())),
{
}

/// Where no monitor can be queried, the windows are created as on the
/// fallback display, and their creation ends well.
pub proof fn law_windows_fall_back(platform: Platform, d: DesktopView)
    requires
        d.primary_monitor is None,
        d.main is None || d.current_monitor is None,
    ensures
        d.overlay is None ==> run_task(
            platform,
            Task::Command(first_stage(Command::CreateOverlay)),
            d,
        ) == (
            Ok::<Outcome, String>(Outcome::Unit),
            DesktopView {
                overlay: Some(
                    WindowState {
                        position: Some(PhysicalPosition { x: 576, y: 0 }),
                        corner_radius: match platform {
                            Platform::MacOs => Some(16u32),
                            Platform::Other => None,
                        },
                        ..fresh_window(overlay_spec(fallback_monitor()))
                    },
                ),
                ..d
            },
        ),
        d.editor_fab is None ==> run_task(platform, Task::CreateFab(FabStage::Start), d) == (
            Ok::<Outcome, String>(Outcome::Unit),
            DesktopView {
                editor_fab: Some(
                    WindowState {
                        position: Some(PhysicalPosition { x: 1848, y: 1008 }),
                        ..fresh_window(fab_spec())
                    },
                ),
                ..d
            },
        ),
{
    law_fallback_geometry();
    if d.overlay is None {
        law_create_overlay_builds_missing(platform, d);
    }
    if d.editor_fab is None {
        law_create_fab_builds_missing(platform, d);
    }
}

/// Whether the host `d` would refuse the shortcut: it is taken, or it is
/// registered already.
pub open spec fn refused(d: DesktopView, shortcut: Shortcut) -> bool {
    d.taken.contains(shortcut) || d.registered.contains(shortcut)
}

/// The host after the startup has dealt with the shortcut of `action`:
/// the shortcut is registered, or, where the host refuses it, a notice of
/// that is written.
pub open spec fn attempted(platform: Platform, d: DesktopView, action: Action) -> DesktopView {
    let shortcut = binding(platform, action);
    if refused(d, shortcut) {
        DesktopView {
            notices: d.notices.push(Notice::ShortcutRejected(shortcut, d.refusal)),
            ..d
        }
    } else {
        DesktopView { registered: d.registered.push(shortcut), ..d }
    }
}

/// The host after the startup has dealt with every shortcut, in
/// registration order.
pub open spec fn all_attempted(platform: Platform, d: DesktopView) -> DesktopView {
    let d1 = attempted(platform, d, Action::ToggleOverlay);
    let d2 = attempted(platform, d1, Action::Emit(OverlayEvent::TogglePlay));
    let d3 = attempted(platform, d2, Action::Emit(OverlayEvent::CycleSpeed));
    let d4 = attempted(platform, d3, Action::Emit(OverlayEvent::Rewind));
    let d5 = attempted(platform, d4, Action::Emit(OverlayEvent::ScrollUp));
    attempted(platform, d5, Action::Emit(OverlayEvent::ScrollDown))
}

/// The host with both auxiliary windows made sure of: each is as it was
/// where it existed, and as the shell creates it where it did not.
pub open spec fn windows_made_sure(platform: Platform, d: DesktopView) -> DesktopView {
    DesktopView {
        overlay: Some(
            match d.overlay {
                Some(w) => w,
                None => created_overlay(platform, d.primary_monitor),
            },
        ),
        editor_fab: Some(fab_made_sure(d)),
        ..d
    }
}

/// What is left of the startup from the registration of the shortcut of
/// `action` on.
spec fn startup_from(platform: Platform, action: Action, d: DesktopView) -> (
    Result<Outcome, String>,
    DesktopView,
) {
    let (answer, after) = d.perform(Request::Register(binding(platform, action)));
    run_from(platform, Task::Startup(StartupStage::Registering(action)), answer, after)
}

/// What is left of the startup once every shortcut is dealt with.
spec fn startup_windows(platform: Platform, d: DesktopView) -> (
    Result<Outcome, String>,
    DesktopView,
) {
    run_from(
        platform,
        Task::Startup(StartupStage::Overlay(OverlayStage::Lookup)),
        Reply::Flag(d.overlay is Some),
        d,
    )
}

/// Dealing with one shortcut leaves the startup at the next shortcut, or
/// at the windows after the last.
proof fn lemma_startup_deals_with_shortcut(platform: Platform, action: Action, d: DesktopView)
    ensures
        startup_from(platform, action, d) == match successor(action) {
            Some(next) => startup_from(platform, next, attempted(platform, d, action)),
            None => startup_windows(platform, attempted(platform, d, action)),
        },
{
    reveal_with_fuel(run_from, 3);
}

/// What is left of the startup once the overlay is made sure of.
spec fn startup_fab(platform: Platform, d: DesktopView) -> (Result<Outcome, String>, DesktopView) {
    run_from(
        platform,
        Task::Startup(StartupStage::Fab(FabStage::Lookup)),
        Reply::Flag(d.editor_fab is Some),
        d,
    )
}

/// With the shortcuts dealt with, the startup leaves an existing overlay
/// alone and goes on to the floating button.
proof fn lemma_startup_keeps_overlay(platform: Platform, d: DesktopView)
    requires
        d.overlay is Some,
    ensures
        startup_windows(platform, d) == startup_fab(platform, d),
{
    reveal_with_fuel(run_from, 2);
}

/// With the shortcuts dealt with, the startup creates a missing overlay
/// and goes on to the floating button.
proof fn lemma_startup_creates_overlay(platform: Platform, d: DesktopView)
    requires
        d.overlay is None,
    ensures
        startup_windows(platform, d) == startup_fab(
            platform,
            DesktopView { overlay: Some(created_overlay(platform, d.primary_monitor)), ..d },
        ),
{
    reveal_with_fuel(run_from, 6);
}

/// With the overlay made sure of, the startup leaves an existing button
/// alone and ends well.
proof fn lemma_startup_keeps_fab(platform: Platform, d: DesktopView)
    requires
        d.editor_fab is Some,
    ensures
        startup_fab(platform, d) == (Ok::<Outcome, String>(Outcome::Unit), d),
{
    reveal_with_fuel(run_from, 2);
}

/// With the overlay made sure of, the startup creates a missing button
/// and ends well.
proof fn lemma_startup_creates_fab(platform: Platform, d: DesktopView)
    requires
        d.editor_fab is None,
    ensures
        startup_fab(platform, d) == (
            Ok::<Outcome, String>(Outcome::Unit),
            DesktopView { editor_fab: Some(created_fab(fab_monitor(d))), ..d },
        ),
{
    reveal_with_fuel(run_from, 7);
}

/// The last part of the startup: both windows are made sure of, and the
/// startup ends well.
proof fn lemma_startup_makes_sure_of_windows(platform: Platform, d: DesktopView)
    ensures
        startup_windows(platform, d) == (
            Ok::<Outcome, String>(Outcome::Unit),
            windows_made_sure(platform, d),
        ),
{
    let with_overlay = DesktopView { overlay: windows_made_sure(platform, d).overlay, ..d };
    if d.overlay is Some {
        lemma_startup_keeps_overlay(platform, d);
    } else {
        lemma_startup_creates_overlay(platform, d);
    }
    if d.editor_fab is Some {
        lemma_startup_keeps_fab(platform, with_overlay);
    } else {
        lemma_startup_creates_fab(platform, with_overlay);
    }
}

/// The startup ends well on every host. It deals with every shortcut in
/// registration order, registering those the host accepts and noting
/// those it refuses, and then makes sure of both windows.
pub proof fn law_startup(platform: Platform, d: DesktopView)
    ensures
        run_task(platform, Task::Startup(StartupStage::Start), d) == (
            Ok::<Outcome, String>(Outcome::Unit),
            windows_made_sure(platform, all_attempted(platform, d)),
        ),
{
    let d1 = attempted(platform, d, Action::ToggleOverlay);
    let d2 = attempted(platform, d1, Action::Emit(OverlayEvent::TogglePlay));
    let d3 = attempted(platform, d2, Action::Emit(OverlayEvent::CycleSpeed));
    let d4 = attempted(platform, d3, Action::Emit(OverlayEvent::Rewind));
    let d5 = attempted(platform, d4, Action::Emit(OverlayEvent::ScrollUp));
    let d6 = attempted(platform, d5, Action::Emit(OverlayEvent::ScrollDown));
    assert(run_task(platform, Task::Startup(StartupStage::Start), d) == startup_from(
        platform,
        Action::ToggleOverlay,
        d,
    )) by {
        reveal_with_fuel(run_from, 2);
    }
    lemma_startup_deals_with_shortcut(platform, Action::ToggleOverlay, d);
    lemma_startup_deals_with_shortcut(platform, Action::Emit(OverlayEvent::TogglePlay), d1);
    lemma_startup_deals_with_shortcut(platform, Action::Emit(OverlayEvent::CycleSpeed), d2);
    lemma_startup_deals_with_shortcut(platform, Action::Emit(OverlayEvent::Rewind), d3);
    lemma_startup_deals_with_shortcut(platform, Action::Emit(OverlayEvent::ScrollUp), d4);
    lemma_startup_deals_with_shortcut(platform, Action::Emit(OverlayEvent::ScrollDown), d5);
    lemma_startup_makes_sure_of_windows(platform, d6);
}

/// Dealing with the shortcut of `action` keeps what was registered, and
/// registers a shortcut that the host does not refuse.
proof fn lemma_attempt_registers(platform: Platform, d: DesktopView, action: Action, s: Shortcut)
    ensures
        ({
            let after = attempted(platform, d, action);
            &&& after.taken == d.taken
            &&& d.registered.contains(s) ==> after.registered.contains(s)
            &&& s == binding(platform, action) && !refused(d, s) ==> after.registered.contains(s)
            &&& s != binding(platform, action) ==> (refused(after, s) <==> refused(d, s))
        }),
{
    let b = binding(platform, action);
    let after = attempted(platform, d, action);
    if !refused(d, b) {
        assert(after.registered == d.registered.push(b));
        assert(after.registered[d.registered.len() as int] == b);
        if d.registered.contains(s) {
            let i = choose|i: int| 0 <= i < d.registered.len() && d.registered[i] == s;
            assert(after.registered[i] == s);
        }
        if s != b && after.registered.contains(s) {
            let j = choose|j: int| 0 <= j < after.registered.len() && after.registered[j] == s;
            assert(d.registered[j] == s);
        }
    }
}

/// A shortcut that fails to register stops nothing: after the startup,
/// every shortcut of the shell that the host did not refuse is registered,
/// whichever others it refused, both auxiliary windows exist, and the
/// startup has ended well.
pub proof fn law_startup_survives_refused_shortcuts(
    platform: Platform,
    d: DesktopView,
    action: Action,
)
    ensures
        ({
            let (outcome, after) = run_task(platform, Task::Startup(StartupStage::Start), d);
            &&& outcome == Ok::<Outcome, String>(Outcome::Unit)
            &&& after.overlay is Some
            &&& after.editor_fab is Some
            &&& !refused(d, binding(platform, action)) ==> after.registered.contains(
                binding(platform, action),
            )
        }),
{
    law_startup(platform, d);
    let s = binding(platform, action);
    let a1 = Action::ToggleOverlay;
    let a2 = Action::Emit(OverlayEvent::TogglePlay);
    let a3 = Action::Emit(OverlayEvent::CycleSpeed);
    let a4 = Action::Emit(OverlayEvent::Rewind);
    let a5 = Action::Emit(OverlayEvent::ScrollUp);
    let a6 = Action::Emit(OverlayEvent::ScrollDown);
    let d1 = attempted(platform, d, a1);
    let d2 = attempted(platform, d1, a2);
    let d3 = attempted(platform, d2, a3);
    let d4 = attempted(platform, d3, a4);
    let d5 = attempted(platform, d4, a5);
    lemma_attempt_registers(platform, d, a1, s);
    lemma_attempt_registers(platform, d1, a2, s);
    lemma_attempt_registers(platform, d2, a3, s);
    lemma_attempt_registers(platform, d3, a4, s);
    lemma_attempt_registers(platform, d4, a5, s);
    lemma_attempt_registers(platform, d5, a6, s);
}

/// A shortcut event that triggers nothing (the key came up, or the
/// shortcut is not the shell's) leaves the host as it is.
pub proof fn law_idle_shortcut_changes_nothing(
    platform: Platform,
    d: DesktopView,
    shortcut: Shortcut,
    state: ShortcutState,
)
    requires
        triggered(platform, shortcut, state) is None,
    ensures
        run_task(platform, Task::Hotkey(HotkeyStage::Received(shortcut, state)), d) == (
            Ok::<Outcome, String>(Outcome::Unit),
            d,
        ),
{
    reveal_with_fuel(run_from, 2);
}

/// A shortcut event that triggers a broadcast sends that one event to the
/// overlay and changes nothing else.
pub proof fn law_shortcut_broadcasts_once(
    platform: Platform,
    d: DesktopView,
    shortcut: Shortcut,
    state: ShortcutState,
    event: OverlayEvent,
)
    requires
        triggered(platform, shortcut, state) == Some(Action::Emit(event)),
    ensures
        run_task(platform, Task::Hotkey(HotkeyStage::Received(shortcut, state)), d) == (
            Ok::<Outcome, String>(Outcome::Unit),
            DesktopView { emitted: d.emitted.push((WindowLabel::Overlay, event)), ..d },
        ),
{
    reveal_with_fuel(run_from, 3);
}

/// A pressed toggle shortcut on a host with an overlay flips the
/// overlay's visibility.
proof fn lemma_shortcut_flips_overlay(
    platform: Platform,
    d: DesktopView,
    shortcut: Shortcut,
    state: ShortcutState,
    w: WindowState,
)
    requires
        triggered(platform, shortcut, state) == Some(Action::ToggleOverlay),
        d.overlay == Some(w),
    ensures
        run_task(platform, Task::Hotkey(HotkeyStage::Received(shortcut, state)), d) == (
            Ok::<Outcome, String>(Outcome::Unit),
            DesktopView {
                overlay: if w.visible {
                    hidden(Some(w))
                } else {
                    shown(Some(w))
                },
                ..d
            },
        ),
{
    reveal_with_fuel(run_from, 4);
}

/// A pressed toggle shortcut on a host without an overlay creates the
/// overlay and shows it.
proof fn lemma_shortcut_creates_overlay(
    platform: Platform,
    d: DesktopView,
    shortcut: Shortcut,
    state: ShortcutState,
)
    requires
        triggered(platform, shortcut, state) == Some(Action::ToggleOverlay),
        d.overlay is None,
    ensures
        run_task(platform, Task::Hotkey(HotkeyStage::Received(shortcut, state)), d) == (
            Ok::<Outcome, String>(Outcome::Unit),
            DesktopView {
                overlay: shown(Some(created_overlay(platform, d.primary_monitor))),
                ..d
            },
        ),
{
    reveal_with_fuel(run_from, 8);
}

/// A shortcut event that triggers the toggle leaves the host as the toggle
/// command does, and broadcasts nothing.
pub proof fn law_shortcut_toggles_like_command(
    platform: Platform,
    d: DesktopView,
    shortcut: Shortcut,
    state: ShortcutState,
)
    requires
        triggered(platform, shortcut, state) == Some(Action::ToggleOverlay),
    ensures
        run_task(platform, Task::Hotkey(HotkeyStage::Received(shortcut, state)), d) == (
            Ok::<Outcome, String>(Outcome::Unit),
            run_task(platform, Task::Command(first_stage(Command::ToggleOverlay)), d).1,
        ),
{
    match d.overlay {
        Some(w) => {
            lemma_shortcut_flips_overlay(platform, d, shortcut, state, w);
            if w.visible {
                law_toggle_hides_visible(platform, d, w);
            } else {
                law_toggle_shows_hidden(platform, d, w);
            }
        },
        None => {
            lemma_shortcut_creates_overlay(platform, d, shortcut, state);
            law_toggle_creates_missing(platform, d);
        },
    }
}

} // verus!
