use steadi_shell::commands::{Command, Outcome};
use steadi_shell::desktop::{Desktop, WindowState};
use steadi_shell::geometry::{LogicalSize, MonitorInfo, PhysicalPosition};
use steadi_shell::host::{Notice, Reply, Request};
use steadi_shell::shell::Task;
use steadi_shell::shortcuts::{
    cycle_speed_shortcut, rewind_shortcut, scroll_down_shortcut, scroll_up_shortcut,
    toggle_overlay_shortcut, toggle_play_shortcut, Action, Code, OverlayEvent, Platform, Shortcut,
    ShortcutState,
};
use steadi_shell::window::{WindowLabel, WindowSpec, WindowStyle};

fn empty() -> Desktop {
    Desktop::new("refused".to_string())
}

fn plain_window(visible: bool) -> WindowState {
    WindowState {
        style: WindowStyle {
            transparent: false,
            decorations: true,
            always_on_top: false,
            shadow: true,
            skip_taskbar: false,
            resizable: true,
            visible: true,
            content_protected: false,
        },
        size: LogicalSize { width: 1200, height: 800 },
        position: None,
        visible,
        focused: false,
        corner_radius: None,
    }
}

fn with_main(visible: bool) -> Desktop {
    let mut d = empty();
    d.main = Some(plain_window(visible));
    d
}

fn wide() -> MonitorInfo {
    MonitorInfo { work_x: 0, work_y: 0, work_w: 2560, work_h: 1400, scale_milli: 1250 }
}

fn refused() -> Reply {
    Reply::Failed("refused".to_string())
}

#[test]
fn new_desktop_is_empty() {
    let d = empty();
    assert_eq!(d.window(WindowLabel::Main), None);
    assert_eq!(d.window(WindowLabel::Overlay), None);
    assert_eq!(d.window(WindowLabel::EditorFab), None);
    assert_eq!(d.current_monitor, None);
    assert_eq!(d.primary_monitor, None);
    assert!(d.taken.is_empty());
    assert!(d.registered.is_empty());
    assert!(d.emitted.is_empty());
    assert!(d.notices.is_empty());
    assert_eq!(d.refusal, "refused");
}

#[test]
fn host_answers_questions_without_changing() {
    let mut d = with_main(true);
    d.current_monitor = Some(wide());
    d.primary_monitor = Some(MonitorInfo::fallback());
    assert_eq!(d.perform(Request::Lookup(WindowLabel::Main)), Reply::Flag(true));
    assert_eq!(d.perform(Request::Lookup(WindowLabel::Overlay)), Reply::Flag(false));
    assert_eq!(d.perform(Request::QueryVisible(WindowLabel::Main)), Reply::Flag(true));
    assert_eq!(d.perform(Request::QueryVisible(WindowLabel::Overlay)), refused());
    assert_eq!(
        d.perform(Request::QueryCurrentMonitor(WindowLabel::Main)),
        Reply::Monitor(Some(wide()))
    );
    assert_eq!(
        d.perform(Request::QueryCurrentMonitor(WindowLabel::Overlay)),
        Reply::Monitor(None)
    );
    assert_eq!(
        d.perform(Request::QueryPrimaryMonitor),
        Reply::Monitor(Some(MonitorInfo::fallback()))
    );
    assert_eq!(d.main, Some(plain_window(true)));
    assert_eq!(d.overlay, None);
}

#[test]
fn host_builds_a_window_once() {
    let mut d = empty();
    let spec = WindowSpec::editor_fab();
    assert_eq!(d.perform(Request::Build(spec)), Reply::Done);
    let built = d.window(WindowLabel::EditorFab).unwrap();
    assert_eq!(built, WindowState::fresh(&spec));
    assert!(!built.visible);
    assert!(!built.focused);
    assert_eq!(built.position, None);
    assert_eq!(built.corner_radius, None);
    assert_eq!(built.size, LogicalSize { width: 56, height: 56 });
    assert_eq!(d.perform(Request::Build(spec)), refused());
    assert_eq!(d.window(WindowLabel::EditorFab), Some(built));
}

#[test]
fn host_acts_on_existing_windows_only() {
    let mut d = empty();
    let at = PhysicalPosition { x: 3, y: 4 };
    assert_eq!(d.perform(Request::Show(WindowLabel::Overlay)), refused());
    assert_eq!(d.perform(Request::Hide(WindowLabel::Overlay)), refused());
    assert_eq!(d.perform(Request::Focus(WindowLabel::Overlay)), refused());
    assert_eq!(d.perform(Request::SetPosition(WindowLabel::Overlay, at)), refused());
    assert_eq!(d.perform(Request::RoundBottomCorners(WindowLabel::Overlay, 16)), refused());
    assert_eq!(d.overlay, None);
    d.overlay = Some(plain_window(false));
    assert_eq!(d.perform(Request::Show(WindowLabel::Overlay)), Reply::Done);
    assert!(d.overlay.unwrap().visible);
    assert_eq!(d.perform(Request::SetPosition(WindowLabel::Overlay, at)), Reply::Done);
    assert_eq!(d.overlay.unwrap().position, Some(at));
    assert_eq!(d.perform(Request::RoundBottomCorners(WindowLabel::Overlay, 16)), Reply::Done);
    assert_eq!(d.overlay.unwrap().corner_radius, Some(16));
    assert_eq!(d.perform(Request::Hide(WindowLabel::Overlay)), Reply::Done);
    assert!(!d.overlay.unwrap().visible);
}

#[test]
fn focus_moves_from_window_to_window() {
    let mut d = with_main(true);
    d.overlay = Some(plain_window(true));
    assert_eq!(d.perform(Request::Focus(WindowLabel::Overlay)), Reply::Done);
    assert!(d.overlay.unwrap().focused);
    assert!(!d.main.unwrap().focused);
    assert_eq!(d.perform(Request::Focus(WindowLabel::Main)), Reply::Done);
    assert!(d.main.unwrap().focused);
    assert!(!d.overlay.unwrap().focused);
    assert_eq!(d.perform(Request::Hide(WindowLabel::Main)), Reply::Done);
    assert!(!d.main.unwrap().focused);
}

#[test]
fn host_registers_a_free_shortcut_once() {
    let mut d = empty();
    let free = Shortcut::new(None, Code::KeyF);
    let taken = Shortcut::new(None, Code::KeyS);
    d.taken.push(taken);
    assert_eq!(d.perform(Request::Register(free)), Reply::Done);
    assert_eq!(d.perform(Request::Register(free)), refused());
    assert_eq!(d.perform(Request::Register(taken)), refused());
    assert_eq!(d.registered, vec![free]);
}

#[test]
fn host_records_events_and_notices_in_order() {
    let mut d = empty();
    assert_eq!(
        d.perform(Request::Emit(WindowLabel::Overlay, OverlayEvent::Rewind)),
        Reply::Done
    );
    assert_eq!(
        d.perform(Request::Emit(WindowLabel::Overlay, OverlayEvent::ScrollUp)),
        Reply::Done
    );
    assert_eq!(
        d.emitted,
        vec![
            (WindowLabel::Overlay, OverlayEvent::Rewind),
            (WindowLabel::Overlay, OverlayEvent::ScrollUp)
        ]
    );
    assert_eq!(
        d.perform(Request::Log(Notice::OverlayNotCreated("a".to_string()))),
        Reply::Done
    );
    assert_eq!(d.perform(Request::Log(Notice::FabNotCreated("b".to_string()))), Reply::Done);
    assert_eq!(
        d.notices,
        vec![
            Notice::OverlayNotCreated("a".to_string()),
            Notice::FabNotCreated("b".to_string())
        ]
    );
}

#[test]
fn creating_the_overlay_twice_leaves_one_overlay_and_no_error() {
    let p = Platform::MacOs;
    let mut d = empty();
    d.primary_monitor = Some(wide());
    assert_eq!(d.run(p, Task::command(Command::CreateOverlay)), Ok(Outcome::Unit));
    let once = d.overlay.unwrap();
    assert!(!once.visible);
    assert_eq!(once.position, Some(PhysicalPosition { x: 768, y: 0 }));
    assert_eq!(once.size, LogicalSize { width: 819, height: 140 });
    assert_eq!(once.corner_radius, Some(16));
    assert_eq!(once.style, WindowStyle::floating(true));
    assert_eq!(d.run(p, Task::command(Command::CreateOverlay)), Ok(Outcome::Unit));
    assert_eq!(d.overlay, Some(once));
    assert_eq!(d.main, None);
    assert_eq!(d.editor_fab, None);
    assert!(d.notices.is_empty());
}

#[test]
fn overlay_keeps_square_corners_off_macos() {
    let mut d = empty();
    assert_eq!(d.run(Platform::Other, Task::command(Command::CreateOverlay)), Ok(Outcome::Unit));
    assert_eq!(d.overlay.unwrap().corner_radius, None);
}

#[test]
fn creating_the_fab_twice_leaves_one_fab_and_no_error() {
    let p = Platform::Other;
    let mut d = with_main(true);
    d.current_monitor = Some(wide());
    d.primary_monitor = Some(MonitorInfo::fallback());
    assert_eq!(d.run(p, Task::create_editor_fab()), Ok(Outcome::Unit));
    let once = d.editor_fab.unwrap();
    assert!(!once.visible);
    assert_eq!(once.position, Some(PhysicalPosition { x: 2470, y: 1310 }));
    assert_eq!(once.size, LogicalSize { width: 56, height: 56 });
    assert_eq!(once.style, WindowStyle::floating(false));
    assert_eq!(d.run(p, Task::create_editor_fab()), Ok(Outcome::Unit));
    assert_eq!(d.editor_fab, Some(once));
    assert_eq!(d.main, Some(plain_window(true)));
}

#[test]
fn fab_goes_to_the_primary_monitor_without_a_main_window() {
    let mut d = empty();
    d.current_monitor = Some(wide());
    d.primary_monitor = Some(MonitorInfo {
        work_x: 0,
        work_y: 25,
        work_w: 1440,
        work_h: 875,
        scale_milli: 1000,
    });
    assert_eq!(d.run(Platform::Other, Task::create_editor_fab()), Ok(Outcome::Unit));
    assert_eq!(d.editor_fab.unwrap().position, Some(PhysicalPosition { x: 1368, y: 828 }));
}

#[test]
fn windows_fall_back_to_full_hd_when_no_monitor_is_known() {
    let p = Platform::Other;
    let mut d = with_main(true);
    assert_eq!(d.run(p, Task::create_editor_fab()), Ok(Outcome::Unit));
    assert_eq!(d.run(p, Task::command(Command::CreateOverlay)), Ok(Outcome::Unit));
    let fab = d.editor_fab.unwrap();
    assert_eq!(fab.position, Some(PhysicalPosition { x: 1848, y: 1008 }));
    assert_eq!(fab.size, LogicalSize { width: 56, height: 56 });
    let overlay = d.overlay.unwrap();
    assert_eq!(overlay.position, Some(PhysicalPosition { x: 576, y: 0 }));
    assert_eq!(overlay.size, LogicalSize { width: 768, height: 140 });
}

#[test]
fn toggle_shows_a_hidden_overlay_and_returns_true() {
    let mut d = empty();
    d.overlay = Some(plain_window(false));
    assert_eq!(
        d.run(Platform::Other, Task::command(Command::ToggleOverlay)),
        Ok(Outcome::Visibility(true))
    );
    assert_eq!(d.overlay, Some(plain_window(true)));
}

#[test]
fn toggle_hides_a_visible_overlay_and_returns_false() {
    let mut d = empty();
    d.overlay = Some(plain_window(true));
    assert_eq!(
        d.run(Platform::Other, Task::command(Command::ToggleOverlay)),
        Ok(Outcome::Visibility(false))
    );
    assert_eq!(d.overlay, Some(plain_window(false)));
}

#[test]
fn toggle_creates_a_missing_overlay_visible_and_returns_true() {
    let mut d = empty();
    assert_eq!(
        d.run(Platform::Other, Task::command(Command::ToggleOverlay)),
        Ok(Outcome::Visibility(true))
    );
    let overlay = d.overlay.unwrap();
    assert!(overlay.visible);
    assert_eq!(overlay.position, Some(PhysicalPosition { x: 576, y: 0 }));
    assert_eq!(
        d.run(Platform::Other, Task::command(Command::ToggleOverlay)),
        Ok(Outcome::Visibility(false))
    );
    assert!(!d.overlay.unwrap().visible);
}

#[test]
fn session_shows_overlay_and_fab_and_hides_main_from_any_state() {
    for main_visible in [false, true] {
        for overlay_visible in [false, true] {
            for fab in [None, Some(false), Some(true)] {
                let mut d = with_main(main_visible);
                d.overlay = Some(plain_window(overlay_visible));
                d.editor_fab = fab.map(plain_window);
                assert_eq!(
                    d.run(Platform::Other, Task::command(Command::StartTeleprompterSession)),
                    Ok(Outcome::Unit)
                );
                assert!(d.overlay.unwrap().visible);
                assert!(d.editor_fab.unwrap().visible);
                assert!(!d.main.unwrap().visible);
            }
        }
    }
}

#[test]
fn session_creates_the_fab_but_not_the_overlay() {
    let mut d = empty();
    assert_eq!(
        d.run(Platform::Other, Task::command(Command::StartTeleprompterSession)),
        Ok(Outcome::Unit)
    );
    assert_eq!(d.overlay, None);
    assert_eq!(d.main, None);
    let fab = d.editor_fab.unwrap();
    assert!(fab.visible);
    assert_eq!(fab.position, Some(PhysicalPosition { x: 1848, y: 1008 }));
}

#[test]
fn restore_shows_and_focuses_main_and_hides_the_fab_from_any_state() {
    for main_visible in [false, true] {
        for fab_visible in [false, true] {
            let mut d = with_main(main_visible);
            d.editor_fab = Some(WindowState { focused: true, ..plain_window(fab_visible) });
            d.overlay = Some(plain_window(true));
            assert_eq!(
                d.run(Platform::Other, Task::command(Command::RestoreEditor)),
                Ok(Outcome::Unit)
            );
            let main = d.main.unwrap();
            assert!(main.visible);
            assert!(main.focused);
            let fab = d.editor_fab.unwrap();
            assert!(!fab.visible);
            assert!(!fab.focused);
            assert_eq!(d.overlay, Some(plain_window(true)));
        }
    }
}

#[test]
fn restore_without_windows_changes_nothing() {
    let mut d = empty();
    assert_eq!(d.run(Platform::Other, Task::command(Command::RestoreEditor)), Ok(Outcome::Unit));
    assert_eq!(d.main, None);
    assert_eq!(d.editor_fab, None);
    assert_eq!(d.overlay, None);
}

#[test]
fn hide_overlay_touches_no_other_window() {
    let mut d = with_main(true);
    d.overlay = Some(plain_window(true));
    d.editor_fab = Some(plain_window(true));
    assert_eq!(d.run(Platform::Other, Task::command(Command::HideOverlay)), Ok(Outcome::Unit));
    assert_eq!(d.overlay, Some(plain_window(false)));
    assert_eq!(d.main, Some(plain_window(true)));
    assert_eq!(d.editor_fab, Some(plain_window(true)));
}

#[test]
fn hiding_a_missing_overlay_changes_nothing() {
    let mut d = empty();
    assert_eq!(d.run(Platform::Other, Task::command(Command::HideOverlay)), Ok(Outcome::Unit));
    assert_eq!(d.overlay, None);
}

#[test]
fn hide_fab_hides_the_fab_where_there_is_one() {
    let mut d = empty();
    assert_eq!(d.run(Platform::Other, Task::hide_fab()), Ok(Outcome::Unit));
    assert_eq!(d.editor_fab, None);
    d.editor_fab = Some(plain_window(true));
    assert_eq!(d.run(Platform::Other, Task::hide_fab()), Ok(Outcome::Unit));
    assert_eq!(d.editor_fab, Some(plain_window(false)));
}

#[test]
fn startup_registers_all_shortcuts_and_creates_both_windows() {
    let p = Platform::Other;
    let mut d = empty();
    assert_eq!(d.run(p, Task::startup()), Ok(Outcome::Unit));
    assert_eq!(
        d.registered,
        vec![
            toggle_overlay_shortcut(p),
            toggle_play_shortcut(p),
            cycle_speed_shortcut(p),
            rewind_shortcut(p),
            scroll_up_shortcut(p),
            scroll_down_shortcut(p),
        ]
    );
    assert!(d.notices.is_empty());
    assert!(!d.overlay.unwrap().visible);
    assert!(!d.editor_fab.unwrap().visible);
}

#[test]
fn startup_survives_one_refused_shortcut() {
    let p = Platform::MacOs;
    let mut d = empty();
    d.taken.push(cycle_speed_shortcut(p));
    assert_eq!(d.run(p, Task::startup()), Ok(Outcome::Unit));
    assert_eq!(
        d.registered,
        vec![
            toggle_overlay_shortcut(p),
            toggle_play_shortcut(p),
            rewind_shortcut(p),
            scroll_up_shortcut(p),
            scroll_down_shortcut(p),
        ]
    );
    assert_eq!(
        d.notices,
        vec![Notice::ShortcutRejected(cycle_speed_shortcut(p), "refused".to_string())]
    );
    assert!(d.overlay.is_some());
    assert!(d.editor_fab.is_some());
}

#[test]
fn startup_survives_every_shortcut_refused() {
    let p = Platform::Other;
    let mut d = empty();
    for action in [
        Action::ToggleOverlay,
        Action::Emit(OverlayEvent::TogglePlay),
        Action::Emit(OverlayEvent::CycleSpeed),
        Action::Emit(OverlayEvent::Rewind),
        Action::Emit(OverlayEvent::ScrollUp),
        Action::Emit(OverlayEvent::ScrollDown),
    ] {
        d.taken.push(action.shortcut(p));
    }
    assert_eq!(d.run(p, Task::startup()), Ok(Outcome::Unit));
    assert!(d.registered.is_empty());
    assert_eq!(d.notices.len(), 6);
    assert_eq!(
        d.notices[0],
        Notice::ShortcutRejected(toggle_overlay_shortcut(p), "refused".to_string())
    );
    assert_eq!(
        d.notices[5],
        Notice::ShortcutRejected(scroll_down_shortcut(p), "refused".to_string())
    );
    assert!(d.overlay.is_some());
    assert!(d.editor_fab.is_some());
}

#[test]
fn startup_leaves_existing_windows_alone() {
    let p = Platform::Other;
    let mut d = empty();
    d.overlay = Some(plain_window(true));
    d.editor_fab = Some(plain_window(true));
    assert_eq!(d.run(p, Task::startup()), Ok(Outcome::Unit));
    assert_eq!(d.overlay, Some(plain_window(true)));
    assert_eq!(d.editor_fab, Some(plain_window(true)));
}

#[test]
fn pressed_toggle_shortcut_toggles_the_overlay() {
    let p = Platform::Other;
    let mut d = empty();
    d.overlay = Some(plain_window(false));
    let task = Task::shortcut(toggle_overlay_shortcut(p), ShortcutState::Pressed);
    assert_eq!(d.run(p, task), Ok(Outcome::Unit));
    assert_eq!(d.overlay, Some(plain_window(true)));
    assert!(d.emitted.is_empty());
}

#[test]
fn released_toggle_shortcut_changes_nothing() {
    let p = Platform::Other;
    let mut d = empty();
    d.overlay = Some(plain_window(false));
    let task = Task::shortcut(toggle_overlay_shortcut(p), ShortcutState::Released);
    assert_eq!(d.run(p, task), Ok(Outcome::Unit));
    assert_eq!(d.overlay, Some(plain_window(false)));
    assert!(d.emitted.is_empty());
}

#[test]
fn pressed_rewind_shortcut_broadcasts_one_event() {
    let p = Platform::MacOs;
    let mut d = empty();
    d.overlay = Some(plain_window(true));
    let task = Task::shortcut(rewind_shortcut(p), ShortcutState::Pressed);
    assert_eq!(d.run(p, task), Ok(Outcome::Unit));
    assert_eq!(d.emitted, vec![(WindowLabel::Overlay, OverlayEvent::Rewind)]);
    assert_eq!(d.overlay, Some(plain_window(true)));
}
