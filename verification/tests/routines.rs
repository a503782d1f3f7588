use steadi_shell::commands::{
    advance, create_overlay as create_command, hide_overlay, restore_editor,
    start_teleprompter_session, toggle_overlay as toggle_command, Command, CommandStage,
    HideOverlayStage, Outcome, RestoreStage, SessionStage,
};
use steadi_shell::editor_fab::{
    create_editor_fab, hide_fab, monitor_info_for_window, FabStage, HideFabStage, MonitorStage,
};
use steadi_shell::geometry::{MonitorInfo, PhysicalPosition};
use steadi_shell::host::{Reply, Request, Step};
use steadi_shell::overlay::{
    apply_bottom_rounded_corners, create_overlay, toggle_overlay, OverlayStage, ToggleStage,
};
use steadi_shell::shortcuts::Platform;
use steadi_shell::window::{WindowLabel, WindowSpec};

fn wide() -> MonitorInfo {
    MonitorInfo { work_x: 0, work_y: 0, work_w: 2560, work_h: 1400, scale_milli: 1250 }
}

fn failed(words: &str) -> Reply {
    Reply::Failed(words.to_string())
}

#[test]
fn replies_are_read_through_their_projections() {
    assert!(Reply::Flag(true).is_yes());
    assert!(!Reply::Flag(false).is_yes());
    assert!(!Reply::Done.is_yes());
    assert!(!failed("no").is_yes());
    assert!(!Reply::Monitor(Some(wide())).is_yes());
    assert_eq!(Reply::Monitor(Some(wide())).found_monitor(), Some(wide()));
    assert_eq!(Reply::Monitor(None).found_monitor(), None);
    assert_eq!(Reply::Done.found_monitor(), None);
    assert_eq!(Reply::Flag(true).found_monitor(), None);
    assert_eq!(failed("no").found_monitor(), None);
    assert_eq!(failed("no").into_failure(), Err("no".to_string()));
    assert_eq!(Reply::Done.into_failure(), Ok(Reply::Done));
    assert_eq!(Reply::Flag(false).into_failure(), Ok(Reply::Flag(false)));
    assert_eq!(Reply::Monitor(None).into_failure(), Ok(Reply::Monitor(None)));
}

#[test]
fn monitor_search_prefers_the_window_s_monitor() {
    let label = WindowLabel::Main;
    assert_eq!(
        monitor_info_for_window(label, MonitorStage::Start, Reply::Done),
        Step::Ask { request: Request::Lookup(label), stage: MonitorStage::Lookup }
    );
    assert_eq!(
        monitor_info_for_window(label, MonitorStage::Lookup, Reply::Flag(true)),
        Step::Ask { request: Request::QueryCurrentMonitor(label), stage: MonitorStage::Current }
    );
    assert_eq!(
        monitor_info_for_window(label, MonitorStage::Current, Reply::Monitor(Some(wide()))),
        Step::Finish(Ok(wide()))
    );
}

#[test]
fn monitor_search_falls_to_the_primary_monitor() {
    let label = WindowLabel::Main;
    assert_eq!(
        monitor_info_for_window(label, MonitorStage::Lookup, Reply::Flag(false)),
        Step::Ask { request: Request::QueryPrimaryMonitor, stage: MonitorStage::Primary }
    );
    assert_eq!(
        monitor_info_for_window(label, MonitorStage::Current, Reply::Monitor(None)),
        Step::Ask { request: Request::QueryPrimaryMonitor, stage: MonitorStage::Primary }
    );
    assert_eq!(
        monitor_info_for_window(label, MonitorStage::Current, failed("gone")),
        Step::Ask { request: Request::QueryPrimaryMonitor, stage: MonitorStage::Primary }
    );
    assert_eq!(
        monitor_info_for_window(label, MonitorStage::Primary, Reply::Monitor(Some(wide()))),
        Step::Finish(Ok(wide()))
    );
}

#[test]
fn monitor_search_falls_to_the_fallback_display() {
    let label = WindowLabel::Overlay;
    assert_eq!(
        monitor_info_for_window(label, MonitorStage::Primary, Reply::Monitor(None)),
        Step::Finish(Ok(MonitorInfo::fallback()))
    );
    assert_eq!(
        monitor_info_for_window(label, MonitorStage::Primary, failed("no display")),
        Step::Finish(Ok(MonitorInfo::fallback()))
    );
    assert_eq!(
        monitor_info_for_window(label, MonitorStage::Primary, Reply::Done),
        Step::Finish(Ok(MonitorInfo::fallback()))
    );
}

#[test]
fn fab_creation_skips_an_existing_button() {
    assert_eq!(
        create_editor_fab(FabStage::Start, Reply::Done),
        Step::Ask { request: Request::Lookup(WindowLabel::EditorFab), stage: FabStage::Lookup }
    );
    assert_eq!(create_editor_fab(FabStage::Lookup, Reply::Flag(true)), Step::Finish(Ok(())));
}

#[test]
fn fab_creation_builds_then_places() {
    assert_eq!(
        create_editor_fab(FabStage::Lookup, Reply::Flag(false)),
        Step::Ask {
            request: Request::Lookup(WindowLabel::Main),
            stage: FabStage::Monitor(MonitorStage::Lookup)
        }
    );
    assert_eq!(
        create_editor_fab(FabStage::Monitor(MonitorStage::Lookup), Reply::Flag(true)),
        Step::Ask {
            request: Request::QueryCurrentMonitor(WindowLabel::Main),
            stage: FabStage::Monitor(MonitorStage::Current)
        }
    );
    let position = PhysicalPosition { x: 2470, y: 1310 };
    assert_eq!(
        create_editor_fab(
            FabStage::Monitor(MonitorStage::Current),
            Reply::Monitor(Some(wide()))
        ),
        Step::Ask {
            request: Request::Build(WindowSpec::editor_fab()),
            stage: FabStage::Build(position)
        }
    );
    assert_eq!(
        create_editor_fab(FabStage::Build(position), Reply::Done),
        Step::Ask {
            request: Request::SetPosition(WindowLabel::EditorFab, position),
            stage: FabStage::Place
        }
    );
    assert_eq!(create_editor_fab(FabStage::Place, Reply::Done), Step::Finish(Ok(())));
}

#[test]
fn fab_creation_uses_the_fallback_display_when_no_monitor_is_known() {
    assert_eq!(
        create_editor_fab(FabStage::Monitor(MonitorStage::Primary), Reply::Monitor(None)),
        Step::Ask {
            request: Request::Build(WindowSpec::editor_fab()),
            stage: FabStage::Build(PhysicalPosition { x: 1848, y: 1008 })
        }
    );
}

#[test]
fn fab_creation_hands_on_a_build_failure() {
    let position = PhysicalPosition { x: 1, y: 2 };
    assert_eq!(
        create_editor_fab(FabStage::Build(position), failed("cannot build")),
        Step::Finish(Err("cannot build".to_string()))
    );
}

#[test]
fn fab_creation_hands_on_a_placement_failure() {
    assert_eq!(
        create_editor_fab(FabStage::Place, failed("cannot move")),
        Step::Finish(Err("cannot move".to_string()))
    );
}

#[test]
fn hiding_the_fab_skips_a_missing_button() {
    assert_eq!(
        hide_fab(HideFabStage::Start, Reply::Done),
        Step::Ask { request: Request::Lookup(WindowLabel::EditorFab), stage: HideFabStage::Lookup }
    );
    assert_eq!(hide_fab(HideFabStage::Lookup, Reply::Flag(false)), Step::Finish(Ok(())));
}

#[test]
fn hiding_the_fab_overlooks_a_failure() {
    assert_eq!(
        hide_fab(HideFabStage::Lookup, Reply::Flag(true)),
        Step::Ask { request: Request::Hide(WindowLabel::EditorFab), stage: HideFabStage::Hide }
    );
    assert_eq!(hide_fab(HideFabStage::Hide, Reply::Done), Step::Finish(Ok(())));
    assert_eq!(hide_fab(HideFabStage::Hide, failed("cannot hide")), Step::Finish(Ok(())));
}

#[test]
fn corners_are_rounded_on_macos_only() {
    assert_eq!(
        apply_bottom_rounded_corners(Platform::MacOs),
        Some(Request::RoundBottomCorners(WindowLabel::Overlay, 16))
    );
    assert_eq!(apply_bottom_rounded_corners(Platform::Other), None);
}

#[test]
fn overlay_creation_skips_an_existing_overlay() {
    assert_eq!(
        create_overlay(Platform::Other, OverlayStage::Start, Reply::Done),
        Step::Ask { request: Request::Lookup(WindowLabel::Overlay), stage: OverlayStage::Lookup }
    );
    assert_eq!(
        create_overlay(Platform::Other, OverlayStage::Lookup, Reply::Flag(true)),
        Step::Finish(Ok(()))
    );
}

#[test]
fn overlay_creation_builds_then_places() {
    let p = Platform::Other;
    assert_eq!(
        create_overlay(p, OverlayStage::Lookup, Reply::Flag(false)),
        Step::Ask { request: Request::QueryPrimaryMonitor, stage: OverlayStage::Monitor }
    );
    let position = PhysicalPosition { x: 768, y: 0 };
    assert_eq!(
        create_overlay(p, OverlayStage::Monitor, Reply::Monitor(Some(wide()))),
        Step::Ask {
            request: Request::Build(WindowSpec::overlay(&wide())),
            stage: OverlayStage::Build(position)
        }
    );
    assert_eq!(
        create_overlay(p, OverlayStage::Build(position), Reply::Done),
        Step::Ask {
            request: Request::SetPosition(WindowLabel::Overlay, position),
            stage: OverlayStage::Place
        }
    );
    assert_eq!(create_overlay(p, OverlayStage::Place, Reply::Done), Step::Finish(Ok(())));
}

#[test]
fn overlay_creation_rounds_corners_on_macos() {
    let p = Platform::MacOs;
    assert_eq!(
        create_overlay(p, OverlayStage::Place, Reply::Done),
        Step::Ask {
            request: Request::RoundBottomCorners(WindowLabel::Overlay, 16),
            stage: OverlayStage::Round
        }
    );
    assert_eq!(create_overlay(p, OverlayStage::Round, Reply::Done), Step::Finish(Ok(())));
    assert_eq!(create_overlay(p, OverlayStage::Round, failed("no layer")), Step::Finish(Ok(())));
}

#[test]
fn overlay_creation_uses_the_fallback_display_when_no_monitor_is_known() {
    let expected = Step::Ask {
        request: Request::Build(WindowSpec::overlay(&MonitorInfo::fallback())),
        stage: OverlayStage::Build(PhysicalPosition { x: 576, y: 0 }),
    };
    assert_eq!(
        create_overlay(Platform::Other, OverlayStage::Monitor, Reply::Monitor(None)),
        expected
    );
    assert_eq!(
        create_overlay(Platform::Other, OverlayStage::Monitor, failed("no primary monitor")),
        expected
    );
}

#[test]
fn overlay_creation_hands_on_a_build_failure() {
    let position = PhysicalPosition { x: 0, y: 0 };
    assert_eq!(
        create_overlay(Platform::MacOs, OverlayStage::Build(position), failed("cannot build")),
        Step::Finish(Err("cannot build".to_string()))
    );
}

#[test]
fn overlay_creation_hands_on_a_placement_failure() {
    assert_eq!(
        create_overlay(Platform::MacOs, OverlayStage::Place, failed("cannot move")),
        Step::Finish(Err("cannot move".to_string()))
    );
}

#[test]
fn toggle_hides_a_visible_overlay() {
    let p = Platform::Other;
    assert_eq!(
        toggle_overlay(p, ToggleStage::Start, Reply::Done),
        Step::Ask { request: Request::Lookup(WindowLabel::Overlay), stage: ToggleStage::Lookup }
    );
    assert_eq!(
        toggle_overlay(p, ToggleStage::Lookup, Reply::Flag(true)),
        Step::Ask {
            request: Request::QueryVisible(WindowLabel::Overlay),
            stage: ToggleStage::Visible
        }
    );
    assert_eq!(
        toggle_overlay(p, ToggleStage::Visible, Reply::Flag(true)),
        Step::Ask { request: Request::Hide(WindowLabel::Overlay), stage: ToggleStage::Apply(true) }
    );
    assert_eq!(toggle_overlay(p, ToggleStage::Apply(true), Reply::Done), Step::Finish(Ok(false)));
}

#[test]
fn toggle_shows_a_hidden_overlay() {
    let p = Platform::Other;
    assert_eq!(
        toggle_overlay(p, ToggleStage::Visible, Reply::Flag(false)),
        Step::Ask {
            request: Request::Show(WindowLabel::Overlay),
            stage: ToggleStage::Apply(false)
        }
    );
    assert_eq!(toggle_overlay(p, ToggleStage::Apply(false), Reply::Done), Step::Finish(Ok(true)));
}

#[test]
fn toggle_creates_and_shows_a_missing_overlay() {
    let p = Platform::MacOs;
    assert_eq!(
        toggle_overlay(p, ToggleStage::Lookup, Reply::Flag(false)),
        Step::Ask {
            request: Request::QueryPrimaryMonitor,
            stage: ToggleStage::Create(OverlayStage::Monitor)
        }
    );
    assert_eq!(
        toggle_overlay(p, ToggleStage::Create(OverlayStage::Place), Reply::Done),
        Step::Ask {
            request: Request::RoundBottomCorners(WindowLabel::Overlay, 16),
            stage: ToggleStage::Create(OverlayStage::Round)
        }
    );
    assert_eq!(
        toggle_overlay(p, ToggleStage::Create(OverlayStage::Round), Reply::Done),
        Step::Ask { request: Request::Show(WindowLabel::Overlay), stage: ToggleStage::Reveal }
    );
    assert_eq!(toggle_overlay(p, ToggleStage::Reveal, Reply::Done), Step::Finish(Ok(true)));
}

#[test]
fn toggle_hands_on_each_failure() {
    let p = Platform::Other;
    assert_eq!(
        toggle_overlay(p, ToggleStage::Visible, failed("cannot tell")),
        Step::Finish(Err("cannot tell".to_string()))
    );
    assert_eq!(
        toggle_overlay(p, ToggleStage::Apply(true), failed("cannot hide")),
        Step::Finish(Err("cannot hide".to_string()))
    );
    assert_eq!(
        toggle_overlay(p, ToggleStage::Apply(false), failed("cannot show")),
        Step::Finish(Err("cannot show".to_string()))
    );
    assert_eq!(
        toggle_overlay(
            p,
            ToggleStage::Create(OverlayStage::Build(PhysicalPosition { x: 0, y: 0 })),
            failed("cannot build")
        ),
        Step::Finish(Err("cannot build".to_string()))
    );
    assert_eq!(
        toggle_overlay(p, ToggleStage::Reveal, failed("cannot show")),
        Step::Finish(Err("cannot show".to_string()))
    );
}

#[test]
fn toggle_command_hands_back_the_visibility() {
    let p = Platform::Other;
    assert_eq!(
        toggle_command(p, ToggleStage::Start, Reply::Done),
        Step::Ask {
            request: Request::Lookup(WindowLabel::Overlay),
            stage: CommandStage::Toggle(ToggleStage::Lookup)
        }
    );
    assert_eq!(
        toggle_command(p, ToggleStage::Apply(true), Reply::Done),
        Step::Finish(Ok(Outcome::Visibility(false)))
    );
    assert_eq!(
        toggle_command(p, ToggleStage::Reveal, Reply::Done),
        Step::Finish(Ok(Outcome::Visibility(true)))
    );
    assert_eq!(
        toggle_command(p, ToggleStage::Visible, failed("cannot tell")),
        Step::Finish(Err("cannot tell".to_string()))
    );
}

#[test]
fn create_command_hands_back_nothing() {
    let p = Platform::Other;
    assert_eq!(
        create_command(p, OverlayStage::Start, Reply::Done),
        Step::Ask {
            request: Request::Lookup(WindowLabel::Overlay),
            stage: CommandStage::Create(OverlayStage::Lookup)
        }
    );
    assert_eq!(
        create_command(p, OverlayStage::Lookup, Reply::Flag(true)),
        Step::Finish(Ok(Outcome::Unit))
    );
    assert_eq!(
        create_command(p, OverlayStage::Place, failed("cannot move")),
        Step::Finish(Err("cannot move".to_string()))
    );
}

#[test]
fn session_makes_sure_of_the_fab_first() {
    assert_eq!(
        start_teleprompter_session(SessionStage::Fab(FabStage::Start), Reply::Done),
        Step::Ask {
            request: Request::Lookup(WindowLabel::EditorFab),
            stage: CommandStage::Session(SessionStage::Fab(FabStage::Lookup))
        }
    );
    assert_eq!(
        start_teleprompter_session(SessionStage::Fab(FabStage::Lookup), Reply::Flag(true)),
        Step::Ask {
            request: Request::Lookup(WindowLabel::Overlay),
            stage: CommandStage::Session(SessionStage::OverlayLookup)
        }
    );
    assert_eq!(
        start_teleprompter_session(SessionStage::Fab(FabStage::Place), Reply::Done),
        Step::Ask {
            request: Request::Lookup(WindowLabel::Overlay),
            stage: CommandStage::Session(SessionStage::OverlayLookup)
        }
    );
}

#[test]
fn session_shows_overlay_then_fab_then_hides_main() {
    let ask = |request, stage| Step::Ask { request, stage: CommandStage::Session(stage) };
    assert_eq!(
        start_teleprompter_session(SessionStage::OverlayLookup, Reply::Flag(true)),
        ask(Request::Show(WindowLabel::Overlay), SessionStage::OverlayShow)
    );
    assert_eq!(
        start_teleprompter_session(SessionStage::OverlayShow, Reply::Done),
        ask(Request::Lookup(WindowLabel::EditorFab), SessionStage::FabLookup)
    );
    assert_eq!(
        start_teleprompter_session(SessionStage::FabLookup, Reply::Flag(true)),
        ask(Request::Show(WindowLabel::EditorFab), SessionStage::FabShow)
    );
    assert_eq!(
        start_teleprompter_session(SessionStage::FabShow, Reply::Done),
        ask(Request::Lookup(WindowLabel::Main), SessionStage::MainLookup)
    );
    assert_eq!(
        start_teleprompter_session(SessionStage::MainLookup, Reply::Flag(true)),
        ask(Request::Hide(WindowLabel::Main), SessionStage::MainHide)
    );
    assert_eq!(
        start_teleprompter_session(SessionStage::MainHide, Reply::Done),
        Step::Finish(Ok(Outcome::Unit))
    );
}

#[test]
fn session_skips_absent_windows() {
    let ask = |request, stage| Step::Ask { request, stage: CommandStage::Session(stage) };
    assert_eq!(
        start_teleprompter_session(SessionStage::OverlayLookup, Reply::Flag(false)),
        ask(Request::Lookup(WindowLabel::EditorFab), SessionStage::FabLookup)
    );
    assert_eq!(
        start_teleprompter_session(SessionStage::FabLookup, Reply::Flag(false)),
        ask(Request::Lookup(WindowLabel::Main), SessionStage::MainLookup)
    );
    assert_eq!(
        start_teleprompter_session(SessionStage::MainLookup, Reply::Flag(false)),
        Step::Finish(Ok(Outcome::Unit))
    );
}

#[test]
fn session_stops_at_the_first_failure() {
    let err = |words: &str| Step::Finish(Err(words.to_string()));
    assert_eq!(
        start_teleprompter_session(
            SessionStage::Fab(FabStage::Build(PhysicalPosition { x: 0, y: 0 })),
            failed("cannot build")
        ),
        err("cannot build")
    );
    assert_eq!(
        start_teleprompter_session(SessionStage::Fab(FabStage::Place), failed("cannot move")),
        err("cannot move")
    );
    assert_eq!(
        start_teleprompter_session(SessionStage::OverlayShow, failed("overlay stuck")),
        err("overlay stuck")
    );
    assert_eq!(
        start_teleprompter_session(SessionStage::FabShow, failed("fab stuck")),
        err("fab stuck")
    );
    assert_eq!(
        start_teleprompter_session(SessionStage::MainHide, failed("main stuck")),
        err("main stuck")
    );
}

#[test]
fn hide_overlay_touches_the_overlay_only() {
    assert_eq!(
        hide_overlay(HideOverlayStage::Start, Reply::Done),
        Step::Ask {
            request: Request::Lookup(WindowLabel::Overlay),
            stage: CommandStage::HideOverlay(HideOverlayStage::Lookup)
        }
    );
    assert_eq!(
        hide_overlay(HideOverlayStage::Lookup, Reply::Flag(true)),
        Step::Ask {
            request: Request::Hide(WindowLabel::Overlay),
            stage: CommandStage::HideOverlay(HideOverlayStage::Hide)
        }
    );
    assert_eq!(hide_overlay(HideOverlayStage::Hide, Reply::Done), Step::Finish(Ok(Outcome::Unit)));
}

#[test]
fn hide_overlay_skips_a_missing_overlay() {
    assert_eq!(
        hide_overlay(HideOverlayStage::Lookup, Reply::Flag(false)),
        Step::Finish(Ok(Outcome::Unit))
    );
}

#[test]
fn hide_overlay_hands_on_a_failure() {
    assert_eq!(
        hide_overlay(HideOverlayStage::Hide, failed("cannot hide")),
        Step::Finish(Err("cannot hide".to_string()))
    );
}

#[test]
fn restore_shows_and_focuses_main_then_hides_the_fab() {
    let ask = |request, stage| Step::Ask { request, stage: CommandStage::Restore(stage) };
    assert_eq!(
        restore_editor(RestoreStage::Start, Reply::Done),
        ask(Request::Lookup(WindowLabel::Main), RestoreStage::MainLookup)
    );
    assert_eq!(
        restore_editor(RestoreStage::MainLookup, Reply::Flag(true)),
        ask(Request::Show(WindowLabel::Main), RestoreStage::MainShow)
    );
    assert_eq!(
        restore_editor(RestoreStage::MainShow, Reply::Done),
        ask(Request::Focus(WindowLabel::Main), RestoreStage::MainFocus)
    );
    assert_eq!(
        restore_editor(RestoreStage::MainFocus, Reply::Done),
        ask(Request::Lookup(WindowLabel::EditorFab), RestoreStage::Fab(HideFabStage::Lookup))
    );
    assert_eq!(
        restore_editor(RestoreStage::Fab(HideFabStage::Lookup), Reply::Flag(true)),
        ask(Request::Hide(WindowLabel::EditorFab), RestoreStage::Fab(HideFabStage::Hide))
    );
    assert_eq!(
        restore_editor(RestoreStage::Fab(HideFabStage::Hide), Reply::Done),
        Step::Finish(Ok(Outcome::Unit))
    );
}

#[test]
fn restore_without_main_still_hides_the_fab() {
    assert_eq!(
        restore_editor(RestoreStage::MainLookup, Reply::Flag(false)),
        Step::Ask {
            request: Request::Lookup(WindowLabel::EditorFab),
            stage: CommandStage::Restore(RestoreStage::Fab(HideFabStage::Lookup))
        }
    );
    assert_eq!(
        restore_editor(RestoreStage::Fab(HideFabStage::Lookup), Reply::Flag(false)),
        Step::Finish(Ok(Outcome::Unit))
    );
}

#[test]
fn restore_hands_on_failures_of_main_only() {
    assert_eq!(
        restore_editor(RestoreStage::MainShow, failed("cannot show")),
        Step::Finish(Err("cannot show".to_string()))
    );
    assert_eq!(
        restore_editor(RestoreStage::MainFocus, failed("cannot focus")),
        Step::Finish(Err("cannot focus".to_string()))
    );
    assert_eq!(
        restore_editor(RestoreStage::Fab(HideFabStage::Hide), failed("cannot hide")),
        Step::Finish(Ok(Outcome::Unit))
    );
}

#[test]
fn commands_are_invoked_by_name() {
    assert_eq!(Command::ToggleOverlay.name(), "toggle_overlay");
    assert_eq!(Command::CreateOverlay.name(), "create_overlay");
    assert_eq!(Command::StartTeleprompterSession.name(), "start_teleprompter_session");
    assert_eq!(Command::HideOverlay.name(), "hide_overlay");
    assert_eq!(Command::RestoreEditor.name(), "restore_editor");
}

#[test]
fn commands_begin_in_their_first_stage() {
    assert_eq!(Command::ToggleOverlay.begin(), CommandStage::Toggle(ToggleStage::Start));
    assert_eq!(Command::CreateOverlay.begin(), CommandStage::Create(OverlayStage::Start));
    assert_eq!(
        Command::StartTeleprompterSession.begin(),
        CommandStage::Session(SessionStage::Fab(FabStage::Start))
    );
    assert_eq!(Command::HideOverlay.begin(), CommandStage::HideOverlay(HideOverlayStage::Start));
    assert_eq!(Command::RestoreEditor.begin(), CommandStage::Restore(RestoreStage::Start));
}

#[test]
fn advance_routes_each_stage_to_its_command() {
    let p = Platform::Other;
    assert_eq!(
        advance(p, Command::ToggleOverlay.begin(), Reply::Done),
        toggle_command(p, ToggleStage::Start, Reply::Done)
    );
    assert_eq!(
        advance(p, Command::CreateOverlay.begin(), Reply::Done),
        create_command(p, OverlayStage::Start, Reply::Done)
    );
    assert_eq!(
        advance(p, Command::StartTeleprompterSession.begin(), Reply::Done),
        start_teleprompter_session(SessionStage::Fab(FabStage::Start), Reply::Done)
    );
    assert_eq!(
        advance(p, Command::HideOverlay.begin(), Reply::Done),
        hide_overlay(HideOverlayStage::Start, Reply::Done)
    );
    assert_eq!(
        advance(p, Command::RestoreEditor.begin(), Reply::Done),
        restore_editor(RestoreStage::Start, Reply::Done)
    );
}
