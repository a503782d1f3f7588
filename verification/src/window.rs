//! The windows the shell knows by name, and how the two it owns are made.

use vstd::prelude::*;
use crate::geometry::{fab_extent, fab_size, overlay_extent, overlay_size, LogicalSize, MonitorInfo};

verus! {

/// The three windows of the application. The main window belongs to the
/// host; the shell only shows, hides and focuses it.
#[derive(Clone, Copy, Debug, PartialEq, Eq, Structural)]
pub enum WindowLabel {
    Main,
    Overlay,
    EditorFab,
}

/// The style flags a window is created with.
#[derive(Clone, Copy, Debug, PartialEq, Eq, Structural)]
pub struct WindowStyle {
    pub transparent: bool,
    pub decorations: bool,
    pub always_on_top: bool,
    pub shadow: bool,
    pub skip_taskbar: bool,
    pub resizable: bool,
    pub visible: bool,
    pub content_protected: bool,
}

/// Everything the host needs to create one of the shell's windows. The
/// position is not part of it: a window is placed after it exists.
#[derive(Clone, Copy, Debug, PartialEq, Eq, Structural)]
pub struct WindowSpec {
    pub label: WindowLabel,
    pub style: WindowStyle,
    pub size: LogicalSize,
}

/// The style shared by both auxiliary windows: see-through, frameless,
/// above all other windows, without shadow or taskbar entry, hidden until
/// shown, and kept out of screen captures.
pub open spec fn floating_style(resizable: bool) -> WindowStyle {
    WindowStyle {
        transparent: true,
        decorations: false,
        always_on_top: true,
        shadow: false,
        skip_taskbar: true,
        resizable,
        visible: false,
        content_protected: true,
    }
}

/// How the overlay is created on monitor `m`.
pub open spec fn overlay_spec(m: MonitorInfo) -> WindowSpec {
    WindowSpec { label: WindowLabel::Overlay, style: floating_style(true), size: overlay_extent(m) }
}

/// How the floating button is created.
pub open spec fn fab_spec() -> WindowSpec {
    WindowSpec { label: WindowLabel::EditorFab, style: floating_style(false), size: fab_extent() }
}

impl WindowLabel {
    /// The name under which the host keeps the window.
    pub fn as_str(&self) -> (name: &'static str)
        ensures
            name@ == match *self {
                WindowLabel::Main => "main"@,
                WindowLabel::Overlay => "overlay"@,
                WindowLabel::EditorFab => "editor-fab"@,
            },
    {
        match self {
            WindowLabel::Main => "main",
            WindowLabel::Overlay => "overlay",
            WindowLabel::EditorFab => "editor-fab",
        }
    }

    /// The title of a window the shell creates; the main window is not the
    /// shell's to create.
    pub fn title(&self) -> (title: Option<&'static str>)
        ensures
            match *self {
                WindowLabel::Main => title is None,
                WindowLabel::Overlay => title is Some && title->0@ == "Steadi Overlay"@,
                WindowLabel::EditorFab => title is Some && title->0@ == "Steadi FAB"@,
            },
    {
        match self {
            WindowLabel::Main => None,
            WindowLabel::Overlay => Some("Steadi Overlay"),
            WindowLabel::EditorFab => Some("Steadi FAB"),
        }
    }

    /// The page, relative to the application's assets, that a window the
    /// shell creates displays.
    pub fn page(&self) -> (page: Option<&'static str>)
        ensures
            match *self {
                WindowLabel::Main => page is None,
                WindowLabel::Overlay => page is Some && page->0@ == "overlay/index.html"@,
                WindowLabel::EditorFab => page is Some && page->0@ == "editor-fab/index.html"@,
            },
    {
        match self {
            WindowLabel::Main => None,
            WindowLabel::Overlay => Some("overlay/index.html"),
            WindowLabel::EditorFab => Some("editor-fab/index.html"),
        }
    }
}

impl WindowStyle {
    /// The style of an auxiliary window.
    pub fn floating(resizable: bool) -> (style: WindowStyle)
        ensures
            style == floating_style(resizable),
    {
        WindowStyle {
            transparent: true,
            decorations: false,
            always_on_top: true,
            shadow: false,
            skip_taskbar: true,
            resizable,
            visible: false,
            content_protected: true,
        }
    }
}

impl WindowSpec {
    /// How the overlay is created on the given monitor.
    pub fn overlay(m: &MonitorInfo) -> (spec: WindowSpec)
        ensures
            spec == overlay_spec(*m),
    {
        WindowSpec {
            label: WindowLabel::Overlay,
            style: WindowStyle::floating(true),
            size: overlay_size(m),
        }
    }

    /// How the floating button is created.
    pub fn editor_fab() -> (spec: WindowSpec)
        ensures
            spec == fab_spec(),
    {
        WindowSpec {
            label: WindowLabel::EditorFab,
            style: WindowStyle::floating(false),
            size: fab_size(),
        }
    }
}

} // verus!
