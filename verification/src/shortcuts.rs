//! The fixed table of global shortcuts and what each one stands for.

use vstd::prelude::*;

verus! {

/// The two families of operating system the shell tells apart.
#[derive(Clone, Copy, Debug, PartialEq, Eq, Structural)]
pub enum Platform {
    /// The platform whose primary modifier is the Command key and whose
    /// compositor rounds window corners per layer.
    MacOs,
    /// Every other platform; the primary modifier is Control.
    Other,
}

/// The modifier keys a global shortcut can ask for.
#[derive(Clone, Copy, Debug, PartialEq, Eq, Structural)]
pub struct Modifiers {
    pub shift: bool,
    pub control: bool,
    pub alt: bool,
    pub super_key: bool,
}

/// The keys the shell binds, and one value for every other key.
#[derive(Clone, Copy, Debug, PartialEq, Eq, Structural)]
pub enum Code {
    KeyF,
    Space,
    KeyS,
    KeyR,
    KeyW,
    KeyX,
    Unbound,
}

/// A global key combination.
#[derive(Clone, Copy, Debug, PartialEq, Eq, Structural)]
pub struct Shortcut {
    pub modifiers: Modifiers,
    pub key: Code,
}

/// Whether a shortcut's key went down or came up.
#[derive(Clone, Copy, Debug, PartialEq, Eq, Structural)]
pub enum ShortcutState {
    Pressed,
    Released,
}

/// What the shell broadcasts to the overlay's content. No event carries a
/// payload.
#[derive(Clone, Copy, Debug, PartialEq, Eq, Structural)]
pub enum OverlayEvent {
    TogglePlay,
    CycleSpeed,
    Rewind,
    ScrollUp,
    ScrollDown,
}

/// What a bound shortcut makes the shell do.
#[derive(Clone, Copy, Debug, PartialEq, Eq, Structural)]
pub enum Action {
    /// Flip the overlay's visibility in-process.
    ToggleOverlay,
    /// Broadcast an event for the overlay's content to interpret.
    Emit(OverlayEvent),
}

/// No modifier at all.
pub open spec fn no_modifiers() -> Modifiers {
    Modifiers { shift: false, control: false, alt: false, super_key: false }
}

/// The platform's primary modifier together with Shift.
pub open spec fn primary_with_shift(platform: Platform) -> Modifiers {
    match platform {
        Platform::MacOs => Modifiers { shift: true, control: false, alt: false, super_key: true },
        Platform::Other => Modifiers { shift: true, control: true, alt: false, super_key: false },
    }
}

/// The key that, with the platform's modifiers, triggers `action`.
pub open spec fn key_of(action: Action) -> Code {
    match action {
        Action::ToggleOverlay => Code::KeyF,
        Action::Emit(OverlayEvent::TogglePlay) => Code::Space,
        Action::Emit(OverlayEvent::CycleSpeed) => Code::KeyS,
        Action::Emit(OverlayEvent::Rewind) => Code::KeyR,
        Action::Emit(OverlayEvent::ScrollUp) => Code::KeyW,
        Action::Emit(OverlayEvent::ScrollDown) => Code::KeyX,
    }
}

/// The shortcut bound to `action` on `platform`.
pub open spec fn binding(platform: Platform, action: Action) -> Shortcut {
    Shortcut { modifiers: primary_with_shift(platform), key: key_of(action) }
}

/// The actions in the order in which their shortcuts are registered.
pub open spec fn registration_order() -> Seq<Action> {
    seq![
        Action::ToggleOverlay,
        Action::Emit(OverlayEvent::TogglePlay),
        Action::Emit(OverlayEvent::CycleSpeed),
        Action::Emit(OverlayEvent::Rewind),
        Action::Emit(OverlayEvent::ScrollUp),
        Action::Emit(OverlayEvent::ScrollDown),
    ]
}

/// The action registered after `action`, if any.
pub open spec fn successor(action: Action) -> Option<Action> {
    match action {
        Action::ToggleOverlay => Some(Action::Emit(OverlayEvent::TogglePlay)),
        Action::Emit(OverlayEvent::TogglePlay) => Some(Action::Emit(OverlayEvent::CycleSpeed)),
        Action::Emit(OverlayEvent::CycleSpeed) => Some(Action::Emit(OverlayEvent::Rewind)),
        Action::Emit(OverlayEvent::Rewind) => Some(Action::Emit(OverlayEvent::ScrollUp)),
        Action::Emit(OverlayEvent::ScrollUp) => Some(Action::Emit(OverlayEvent::ScrollDown)),
        Action::Emit(OverlayEvent::ScrollDown) => None,
    }
}

/// What a shortcut event triggers: the action bound to the shortcut when
/// its key goes down, nothing when the key comes up or the shortcut is not
/// one of the shell's.
pub open spec fn triggered(platform: Platform, shortcut: Shortcut, state: ShortcutState) -> Option<
    Action,
> {
    if state is Released || shortcut.modifiers != primary_with_shift(platform) {
        None
    } else {
        match shortcut.key {
            Code::KeyF => Some(Action::ToggleOverlay),
            Code::Space => Some(Action::Emit(OverlayEvent::TogglePlay)),
            Code::KeyS => Some(Action::Emit(OverlayEvent::CycleSpeed)),
            Code::KeyR => Some(Action::Emit(OverlayEvent::Rewind)),
            Code::KeyW => Some(Action::Emit(OverlayEvent::ScrollUp)),
            Code::KeyX => Some(Action::Emit(OverlayEvent::ScrollDown)),
            Code::Unbound => None,
        }
    }
}

impl OverlayEvent {
    /// The name under which the event is broadcast.
    pub fn name(&self) -> (name: &'static str)
        ensures
            name@ == match *self {
                OverlayEvent::TogglePlay => "teleprompter:toggle-play"@,
                OverlayEvent::CycleSpeed => "teleprompter:cycle-speed"@,
                OverlayEvent::Rewind => "teleprompter:rewind"@,
                OverlayEvent::ScrollUp => "teleprompter:scroll-up"@,
                OverlayEvent::ScrollDown => "teleprompter:scroll-down"@,
            },
    {
        match self {
            OverlayEvent::TogglePlay => "teleprompter:toggle-play",
            OverlayEvent::CycleSpeed => "teleprompter:cycle-speed",
            OverlayEvent::Rewind => "teleprompter:rewind",
            OverlayEvent::ScrollUp => "teleprompter:scroll-up",
            OverlayEvent::ScrollDown => "teleprompter:scroll-down",
        }
    }
}

impl Modifiers {
    /// No modifier at all.
    pub fn empty() -> (m: Modifiers)
        ensures
            m == no_modifiers(),
    {
        Modifiers { shift: false, control: false, alt: false, super_key: false }
    }
}

impl Shortcut {
    /// The combination of `modifiers` (none where absent) and `key`.
    pub fn new(modifiers: Option<Modifiers>, key: Code) -> (s: Shortcut)
        ensures
            s.key == key,
            s.modifiers == match modifiers {
                Some(m) => m,
                None => no_modifiers(),
            },
    {
        match modifiers {
            Some(m) => Shortcut { modifiers: m, key },
            None => Shortcut { modifiers: Modifiers::empty(), key },
        }
    }
}

impl Action {
    /// The shortcut bound to this action on `platform`.
    pub fn shortcut(&self, platform: Platform) -> (s: Shortcut)
        ensures
            s == binding(platform, *self),
    {
        match self {
            Action::ToggleOverlay => toggle_overlay_shortcut(platform),
            Action::Emit(OverlayEvent::TogglePlay) => toggle_play_shortcut(platform),
            Action::Emit(OverlayEvent::CycleSpeed) => cycle_speed_shortcut(platform),
            Action::Emit(OverlayEvent::Rewind) => rewind_shortcut(platform),
            Action::Emit(OverlayEvent::ScrollUp) => scroll_up_shortcut(platform),
            Action::Emit(OverlayEvent::ScrollDown) => scroll_down_shortcut(platform),
        }
    }

    /// The action whose shortcut is registered first.
    pub fn first() -> (a: Action)
        ensures
            a == registration_order()[0],
    {
        Action::ToggleOverlay
    }

    /// The action whose shortcut is registered after this one's.
    pub fn next(&self) -> (n: Option<Action>)
        ensures
            n == successor(*self),
    {
        match self {
            Action::ToggleOverlay => Some(Action::Emit(OverlayEvent::TogglePlay)),
            Action::Emit(OverlayEvent::TogglePlay) => Some(Action::Emit(OverlayEvent::CycleSpeed)),
            Action::Emit(OverlayEvent::CycleSpeed) => Some(Action::Emit(OverlayEvent::Rewind)),
            Action::Emit(OverlayEvent::Rewind) => Some(Action::Emit(OverlayEvent::ScrollUp)),
            Action::Emit(OverlayEvent::ScrollUp) => Some(Action::Emit(OverlayEvent::ScrollDown)),
            Action::Emit(OverlayEvent::ScrollDown) => None,
        }
    }
}

/// The modifiers of every shortcut of the shell: the platform's primary
/// modifier (Command on macOS, Control elsewhere) and Shift.
pub fn platform_modifiers(platform: Platform) -> (m: Modifiers)
    ensures
        m == primary_with_shift(platform),
{
    match platform {
        Platform::MacOs => Modifiers { shift: true, control: false, alt: false, super_key: true },
        Platform::Other => Modifiers { shift: true, control: true, alt: false, super_key: false },
    }
}

/// Primary+Shift+F: toggle the overlay.
pub fn toggle_overlay_shortcut(platform: Platform) -> (s: Shortcut)
    ensures
        s == binding(platform, Action::ToggleOverlay),
{
    Shortcut::new(Some(platform_modifiers(platform)), Code::KeyF)
}

/// Primary+Shift+Space: play or pause the scrolling.
pub fn toggle_play_shortcut(platform: Platform) -> (s: Shortcut)
    ensures
        s == binding(platform, Action::Emit(OverlayEvent::TogglePlay)),
{
    Shortcut::new(Some(platform_modifiers(platform)), Code::Space)
}

/// Primary+Shift+S: step to the next speed preset.
pub fn cycle_speed_shortcut(platform: Platform) -> (s: Shortcut)
    ensures
        s == binding(platform, Action::Emit(OverlayEvent::CycleSpeed)),
{
    Shortcut::new(Some(platform_modifiers(platform)), Code::KeyS)
}

/// Primary+Shift+R: go back one sentence.
pub fn rewind_shortcut(platform: Platform) -> (s: Shortcut)
    ensures
        s == binding(platform, Action::Emit(OverlayEvent::Rewind)),
{
    Shortcut::new(Some(platform_modifiers(platform)), Code::KeyR)
}

/// Primary+Shift+W: scroll up by hand.
pub fn scroll_up_shortcut(platform: Platform) -> (s: Shortcut)
    ensures
        s == binding(platform, Action::Emit(OverlayEvent::ScrollUp)),
{
    Shortcut::new(Some(platform_modifiers(platform)), Code::KeyW)
}

/// Primary+Shift+X: scroll down by hand.
pub fn scroll_down_shortcut(platform: Platform) -> (s: Shortcut)
    ensures
        s == binding(platform, Action::Emit(OverlayEvent::ScrollDown)),
{
    Shortcut::new(Some(platform_modifiers(platform)), Code::KeyX)
}

/// What a shortcut event triggers.
pub fn action_for(platform: Platform, shortcut: Shortcut, state: ShortcutState) -> (action: Option<
    Action,
>)
    ensures
        action == triggered(platform, shortcut, state),
{
    match state {
        ShortcutState::Released => None,
        ShortcutState::Pressed => {
            if shortcut == toggle_overlay_shortcut(platform) {
                Some(Action::ToggleOverlay)
            } else if shortcut == toggle_play_shortcut(platform) {
                Some(Action::Emit(OverlayEvent::TogglePlay))
            } else if shortcut == cycle_speed_shortcut(platform) {
                Some(Action::Emit(OverlayEvent::CycleSpeed))
            } else if shortcut == rewind_shortcut(platform) {
                Some(Action::Emit(OverlayEvent::Rewind))
            } else if shortcut == scroll_up_shortcut(platform) {
                Some(Action::Emit(OverlayEvent::ScrollUp))
            } else if shortcut == scroll_down_shortcut(platform) {
                Some(Action::Emit(OverlayEvent::ScrollDown))
            } else {
                None
            }
        },
    }
}

/// A pressed shortcut triggers an action exactly when it is the shortcut
/// bound to that action, so no event triggers two actions and every binding
/// triggers its own.
pub proof fn lemma_triggered_iff_bound(
    platform: Platform,
    shortcut: Shortcut,
    state: ShortcutState,
    action: Action,
)
    ensures
        triggered(platform, shortcut, state) == Some(action) <==> (state is Pressed && shortcut
            == binding(platform, action)),
{
}

/// Two actions never share a shortcut.
pub proof fn lemma_bindings_distinct(platform: Platform, a: Action, b: Action)
    requires
        a != b,
    ensures
        binding(platform, a) != binding(platform, b),
{
}

/// Walking the successors from the first action visits the registration
/// order, all of it and nothing else.
pub proof fn lemma_successor_walks_registration_order()
    ensures
        registration_order().len() == 6,
        forall|i: int|
            0 <= i < 5 ==> successor(#[trigger] registration_order()[i]) == Some(
                registration_order()[i + 1],
            ),
        successor(registration_order()[5]) is None,
        forall|a: Action| #[trigger] registration_order().contains(a),
{
    let order = registration_order();
    assert forall|a: Action| #[trigger] registration_order().contains(a) by {
        match a {
            Action::ToggleOverlay => assert(order[0] == a),
            Action::Emit(OverlayEvent::TogglePlay) => assert(order[1] == a),
            Action::Emit(OverlayEvent::CycleSpeed) => assert(order[2] == a),
            Action::Emit(OverlayEvent::Rewind) => assert(order[3] == a),
            Action::Emit(OverlayEvent::ScrollUp) => assert(order[4] == a),
            Action::Emit(OverlayEvent::ScrollDown) => assert(order[5] == a),
        }
    }
}

} // verus!
