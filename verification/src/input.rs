//! Input translation: from the host's events to the UI toolkit's vocabulary.
//!
//! One host event gives at most one UI event. Host-only signals and unknown
//! key codes give none; nothing is ever an error.

use crate::scalar::Scalar;
use vstd::prelude::*;

verus! {

/// An input event as the host reports it. Positions and deltas are in logical
/// points.
#[derive(Debug, PartialEq, Eq)]
pub enum InputEvent {
    /// Pointer or touch moved to a position.
    PointerMoved(Scalar, Scalar),
    /// Scroll delta, from a trackpad or a wheel.
    MouseWheel(Scalar, Scalar),
    /// Primary button or touch at a position; `true` for down.
    LeftMouseDown(Scalar, Scalar, bool),
    /// Secondary button (long press) at a position; `true` for down.
    RightMouseDown(Scalar, Scalar, bool),
    /// The window gained or lost focus.
    WindowFocused(bool),
    /// The host's lifecycle phase changed (background, inactive, active).
    ScenePhaseChanged(u8),
    /// Text committed from the keyboard.
    TextCommit(String),
    /// Pre-edit text of an input method.
    ImePreedit(String),
    /// The on-screen keyboard was shown or hidden.
    KeyboardVisibility(bool),
    /// A virtual key, by code, pressed or released.
    VirtualKey(u8, bool),
    /// The host's copy command.
    Copy,
    /// The host's cut command.
    Cut,
    /// The host's paste command, with the pasted text.
    Paste(String),
}

/// The keys that the host can report.
#[derive(Clone, Copy, PartialEq, Eq, Debug, Structural)]
pub enum Key {
    Backspace,
    Enter,
    Tab,
    Escape,
    ArrowUp,
    ArrowDown,
    ArrowLeft,
    ArrowRight,
}

/// Which pointer button an event is about.
#[derive(Clone, Copy, PartialEq, Eq, Debug, Structural)]
pub enum PointerButton {
    Primary,
    Secondary,
}

/// The unit of a scroll delta.
#[derive(Clone, Copy, PartialEq, Eq, Debug, Structural)]
pub enum WheelUnit {
    Point,
    Line,
    Page,
}

/// The modifier keys held while an event happened.
#[derive(Clone, Copy, PartialEq, Eq, Debug, Structural)]
pub struct Modifiers {
    pub alt: bool,
    pub ctrl: bool,
    pub shift: bool,
    pub mac_cmd: bool,
    pub command: bool,
}

impl Modifiers {
    /// No modifier key held.
    pub open spec fn none() -> Modifiers {
        Modifiers { alt: false, ctrl: false, shift: false, mac_cmd: false, command: false }
    }

    /// No modifier key held.
    pub fn new_none() -> (m: Modifiers)
        ensures
            m == Modifiers::none(),
    {
        Modifiers { alt: false, ctrl: false, shift: false, mac_cmd: false, command: false }
    }
}

/// An event in the UI toolkit's vocabulary, as plain values.
#[derive(Debug, PartialEq, Eq)]
pub enum UiEvent {
    PointerMoved { x: Scalar, y: Scalar },
    MouseWheel { unit: WheelUnit, dx: Scalar, dy: Scalar, modifiers: Modifiers },
    PointerButton { x: Scalar, y: Scalar, button: PointerButton, pressed: bool, modifiers: Modifiers },
    WindowFocused(bool),
    Text(String),
    ImePreedit(String),
    Key { key: Key, pressed: bool, repeat: bool, modifiers: Modifiers },
    Copy,
    Cut,
    Paste(String),
}

/// What a [`UiEvent`] says, with text as a sequence of characters.
pub enum UiEventView {
    PointerMoved { x: Scalar, y: Scalar },
    MouseWheel { unit: WheelUnit, dx: Scalar, dy: Scalar, modifiers: Modifiers },
    PointerButton { x: Scalar, y: Scalar, button: PointerButton, pressed: bool, modifiers: Modifiers },
    WindowFocused(bool),
    Text(Seq<char>),
    ImePreedit(Seq<char>),
    Key { key: Key, pressed: bool, repeat: bool, modifiers: Modifiers },
    Copy,
    Cut,
    Paste(Seq<char>),
}

impl View for UiEvent {
    type V = UiEventView;

    open spec fn view(&self) -> UiEventView {
        match *self {
            UiEvent::PointerMoved { x, y } => UiEventView::PointerMoved { x, y },
            UiEvent::MouseWheel { unit, dx, dy, modifiers } => UiEventView::MouseWheel {
                unit,
                dx,
                dy,
                modifiers,
            },
            UiEvent::PointerButton { x, y, button, pressed, modifiers } => {
                UiEventView::PointerButton { x, y, button, pressed, modifiers }
            },
            UiEvent::WindowFocused(focused) => UiEventView::WindowFocused(focused),
            UiEvent::Text(text) => UiEventView::Text(text@),
            UiEvent::ImePreedit(text) => UiEventView::ImePreedit(text@),
            UiEvent::Key { key, pressed, repeat, modifiers } => UiEventView::Key {
                key,
                pressed,
                repeat,
                modifiers,
            },
            UiEvent::Copy => UiEventView::Copy,
            UiEvent::Cut => UiEventView::Cut,
            UiEvent::Paste(text) => UiEventView::Paste(text@),
        }
    }
}

/// The key that a virtual-key code stands for, if any.
pub open spec fn key_of(code: u8) -> Option<Key> {
    if code == 0 {
        Some(Key::Backspace)
    } else if code == 1 {
        Some(Key::Enter)
    } else if code == 2 {
        Some(Key::Tab)
    } else if code == 3 {
        Some(Key::Escape)
    } else if code == 4 {
        Some(Key::ArrowUp)
    } else if code == 5 {
        Some(Key::ArrowDown)
    } else if code == 6 {
        Some(Key::ArrowLeft)
    } else if code == 7 {
        Some(Key::ArrowRight)
    } else {
        None
    }
}

/// The UI event that a pointer-button transition gives.
pub open spec fn button_event(x: Scalar, y: Scalar, button: PointerButton, pressed: bool)
    -> UiEventView {
    UiEventView::PointerButton { x, y, button, pressed, modifiers: Modifiers::none() }
}

/// The UI event that one host event gives, or `None` where it gives none.
pub open spec fn ui_event_of(event: InputEvent) -> Option<UiEventView> {
    match event {
        InputEvent::PointerMoved(x, y) => Some(UiEventView::PointerMoved { x, y }),
        InputEvent::MouseWheel(dx, dy) => Some(
            UiEventView::MouseWheel { unit: WheelUnit::Point, dx, dy, modifiers: Modifiers::none() },
        ),
        InputEvent::LeftMouseDown(x, y, pressed) => Some(
            button_event(x, y, PointerButton::Primary, pressed),
        ),
        InputEvent::RightMouseDown(x, y, pressed) => Some(
            button_event(x, y, PointerButton::Secondary, pressed),
        ),
        InputEvent::WindowFocused(focused) => Some(UiEventView::WindowFocused(focused)),
        InputEvent::ScenePhaseChanged(_) => None,
        InputEvent::TextCommit(text) => Some(UiEventView::Text(text@)),
        InputEvent::ImePreedit(text) => Some(UiEventView::ImePreedit(text@)),
        InputEvent::KeyboardVisibility(_) => None,
        InputEvent::VirtualKey(code, pressed) => match key_of(code) {
            Some(key) => Some(
                UiEventView::Key { key, pressed, repeat: false, modifiers: Modifiers::none() },
            ),
            None => None,
        },
        InputEvent::Copy => Some(UiEventView::Copy),
        InputEvent::Cut => Some(UiEventView::Cut),
        InputEvent::Paste(text) => Some(UiEventView::Paste(text@)),
    }
}

/// The view of an optional UI event.
pub open spec fn view_of(event: Option<UiEvent>) -> Option<UiEventView> {
    match event {
        Some(e) => Some(e@),
        None => None,
    }
}

/// The views of a run of UI events, in order.
pub open spec fn event_views(events: Seq<UiEvent>) -> Seq<UiEventView> {
    events.map_values(|e: UiEvent| e@)
}

/// The UI events that a batch of host events gives: each event's own, in
/// arrival order, with the events that give none left out.
pub open spec fn translated(events: Seq<InputEvent>) -> Seq<UiEventView>
    decreases events.len(),
{
    if events.len() == 0 {
        Seq::empty()
    } else {
        let earlier = translated(events.drop_last());
        match ui_event_of(events.last()) {
            Some(e) => earlier.push(e),
            None => earlier,
        }
    }
}

/// The key for a virtual-key code: codes 0 to 7 name a key, every other code
/// names none.
pub fn key_from_code(code: u8) -> (key: Option<Key>)
    ensures
        key == key_of(code),
        key.is_some() <==> code <= 7,
{
    match code {
        0 => Some(Key::Backspace),
        1 => Some(Key::Enter),
        2 => Some(Key::Tab),
        3 => Some(Key::Escape),
        4 => Some(Key::ArrowUp),
        5 => Some(Key::ArrowDown),
        6 => Some(Key::ArrowLeft),
        7 => Some(Key::ArrowRight),
        _ => None,
    }
}

impl InputEvent {
    /// Translates this event into the UI toolkit's vocabulary.
    ///
    /// Lifecycle-phase changes and keyboard-visibility notifications are
    /// signals for the host alone and give no UI event; neither does a
    /// virtual key with an unknown code.
    pub fn into_egui_event(self) -> (event: Option<UiEvent>)
        ensures
            view_of(event) == ui_event_of(self),
    {
        match self {
            InputEvent::PointerMoved(x, y) => Some(UiEvent::PointerMoved { x, y }),
            InputEvent::MouseWheel(dx, dy) => Some(
                UiEvent::MouseWheel {
                    unit: WheelUnit::Point,
                    dx,
                    dy,
                    modifiers: Modifiers::new_none(),
                },
            ),
            InputEvent::LeftMouseDown(x, y, pressed) => Some(
                UiEvent::PointerButton {
                    x,
                    y,
                    button: PointerButton::Primary,
                    pressed,
                    modifiers: Modifiers::new_none(),
                },
            ),
            InputEvent::RightMouseDown(x, y, pressed) => Some(
                UiEvent::PointerButton {
                    x,
                    y,
                    button: PointerButton::Secondary,
                    pressed,
                    modifiers: Modifiers::new_none(),
                },
            ),
            InputEvent::WindowFocused(focused) => Some(UiEvent::WindowFocused(focused)),
            InputEvent::ScenePhaseChanged(_) => None,
            InputEvent::TextCommit(text) => Some(UiEvent::Text(text)),
            InputEvent::ImePreedit(text) => Some(UiEvent::ImePreedit(text)),
            InputEvent::KeyboardVisibility(_) => None,
            InputEvent::VirtualKey(code, pressed) => match key_from_code(code) {
                Some(key) => Some(
                    UiEvent::Key { key, pressed, repeat: false, modifiers: Modifiers::new_none() },
                ),
                None => None,
            },
            InputEvent::Copy => Some(UiEvent::Copy),
            InputEvent::Cut => Some(UiEvent::Cut),
            InputEvent::Paste(text) => Some(UiEvent::Paste(text)),
        }
    }

    /// A pointer or touch that moved to `(x, y)`.
    pub fn from_pointer_moved(x: Scalar, y: Scalar) -> (event: InputEvent)
        ensures
            event == InputEvent::PointerMoved(x, y),
    {
        InputEvent::PointerMoved(x, y)
    }

    /// A scroll by `(x, y)` points.
    pub fn from_mouse_wheel(x: Scalar, y: Scalar) -> (event: InputEvent)
        ensures
            event == InputEvent::MouseWheel(x, y),
    {
        InputEvent::MouseWheel(x, y)
    }

    /// The primary button or a touch at `(x, y)`, pressed or released.
    pub fn from_left_mouse_down(x: Scalar, y: Scalar, pressed: bool) -> (event: InputEvent)
        ensures
            event == InputEvent::LeftMouseDown(x, y, pressed),
    {
        InputEvent::LeftMouseDown(x, y, pressed)
    }

    /// The secondary button at `(x, y)`, pressed or released.
    pub fn from_right_mouse_down(x: Scalar, y: Scalar, pressed: bool) -> (event: InputEvent)
        ensures
            event == InputEvent::RightMouseDown(x, y, pressed),
    {
        InputEvent::RightMouseDown(x, y, pressed)
    }

    /// The window gained or lost focus.
    pub fn from_window_focused(focused: bool) -> (event: InputEvent)
        ensures
            event == InputEvent::WindowFocused(focused),
    {
        InputEvent::WindowFocused(focused)
    }

    /// The host entered another lifecycle phase.
    pub fn from_scene_phase_changed(phase: u8) -> (event: InputEvent)
        ensures
            event == InputEvent::ScenePhaseChanged(phase),
    {
        InputEvent::ScenePhaseChanged(phase)
    }

    /// Text committed from the keyboard.
    pub fn from_text_commit(text: String) -> (event: InputEvent)
        ensures
            event == InputEvent::TextCommit(text),
    {
        InputEvent::TextCommit(text)
    }

    /// Pre-edit text of an input method.
    pub fn from_ime_preedit(text: String) -> (event: InputEvent)
        ensures
            event == InputEvent::ImePreedit(text),
    {
        InputEvent::ImePreedit(text)
    }

    /// The on-screen keyboard was shown or hidden.
    pub fn from_keyboard_visibility(visible: bool) -> (event: InputEvent)
        ensures
            event == InputEvent::KeyboardVisibility(visible),
    {
        InputEvent::KeyboardVisibility(visible)
    }

    /// A virtual key, by code, pressed or released.
    pub fn from_virtual_key(key_code: u8, pressed: bool) -> (event: InputEvent)
        ensures
            event == InputEvent::VirtualKey(key_code, pressed),
    {
        InputEvent::VirtualKey(key_code, pressed)
    }

    /// The host's copy command.
    pub fn from_copy() -> (event: InputEvent)
        ensures
            event == InputEvent::Copy,
    {
        InputEvent::Copy
    }

    /// The host's cut command.
    pub fn from_cut() -> (event: InputEvent)
        ensures
            event == InputEvent::Cut,
    {
        InputEvent::Cut
    }

    /// The host's paste command, with the pasted text.
    pub fn from_paste(text: String) -> (event: InputEvent)
        ensures
            event == InputEvent::Paste(text),
    {
        InputEvent::Paste(text)
    }
}

/// Translates a batch of host events, in arrival order.
///
/// The result holds the UI event of each host event that gives one, in the
/// order in which the host events came.
pub fn translate_events(events: Vec<InputEvent>) -> (out: Vec<UiEvent>)
    ensures
        event_views(out@) == translated(events@),
{
    let ghost batch = events@;
    let mut out: Vec<UiEvent> = Vec::new();
    assert(event_views(out@) =~= translated(batch.take(0)));
    for event in it: events.into_iter()
        invariant
            it.seq() == batch,
            event_views(out@) == translated(batch.take(it.index() as int)),
    {
        let ghost done = it.index() as int;
        proof {
            assert(batch.take(done + 1).drop_last() =~= batch.take(done));
            assert(batch.take(done + 1).last() == event);
        }
        let ghost before = out@;
        match event.into_egui_event() {
            Some(ui) => {
                out.push(ui);
                assert(event_views(out@) =~= event_views(before).push(ui@));
            },
            None => {},
        }
    }
    assert(batch.take(batch.len() as int) =~= batch);
    out
}

/// Host-only signals give no UI event: a lifecycle-phase change and a
/// keyboard-visibility notification are dropped, whatever they carry.
pub proof fn lemma_host_only_events_give_nothing(phase: u8, visible: bool)
    ensures
        ui_event_of(InputEvent::ScenePhaseChanged(phase)).is_none(),
        ui_event_of(InputEvent::KeyboardVisibility(visible)).is_none(),
{
}

/// A virtual key gives a UI event exactly when its code is one of 0 to 7;
/// every other code is dropped.
pub proof fn lemma_unknown_key_gives_nothing(code: u8, pressed: bool)
    ensures
        code > 7 ==> ui_event_of(InputEvent::VirtualKey(code, pressed)).is_none(),
        code <= 7 ==> ui_event_of(InputEvent::VirtualKey(code, pressed)).is_some(),
{
}

/// Translation keeps arrival order: translating two batches one after the
/// other gives the first batch's UI events followed by the second's.
pub proof fn lemma_translation_keeps_order(first: Seq<InputEvent>, second: Seq<InputEvent>)
    ensures
        translated(first + second) == translated(first) + translated(second),
    decreases second.len(),
{
    if second.len() == 0 {
        assert(first + second =~= first);
        assert(translated(first) + translated(second) =~= translated(first));
    } else {
        lemma_translation_keeps_order(first, second.drop_last());
        assert((first + second).drop_last() =~= first + second.drop_last());
        assert((first + second).last() == second.last());
        match ui_event_of(second.last()) {
            Some(e) => {
                assert(translated(first + second) =~= translated(first) + translated(second));
            },
            None => {},
        }
    }
}

/// A batch of one event gives that event's UI event, or nothing.
pub proof fn lemma_translated_single(event: InputEvent)
    ensures
        translated(seq![event]) == match ui_event_of(event) {
            Some(e) => seq![e],
            None => Seq::<UiEventView>::empty(),
        },
{
    let s = seq![event];
    assert(s.drop_last() =~= Seq::<InputEvent>::empty());
    assert(translated(s.drop_last()) =~= Seq::<UiEventView>::empty());
    assert(s.last() == event);
    match ui_event_of(event) {
        Some(e) => {
            assert(Seq::<UiEventView>::empty().push(e) =~= seq![e]);
        },
        None => {},
    }
}

} // verus!
