//! Output encoding: from the UI toolkit's per-frame platform output to the
//! descriptor that is handed back to the host.
//!
//! The descriptor owns everything it holds, so it may outlive the frame that
//! produced it.

use crate::scalar::Scalar;
use vstd::prelude::*;

verus! {

/// The cursor kinds that the host can show.
#[derive(Clone, Copy, PartialEq, Eq, Debug, Structural)]
pub enum CursorIcon {
    Default,
    PointingHand,
    ResizeHorizontal,
    ResizeVertical,
    Text,
}

/// The cursor kinds that the UI toolkit can ask for.
#[derive(Clone, Copy, PartialEq, Eq, Debug, Structural)]
pub enum ToolkitCursor {
    Default,
    /// No cursor is shown.
    Hidden,
    ContextMenu,
    Help,
    PointingHand,
    Progress,
    Wait,
    Cell,
    Crosshair,
    Text,
    VerticalText,
    Alias,
    Copy,
    Move,
    NoDrop,
    NotAllowed,
    Grab,
    Grabbing,
    AllScroll,
    ResizeHorizontal,
    ResizeNeSw,
    ResizeNwSe,
    ResizeVertical,
    ResizeEast,
    ResizeSouthEast,
    ResizeSouth,
    ResizeSouthWest,
    ResizeWest,
    ResizeNorthWest,
    ResizeNorth,
    ResizeNorthEast,
    ResizeColumn,
    ResizeRow,
    ZoomIn,
    ZoomOut,
}

/// The host's cursor kind for a cursor that the UI toolkit asks for: the kind
/// of the same name where the host has one, the default cursor otherwise.
pub open spec fn host_cursor(cursor: ToolkitCursor) -> CursorIcon {
    match cursor {
        ToolkitCursor::PointingHand => CursorIcon::PointingHand,
        ToolkitCursor::ResizeHorizontal => CursorIcon::ResizeHorizontal,
        ToolkitCursor::ResizeVertical => CursorIcon::ResizeVertical,
        ToolkitCursor::Text => CursorIcon::Text,
        _ => CursorIcon::Default,
    }
}

impl CursorIcon {
    /// The host's cursor kind for a cursor that the UI toolkit asks for.
    pub fn from_toolkit(cursor: ToolkitCursor) -> (icon: CursorIcon)
        ensures
            icon == host_cursor(cursor),
    {
        match cursor {
            ToolkitCursor::PointingHand => CursorIcon::PointingHand,
            ToolkitCursor::ResizeHorizontal => CursorIcon::ResizeHorizontal,
            ToolkitCursor::ResizeVertical => CursorIcon::ResizeVertical,
            ToolkitCursor::Text => CursorIcon::Text,
            _ => CursorIcon::Default,
        }
    }

    pub fn is_default(&self) -> (b: bool)
        ensures
            b == (*self == CursorIcon::Default),
    {
        matches!(self, CursorIcon::Default)
    }

    pub fn is_pointing_hand(&self) -> (b: bool)
        ensures
            b == (*self == CursorIcon::PointingHand),
    {
        matches!(self, CursorIcon::PointingHand)
    }

    pub fn is_resize_horizontal(&self) -> (b: bool)
        ensures
            b == (*self == CursorIcon::ResizeHorizontal),
    {
        matches!(self, CursorIcon::ResizeHorizontal)
    }

    pub fn is_resize_vertical(&self) -> (b: bool)
        ensures
            b == (*self == CursorIcon::ResizeVertical),
    {
        matches!(self, CursorIcon::ResizeVertical)
    }

    pub fn is_text(&self) -> (b: bool)
        ensures
            b == (*self == CursorIcon::Text),
    {
        matches!(self, CursorIcon::Text)
    }
}

/// The caret rectangle of an input method, in logical points.
#[derive(Clone, Copy, PartialEq, Eq, Debug, Structural)]
pub struct ImeRect {
    pub x: Scalar,
    pub y: Scalar,
    pub width: Scalar,
    pub height: Scalar,
}

/// What the UI toolkit asks of the platform at the end of a frame, as plain
/// values.
#[derive(Debug, PartialEq, Eq)]
pub struct PlatformOutput {
    /// The cursor that the toolkit asks for.
    pub cursor: ToolkitCursor,
    /// Whether a widget wants keyboard input.
    pub wants_keyboard: bool,
    /// The caret rectangle, while text is being edited.
    pub ime_rect: Option<ImeRect>,
    /// The text that the application chose to copy; empty where it copied
    /// nothing.
    pub copied_text: String,
}

/// The descriptor handed back to the host after a frame.
#[derive(Debug, PartialEq, Eq)]
pub struct OutputState {
    cursor_icon: CursorIcon,
    wants_keyboard: bool,
    ime_rect: Option<ImeRect>,
    copied_text: String,
}

/// What an [`OutputState`] says, with text as a sequence of characters.
pub struct OutputStateView {
    pub cursor_icon: CursorIcon,
    pub wants_keyboard: bool,
    pub ime_rect: Option<ImeRect>,
    pub copied_text: Seq<char>,
}

impl View for OutputState {
    type V = OutputStateView;

    closed spec fn view(&self) -> OutputStateView {
        OutputStateView {
            cursor_icon: self.cursor_icon,
            wants_keyboard: self.wants_keyboard,
            ime_rect: self.ime_rect,
            copied_text: self.copied_text@,
        }
    }
}

/// The descriptor of a frame that asked for nothing: the given cursor, no
/// keyboard, no caret rectangle, nothing copied.
pub open spec fn quiet_output(cursor_icon: CursorIcon) -> OutputStateView {
    OutputStateView {
        cursor_icon,
        wants_keyboard: false,
        ime_rect: None,
        copied_text: Seq::empty(),
    }
}

/// The descriptor of a frame that was dropped: default cursor, no keyboard,
/// no caret rectangle, nothing copied.
pub open spec fn degraded_output() -> OutputStateView {
    quiet_output(CursorIcon::Default)
}

/// The descriptor that encodes a platform output: the host's cursor kind for
/// the toolkit's cursor, and the other three fields as they are.
pub open spec fn encoded(output: PlatformOutput) -> OutputStateView {
    OutputStateView {
        cursor_icon: host_cursor(output.cursor),
        wants_keyboard: output.wants_keyboard,
        ime_rect: output.ime_rect,
        copied_text: output.copied_text@,
    }
}

/// The views of a run of texts, in order.
pub open spec fn text_views(texts: Seq<String>) -> Seq<Seq<char>> {
    texts.map_values(|t: String| t@)
}

/// The text that a frame's copy commands leave for the host: that of the
/// last command, or the empty text where the frame copied nothing.
pub open spec fn last_copied(commands: Seq<Seq<char>>) -> Seq<char> {
    if commands.len() == 0 {
        Seq::empty()
    } else {
        commands.last()
    }
}

/// Picks the copied text of a frame from its copy commands, given in the
/// order in which the application issued them: a later copy replaces an
/// earlier one.
pub fn copied_text_of(commands: Vec<String>) -> (text: String)
    ensures
        text@ == last_copied(text_views(commands@)),
{
    let mut commands = commands;
    match commands.pop() {
        Some(text) => text,
        None => String::new(),
    }
}

/// The coordinate that the host reads where there is no caret rectangle.
pub open spec fn zero_scalar() -> Scalar {
    Scalar { bits: 0 }
}

impl OutputState {
    /// A descriptor with the given cursor that asks for nothing else.
    pub fn new(cursor_icon: CursorIcon) -> (state: OutputState)
        ensures
            state@ == quiet_output(cursor_icon),
    {
        OutputState { cursor_icon, wants_keyboard: false, ime_rect: None, copied_text: String::new() }
    }

    /// A descriptor with cursor, keyboard request and caret rectangle, and
    /// nothing copied.
    pub fn with_keyboard_state(
        cursor_icon: CursorIcon,
        wants_keyboard: bool,
        ime_rect: Option<ImeRect>,
    ) -> (state: OutputState)
        ensures
            state@ == (OutputStateView {
                cursor_icon,
                wants_keyboard,
                ime_rect,
                copied_text: Seq::empty(),
            }),
    {
        OutputState { cursor_icon, wants_keyboard, ime_rect, copied_text: String::new() }
    }

    /// A descriptor with all four fields given.
    pub fn with_full_state(
        cursor_icon: CursorIcon,
        wants_keyboard: bool,
        ime_rect: Option<ImeRect>,
        copied_text: String,
    ) -> (state: OutputState)
        ensures
            state@ == (OutputStateView {
                cursor_icon,
                wants_keyboard,
                ime_rect,
                copied_text: copied_text@,
            }),
    {
        OutputState { cursor_icon, wants_keyboard, ime_rect, copied_text }
    }

    /// Encodes the toolkit's platform output for the host. The descriptor
    /// owns its text and rectangle: it keeps nothing of the toolkit's.
    pub fn from_platform_output(output: PlatformOutput) -> (state: OutputState)
        ensures
            state@ == encoded(output),
    {
        let PlatformOutput { cursor, wants_keyboard, ime_rect, copied_text } = output;
        OutputState::with_full_state(
            CursorIcon::from_toolkit(cursor),
            wants_keyboard,
            ime_rect,
            copied_text,
        )
    }

    pub fn get_cursor_icon(&self) -> (icon: &CursorIcon)
        ensures
            *icon == self@.cursor_icon,
    {
        &self.cursor_icon
    }

    pub fn wants_keyboard(&self) -> (wanted: bool)
        ensures
            wanted == self@.wants_keyboard,
    {
        self.wants_keyboard
    }

    pub fn has_ime_rect(&self) -> (present: bool)
        ensures
            present == self@.ime_rect.is_some(),
    {
        self.ime_rect.is_some()
    }

    /// The caret rectangle, if the frame set one.
    pub fn ime_rect(&self) -> (rect: Option<ImeRect>)
        ensures
            rect == self@.ime_rect,
    {
        self.ime_rect
    }

    /// The caret rectangle's left edge, or zero where there is none.
    pub fn get_ime_rect_x(&self) -> (x: Scalar)
        ensures
            x == match self@.ime_rect {
                Some(rect) => rect.x,
                None => zero_scalar(),
            },
    {
        match self.ime_rect {
            Some(rect) => rect.x,
            None => Scalar { bits: 0 },
        }
    }

    /// The caret rectangle's top edge, or zero where there is none.
    pub fn get_ime_rect_y(&self) -> (y: Scalar)
        ensures
            y == match self@.ime_rect {
                Some(rect) => rect.y,
                None => zero_scalar(),
            },
    {
        match self.ime_rect {
            Some(rect) => rect.y,
            None => Scalar { bits: 0 },
        }
    }

    /// The caret rectangle's width, or zero where there is none.
    pub fn get_ime_rect_width(&self) -> (width: Scalar)
        ensures
            width == match self@.ime_rect {
                Some(rect) => rect.width,
                None => zero_scalar(),
            },
    {
        match self.ime_rect {
            Some(rect) => rect.width,
            None => Scalar { bits: 0 },
        }
    }

    /// The caret rectangle's height, or zero where there is none.
    pub fn get_ime_rect_height(&self) -> (height: Scalar)
        ensures
            height == match self@.ime_rect {
                Some(rect) => rect.height,
                None => zero_scalar(),
            },
    {
        match self.ime_rect {
            Some(rect) => rect.height,
            None => Scalar { bits: 0 },
        }
    }

    /// The text copied during the frame; empty where nothing was copied.
    pub fn get_copied_text(&self) -> (text: &str)
        ensures
            text@ == self@.copied_text,
    {
        self.copied_text.as_str()
    }

    /// Whether anything was copied during the frame.
    pub fn has_copied_text(&self) -> (present: bool)
        ensures
            present == (self@.copied_text.len() > 0),
    {
        !self.copied_text.as_str().is_empty()
    }
}

} // verus!
