//! Clipboard provider: a minimal get and set-text interface, and the
//! provider that the mobile shell uses.
//!
//! On the mobile shell the host owns the system pasteboard. Pasted text
//! comes in from the host and is handed to the application once; copied text
//! is kept until the host takes it. The two channels never mix.

use vstd::prelude::*;

verus! {

/// A source and sink of clipboard text.
pub trait Clipboard: Send {
    /// The text on the clipboard, if there is any.
    fn get(&mut self) -> Option<String>;

    /// Puts text on the clipboard.
    fn set_text(&mut self, text: String);
}

/// The clipboard of the mobile shell: one slot for text pasted in by the
/// host, one for text copied out by the application.
pub struct IosClipboard {
    paste_content: Option<String>,
    copy_content: Option<String>,
}

/// What an [`IosClipboard`] holds, with text as sequences of characters.
pub struct IosClipboardView {
    /// Text that the host pasted in and the application has not read yet.
    pub paste: Option<Seq<char>>,
    /// Text that the application copied and the host has not taken yet.
    pub copy: Option<Seq<char>>,
}

/// The view of an optional text.
pub open spec fn text_view(text: Option<String>) -> Option<Seq<char>> {
    match text {
        Some(t) => Some(t@),
        None => None,
    }
}

/// The clipboard after the host pasted `text` in.
pub open spec fn after_paste(clipboard: IosClipboardView, text: Seq<char>) -> IosClipboardView {
    IosClipboardView { paste: Some(text), copy: clipboard.copy }
}

/// The clipboard after the application copied `text`.
pub open spec fn after_copy(clipboard: IosClipboardView, text: Seq<char>) -> IosClipboardView {
    IosClipboardView { paste: clipboard.paste, copy: Some(text) }
}

/// The clipboard after the application read the pasted text.
pub open spec fn after_get(clipboard: IosClipboardView) -> IosClipboardView {
    IosClipboardView { paste: None, copy: clipboard.copy }
}

/// The clipboard after the host took the copied text.
pub open spec fn after_take(clipboard: IosClipboardView) -> IosClipboardView {
    IosClipboardView { paste: clipboard.paste, copy: None }
}

impl View for IosClipboard {
    type V = IosClipboardView;

    closed spec fn view(&self) -> IosClipboardView {
        IosClipboardView {
            paste: text_view(self.paste_content),
            copy: text_view(self.copy_content),
        }
    }
}

impl IosClipboard {
    /// An empty clipboard.
    pub fn new() -> (clipboard: IosClipboard)
        ensures
            clipboard@ == (IosClipboardView { paste: None, copy: None }),
    {
        IosClipboard { paste_content: None, copy_content: None }
    }

    /// Takes in text that the host read from the system pasteboard. It
    /// replaces pasted text that was not read; copied text is untouched.
    pub fn receive_paste(&mut self, text: String)
        ensures
            final(self)@ == after_paste(old(self)@, text@),
    {
        self.paste_content = Some(text);
    }

    /// Hands the copied text to the host, once: afterwards there is none
    /// until the application copies again. Pasted text is untouched.
    pub fn take_copy_content(&mut self) -> (text: Option<String>)
        ensures
            text_view(text) == old(self)@.copy,
            final(self)@ == after_take(old(self)@),
    {
        self.copy_content.take()
    }
}

impl Default for IosClipboard {
    fn default() -> (clipboard: IosClipboard)
        ensures
            clipboard@ == (IosClipboardView { paste: None, copy: None }),
    {
        IosClipboard::new()
    }
}

impl Clipboard for IosClipboard {
    /// Hands the pasted text to the application, once. Copied text is
    /// untouched.
    fn get(&mut self) -> (text: Option<String>)
        ensures
            text_view(text) == old(self)@.paste,
            final(self)@ == after_get(old(self)@),
    {
        self.paste_content.take()
    }

    /// Keeps text that the application copied, for the host to take. It
    /// replaces copied text that was not taken; pasted text is untouched.
    fn set_text(&mut self, text: String)
        ensures
            final(self)@ == after_copy(old(self)@, text@),
    {
        self.copy_content = Some(text);
    }
}

/// The paste-in and copy-out channels do not mix: what the host takes after
/// the application copied is the copied text, whatever was pasted before or
/// after, and what the application reads after a paste is the pasted text,
/// whatever was copied.
pub proof fn lemma_clipboard_channels_are_independent(
    clipboard: IosClipboardView,
    pasted: Seq<char>,
    copied: Seq<char>,
)
    ensures
        after_copy(after_paste(clipboard, pasted), copied).copy == Some(copied),
        after_paste(after_copy(clipboard, copied), pasted).copy == Some(copied),
        after_paste(after_copy(clipboard, copied), pasted).paste == Some(pasted),
        after_copy(after_paste(clipboard, pasted), copied).paste == Some(pasted),
        after_paste(clipboard, pasted).copy == clipboard.copy,
        after_get(clipboard).copy == clipboard.copy,
        after_copy(clipboard, copied).paste == clipboard.paste,
        after_take(clipboard).paste == clipboard.paste,
{
}

} // verus!
