//! The events of the engine.

use vstd::prelude::*;
use vstd::string::StringExecFns;
use crate::text::push_char;

pub mod input;
pub mod window;

use input::{modifier_name, KeyboardEvent, ModifierChangeEvent, MouseEvent, TextInputEvent};
use window::WindowEvent;

verus! {

/// An event as the engine sees it.
#[derive(Debug)]
pub enum CEvent {
    Any,
    Ignored,
    Unknown,
    Window(WindowEvent),
    Keyboard(KeyboardEvent),
    Mouse(MouseEvent),
    ModifierStateChange(ModifierChangeEvent),
    Suspended,
    Resumed,
    RedrawRequest,
    RedrawClear,
    ReceivedChar(char),
    TextInput(TextInputEvent),
    TextInputModeEnabled,
    TextInputModeDisabled,
}

/// A text with words in front of it, where there is a text.
pub open spec fn headed(heading: Seq<char>, text: Option<Seq<char>>) -> Option<Seq<char>> {
    match text {
        Some(t) => Some(heading + t),
        None => None,
    }
}

impl CEvent {
    /// The event in words, where it holds nothing that the engine only carries as bits.
    pub open spec fn text(self) -> Option<Seq<char>> {
        match self {
            CEvent::Any => Some("Any"@),
            CEvent::Ignored => Some("Ignored"@),
            CEvent::Unknown => Some("Unknown"@),
            CEvent::Window(win) => headed("Window: "@, win.text()),
            CEvent::Keyboard(key) => Some(key.text()),
            CEvent::Mouse(event) => headed("Mouse: "@, event.text()),
            CEvent::ModifierStateChange(event) => Some(
                "Modifier state: "@ + modifier_name(event.value()),
            ),
            CEvent::Suspended => Some("Os Suspend"@),
            CEvent::Resumed => Some("Os Resumed"@),
            CEvent::RedrawRequest => Some("Redraw Request"@),
            CEvent::RedrawClear => Some("Redraw Clear"@),
            CEvent::ReceivedChar(c) => Some("Receive char : "@.push(c)),
            CEvent::TextInput(t) => Some(t.text()),
            CEvent::TextInputModeEnabled => Some("Text input mode enabled"@),
            CEvent::TextInputModeDisabled => Some("Text input mode disabled"@),
        }
    }

    /// Words the event, where it can be worded here.
    pub fn describe(&self) -> (r: Option<String>)
        ensures
            match r {
                Some(text) => self.text() == Some(text@),
                None => self.text() is None,
            },
    {
        match self {
            CEvent::Any => Some(String::from_str("Any")),
            CEvent::Ignored => Some(String::from_str("Ignored")),
            CEvent::Unknown => Some(String::from_str("Unknown")),
            CEvent::Window(win) => match win.describe() {
                Some(text) => {
                    let mut r = String::from_str("Window: ");
                    r.append(text.as_str());
                    Some(r)
                },
                None => None,
            },
            CEvent::Keyboard(key) => Some(key.describe()),
            CEvent::Mouse(event) => match event.describe() {
                Some(text) => {
                    let mut r = String::from_str("Mouse: ");
                    r.append(text.as_str());
                    Some(r)
                },
                None => None,
            },
            CEvent::ModifierStateChange(event) => {
                let mut r = String::from_str("Modifier state: ");
                r.append(event.name());
                Some(r)
            },
            CEvent::Suspended => Some(String::from_str("Os Suspend")),
            CEvent::Resumed => Some(String::from_str("Os Resumed")),
            CEvent::RedrawRequest => Some(String::from_str("Redraw Request")),
            CEvent::RedrawClear => Some(String::from_str("Redraw Clear")),
            CEvent::ReceivedChar(c) => {
                let mut r = String::from_str("Receive char : ");
                push_char(&mut r, *c);
                Some(r)
            },
            CEvent::TextInput(t) => Some(t.describe()),
            CEvent::TextInputModeEnabled => Some(String::from_str("Text input mode enabled")),
            CEvent::TextInputModeDisabled => Some(String::from_str("Text input mode disabled")),
        }
    }
}

} // verus!
