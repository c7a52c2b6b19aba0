//! Events of the window.

use vstd::prelude::*;
use vstd::string::StringExecFns;
use crate::text::{append_decimal, append_signed, decimal, signed_decimal};

verus! {

/// The resolution of the screen changed. The scale factor is held as the bits of
/// its double-precision value.
#[derive(Debug, Clone, Copy, PartialEq, Eq, Structural)]
pub struct ResolutionChangeEvent {
    pub scale_fact: u64,
    pub new_inner_width: u32,
    pub new_inner_height: u32,
}

impl ResolutionChangeEvent {
    pub fn new(scale_fact: u64, new_inner_size: (u32, u32)) -> (r: Self)
        ensures
            r.scale_fact == scale_fact,
            r.new_inner_width == new_inner_size.0,
            r.new_inner_height == new_inner_size.1,
    {
        Self { scale_fact, new_inner_width: new_inner_size.0, new_inner_height: new_inner_size.1 }
    }
}

/// An event of the window.
#[derive(Debug)]
pub enum WindowEvent {
    PositionChange(i32, i32),
    Resize(u32, u32),
    Close,
    ResolutionChange(ResolutionChangeEvent),
    FullHidden,
    PartiallyHidden,
    Delete,
    /// A file was dropped on the window.
    DropFile(String),
    /// A file is held over the window.
    FileOver(String),
    /// The file that was held over the window left it.
    FileEscaped,
    FocusLost,
    FocusGain,
}

impl WindowEvent {
    /// The event in words, where it holds nothing that the engine only carries
    /// as bits: a change of resolution is worded by who can read its scale factor.
    pub open spec fn text(self) -> Option<Seq<char>> {
        match self {
            WindowEvent::PositionChange(x, y) => Some(
                "Position change at x: "@ + signed_decimal(x as int) + " px y: "@ + signed_decimal(
                    y as int,
                ) + " px "@,
            ),
            WindowEvent::Resize(w, h) => Some(
                "Resize to width: "@ + decimal(w as nat) + " px height: "@ + decimal(h as nat)
                    + " px"@,
            ),
            WindowEvent::Close => Some("Closing Window call"@),
            WindowEvent::ResolutionChange(_) => None,
            WindowEvent::FullHidden => Some("Window Fully hidden"@),
            WindowEvent::PartiallyHidden => Some("Window Partially hidden"@),
            WindowEvent::Delete => Some("Window will be destroy"@),
            WindowEvent::DropFile(p) => Some(
                "File '"@ + p@ + "' have been dropped on the window"@,
            ),
            WindowEvent::FileOver(p) => Some("File '"@ + p@ + "' is over the window"@),
            WindowEvent::FileEscaped => Some("The last file has escaped the window"@),
            WindowEvent::FocusLost => Some("Loose focus of the window"@),
            WindowEvent::FocusGain => Some("Gain focus of the window"@),
        }
    }

    /// Words the event, where it can be worded here.
    pub fn describe(&self) -> (r: Option<String>)
        ensures
            match r {
                Some(text) => self.text() == Some(text@),
                None => self.text() is None,
            },
    {
        match self {
            WindowEvent::PositionChange(x, y) => {
                let mut r = String::from_str("Position change at x: ");
                append_signed(&mut r, *x);
                r.append(" px y: ");
                append_signed(&mut r, *y);
                r.append(" px ");
                Some(r)
            },
            WindowEvent::Resize(w, h) => {
                let mut r = String::from_str("Resize to width: ");
                append_decimal(&mut r, *w as u64);
                r.append(" px height: ");
                append_decimal(&mut r, *h as u64);
                r.append(" px");
                Some(r)
            },
            WindowEvent::Close => Some(String::from_str("Closing Window call")),
            WindowEvent::ResolutionChange(_) => None,
            WindowEvent::FullHidden => Some(String::from_str("Window Fully hidden")),
            WindowEvent::PartiallyHidden => Some(String::from_str("Window Partially hidden")),
            WindowEvent::Delete => Some(String::from_str("Window will be destroy")),
            WindowEvent::DropFile(p) => {
                let mut r = String::from_str("File '");
                r.append(p.as_str());
                r.append("' have been dropped on the window");
                Some(r)
            },
            WindowEvent::FileOver(p) => {
                let mut r = String::from_str("File '");
                r.append(p.as_str());
                r.append("' is over the window");
                Some(r)
            },
            WindowEvent::FileEscaped => Some(
                String::from_str("The last file has escaped the window"),
            ),
            WindowEvent::FocusLost => Some(String::from_str("Loose focus of the window")),
            WindowEvent::FocusGain => Some(String::from_str("Gain focus of the window")),
        }
    }
}

} // verus!
