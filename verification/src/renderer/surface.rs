//! The window that the engine draws to, as the engine keeps track of it.

use vstd::prelude::*;
use crate::error_handler::ERendering;

verus! {

/// Width of the window until the application says otherwise.
pub const DEFAULT_WIDTH: u16 = 1000;

/// Height of the window until the application says otherwise.
pub const DEFAULT_HEIGHT: u16 = 1000;

/// Title of the window until the application says otherwise.
pub const DEFAULT_TITLE: &'static str = "Cobia Engine";

/// What a window is built with.
#[derive(Debug)]
pub struct WindowRequest {
    pub title: String,
    pub width: u16,
    pub height: u16,
}

/// The surface of the engine's window with the title and size it was last given.
#[derive(Debug)]
pub struct CSurface {
    surf: u64,
    title: String,
    width: u16,
    height: u16,
}

impl CSurface {
    /// Handle of the surface the window is shown on.
    pub closed spec fn surface(self) -> u64 {
        self.surf
    }

    pub closed spec fn title_text(self) -> Seq<char> {
        self.title@
    }

    pub closed spec fn size(self) -> (u16, u16) {
        (self.width, self.height)
    }

    /// The window that is asked for at start-up: default title, default size.
    pub fn default_request() -> (r: WindowRequest)
        ensures
            r.title@ == DEFAULT_TITLE@,
            r.width == DEFAULT_WIDTH,
            r.height == DEFAULT_HEIGHT,
    {
        WindowRequest { title: DEFAULT_TITLE.to_owned(), width: DEFAULT_WIDTH, height: DEFAULT_HEIGHT }
    }

    /// Takes over the surface of the window that was built from the default
    /// request, or reports why none could be built.
    pub fn new(built: Result<u64, String>) -> (r: Result<Self, (ERendering, String)>)
        ensures
            match built {
                Ok(handle) => r matches Ok(s) && s.surface() == handle && s.title_text()
                    == DEFAULT_TITLE@ && s.size() == (DEFAULT_WIDTH, DEFAULT_HEIGHT),
                Err(why) => r matches Err(e) && e == (ERendering::Surface, why),
            },
    {
        match built {
            Ok(surf) => Ok(
                CSurface {
                    surf,
                    title: DEFAULT_TITLE.to_owned(),
                    width: DEFAULT_WIDTH,
                    height: DEFAULT_HEIGHT,
                },
            ),
            Err(why) => Err((ERendering::Surface, why)),
        }
    }

    pub fn get_surface(&self) -> (r: u64)
        ensures
            r == self.surface(),
    {
        self.surf
    }

    /// Replaces the surface by that of a rebuilt window, or reports why the window
    /// could not be rebuilt; title and size stay as they are either way.
    pub fn change_vk_surface(&mut self, built: Result<u64, String>) -> (r: Result<
        (),
        (ERendering, String),
    >)
        ensures
            final(self).title_text() == old(self).title_text(),
            final(self).size() == old(self).size(),
            match built {
                Ok(handle) => r is Ok && final(self).surface() == handle,
                Err(why) => r == Err::<(), _>((ERendering::Surface, why)) && final(self).surface()
                    == old(self).surface(),
            },
    {
        match built {
            Ok(surf) => {
                self.surf = surf;
                Ok(())
            },
            Err(why) => Err((ERendering::Surface, why)),
        }
    }

    /// Gives the window a new title and says what the window is to be rebuilt with.
    pub fn set_title(&mut self, title: &str) -> (r: WindowRequest)
        ensures
            final(self).title_text() == title@,
            final(self).size() == old(self).size(),
            final(self).surface() == old(self).surface(),
            r.title@ == title@,
            (r.width, r.height) == old(self).size(),
    {
        self.title = title.to_owned();
        WindowRequest { title: title.to_owned(), width: self.width, height: self.height }
    }

    /// Gives the window a new size and says what the window is to be rebuilt with.
    pub fn set_win_size(&mut self, w: u16, h: u16) -> (r: WindowRequest)
        ensures
            final(self).size() == (w, h),
            final(self).title_text() == old(self).title_text(),
            final(self).surface() == old(self).surface(),
            r.title@ == old(self).title_text(),
            (r.width, r.height) == (w, h),
    {
        self.width = w;
        self.height = h;
        WindowRequest { title: self.title.clone(), width: w, height: h }
    }
}

} // verus!
