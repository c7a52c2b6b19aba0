//! The engine: the host it runs on, and how it answers the events that come in.

use vstd::prelude::*;
use crate::event::types::window::WindowEvent;
use crate::event::types::CEvent;
use crate::event::{engine_event, with_event, EventSystem, WEvent};
use crate::renderer::surface::WindowRequest;
use crate::renderer::RenderingSys;

verus! {

// ------------------------------------------------------------------------------------------------
// Host information
//
/// Information about the host that the engine runs on.
#[derive(Debug)]
pub struct HostInfo {
    os: String,
}

impl HostInfo {
    /// Name of the operating system of the host.
    pub closed spec fn os_name(self) -> Seq<char> {
        self.os@
    }

    /// Keeps what was gathered on the host.
    pub fn new(os: &str) -> (r: Self)
        ensures
            r.os_name() == os@,
    {
        HostInfo { os: os.to_owned() }
    }

    pub fn get_os(&self) -> (r: &String)
        ensures
            r@ == self.os_name(),
    {
        &self.os
    }
}

// ------------------------------------------------------------------------------------------------
// Engine
//
/// What the engine has the caller do after it looked at an event.
#[derive(Debug)]
pub enum EngineAction {
    /// Nothing.
    Idle,
    /// Rebuild the window with this; the swapchain is recreated at the next redraw.
    RebuildWindow(WindowRequest),
    /// Let go of what the device is done with, and recreate the swapchain if asked to.
    Redraw { recreate_swapchain: bool },
}

/// A dimension of the window as the window keeps it: the low sixteen bits of what
/// the windowing system reported.
pub open spec fn window_dimension(reported: u32) -> u16 {
    (reported % 0x1_0000) as u16
}

/// The engine.
#[derive(Debug)]
pub struct Engine {
    rendering_sys: RenderingSys,
    event_sys: EventSystem,
    app_should_close: bool,
}

impl Engine {
    pub closed spec fn rendering(self) -> RenderingSys {
        self.rendering_sys
    }

    pub closed spec fn events(self) -> EventSystem {
        self.event_sys
    }

    pub closed spec fn closing(self) -> bool {
        self.app_should_close
    }

    /// An engine on a rendering system, with an event system that has seen nothing.
    pub fn init(rendering_sys: RenderingSys) -> (r: Self)
        ensures
            r.rendering() == rendering_sys,
            r.events().events() == Seq::<CEvent>::empty(),
            !r.closing(),
    {
        Engine { rendering_sys, event_sys: EventSystem::new(), app_should_close: false }
    }

    /// Takes an event of the windowing system in: it is turned into an event of
    /// the engine and, unless it is to be ignored, added to the queue.
    pub fn take_event(&mut self, event: WEvent)
        ensures
            final(self).rendering() == old(self).rendering(),
            final(self).closing() == old(self).closing(),
            final(self).events().limit() == old(self).events().limit(),
            final(self).events().close_requested() == old(self).events().close_requested(),
            final(self).events().modifiers() == old(self).events().modifiers(),
            final(self).events().events() == if engine_event(event) is Ignored {
                old(self).events().events()
            } else {
                with_event(
                    old(self).events().events(),
                    old(self).events().limit(),
                    engine_event(event),
                )
            },
    {
        self.event_sys.run_return(event);
    }

    /// Looks at the newest event and says what is to be done about it. After a
    /// resize the window takes the new size and the swapchain is due for
    /// recreation. When the redrawing is over, what the device is done with is
    /// let go, and the swapchain is recreated where that is due. A request to
    /// close the window closes the application.
    pub fn filter_last_event(&mut self) -> (r: EngineAction)
        ensures
            final(self).events().events() == old(self).events().events(),
            match (if old(self).events().events().len() > 0 {
                Some(old(self).events().events().last())
            } else {
                None
            }) {
                Some(CEvent::Window(WindowEvent::Resize(w, h))) => {
                    &&& r matches EngineAction::RebuildWindow(request) && request.width
                        == window_dimension(w) && request.height == window_dimension(h)
                        && request.title@ == old(self).rendering().window().title_text()
                    &&& final(self).rendering().recreation_due()
                    &&& final(self).rendering().window().size() == (
                        window_dimension(w),
                        window_dimension(h),
                    )
                    &&& final(self).closing() == old(self).closing()
                },
                Some(CEvent::RedrawClear) => {
                    &&& r matches EngineAction::Redraw { recreate_swapchain }
                        && recreate_swapchain == old(self).rendering().recreation_due()
                    &&& !final(self).rendering().in_flight()
                    &&& final(self).rendering().recreation_due() == old(self).rendering().recreation_due()
                    &&& final(self).closing() == old(self).closing()
                },
                Some(CEvent::Window(WindowEvent::Close)) => {
                    &&& r is Idle
                    &&& final(self).closing()
                    &&& final(self).rendering() == old(self).rendering()
                },
                _ => {
                    &&& r is Idle
                    &&& final(self).rendering() == old(self).rendering()
                    &&& final(self).closing() == old(self).closing()
                },
            },
    {
        let mut resize: Option<(u32, u32)> = None;
        let mut redraw = false;
        let mut close = false;
        match self.event_sys.get_last_event() {
            Some(CEvent::Window(WindowEvent::Resize(w, h))) => {
                resize = Some((*w, *h));
            },
            Some(CEvent::Window(WindowEvent::Close)) => {
                close = true;
            },
            Some(CEvent::RedrawClear) => {
                redraw = true;
            },
            _ => {},
        }
        self.event_sys.check_last_event();
        if close {
            self.app_should_close = true;
            return EngineAction::Idle;
        }
        match resize {
            Some((w, h)) => {
                let width = (w % 0x1_0000) as u16;
                let height = (h % 0x1_0000) as u16;
                let request = self.rendering_sys.set_window_size(width, height);
                self.rendering_sys.set_recreate_swapchain(true);
                return EngineAction::RebuildWindow(request);
            },
            None => {},
        }
        if redraw {
            self.rendering_sys.free_gpu_resource();
            return EngineAction::Redraw {
                recreate_swapchain: self.rendering_sys.should_recreate_swapchain(),
            };
        }
        EngineAction::Idle
    }

    /// Tells whether the application is to close.
    pub fn should_close(&self) -> (r: bool)
        ensures
            r == self.closing(),
    {
        self.app_should_close
    }

    /// The rendering system, to carry out what the engine decided.
    pub fn rendering_sys(&mut self) -> (r: &mut RenderingSys)
        ensures
            *r == old(self).rendering(),
            final(self).rendering() == *final(r),
            final(self).events() == old(self).events(),
            final(self).closing() == old(self).closing(),
    {
        &mut self.rendering_sys
    }
}

} // verus!
