//! The event system: what the windowing system reports, turned into events of the engine.

use vstd::prelude::*;

pub mod types;

use types::input::{
    Key, KeyboardEvent, ModifierChangeEvent, ModifierStateKeeper, MouseButton, MouseButtonEvent,
    MouseEvent, MouseMovedEvent, MouseWheelRollEvent, PhaseWheelScroll, StateAction,
    TextInputEvent, ALT, CONTROL, NULL_MOD, SHIFT, SUPER,
};
use types::window::WindowEvent;
use types::CEvent;

verus! {

// ------------------------------------------------------------------------------------------------
// What the windowing system reports
//
/// The modifier keys that are held, as the windowing system reports them.
#[derive(Debug, Clone, Copy, PartialEq, Eq, Structural)]
pub struct ModifiersState {
    pub ctrl: bool,
    pub alt: bool,
    pub shift: bool,
    pub logo: bool,
}

/// How far the wheel was rolled.
#[derive(Debug, Clone, Copy, PartialEq, Eq, Structural)]
pub enum MouseScrollDelta {
    /// By columns and rows, each held as the bits of its single-precision value.
    LineDelta(u32, u32),
    /// By pixels.
    PixelDelta,
}

/// A button of the mouse, as the windowing system names it.
#[derive(Debug, Clone, Copy, PartialEq, Eq, Structural)]
pub enum WinitMouseButton {
    Left,
    Right,
    Middle,
    Other,
}

/// The phase of a touch or a scroll, as the windowing system names it.
#[derive(Debug, Clone, Copy, PartialEq, Eq, Structural)]
pub enum TouchPhase {
    Started,
    Moved,
    Ended,
    Cancelled,
}

/// An event of the input method.
#[derive(Debug)]
pub enum Ime {
    Enabled,
    Disabled,
    Preedit(String, Option<(usize, usize)>),
    Commit(String),
}

/// A window event, as the windowing system reports it.
#[derive(Debug)]
pub enum WinitWindowEvent {
    CloseRequested,
    Resized(u32, u32),
    Occluded(bool),
    Moved(i32, i32),
    Destroyed,
    DroppedFile(String),
    HoveredFile(String),
    HoveredFileCancelled,
    Focused(bool),
    /// A key, where the windowing system could name it, went down or came up.
    KeyboardInput(Option<Key>, StateAction),
    CursorLeft,
    CursorEntered,
    ReceivedCharacter(char),
    Ime(Ime),
    ModifiersChanged(ModifiersState),
    /// The cursor moved; each coordinate is held as the bits of its double-precision value.
    CursorMoved(u64, u64),
    MouseWheel(MouseScrollDelta, TouchPhase),
    MouseInput(StateAction, WinitMouseButton),
    /// Any other window event.
    Other,
}

/// An event, as the windowing system reports it.
#[derive(Debug)]
pub enum WEvent {
    WindowEvent(WinitWindowEvent),
    Suspended,
    Resumed,
    RedrawEventsCleared,
    LoopDestroyed,
    /// Any other event.
    Other,
}

// ------------------------------------------------------------------------------------------------
// Converter functions
//
/// The code of the modifiers for what is held. One modifier is reported at a
/// time: control before alt, alt before shift, shift before the logo key.
pub open spec fn modifier_code(mstate: ModifiersState) -> u8 {
    if mstate.ctrl {
        CONTROL
    } else if mstate.alt {
        ALT
    } else if mstate.shift {
        SHIFT
    } else if mstate.logo {
        SUPER
    } else {
        NULL_MOD
    }
}

/// Turns a change of the modifiers into an event of the engine.
pub fn modifier_event_converter(mstate: ModifiersState) -> (r: CEvent)
    ensures
        r == CEvent::ModifierStateChange(ModifierChangeEvent::new_spec(modifier_code(mstate))),
        r matches CEvent::ModifierStateChange(e) && e.value() == modifier_code(mstate),
{
    let mevent = if mstate.ctrl {
        ModifierChangeEvent::new(CONTROL)
    } else if mstate.alt {
        ModifierChangeEvent::new(ALT)
    } else if mstate.shift {
        ModifierChangeEvent::new(SHIFT)
    } else if mstate.logo {
        ModifierChangeEvent::new(SUPER)
    } else {
        ModifierChangeEvent::new(NULL_MOD)
    };
    CEvent::ModifierStateChange(mevent)
}

/// Turns a key that went down or came up into an event of the engine. A key that
/// the windowing system could not name is the unknown key.
pub fn keyboard_event_converter(virtual_keycode: Option<Key>, state: StateAction) -> (r: CEvent)
    ensures
        r == CEvent::Keyboard(
            KeyboardEvent {
                key: match virtual_keycode {
                    Some(key) => key,
                    None => Key::Unknown,
                },
                action: state,
            },
        ),
{
    let kevent = match virtual_keycode {
        Some(key) => KeyboardEvent::new(key, state),
        None => KeyboardEvent::new(Key::Unknown, state),
    };
    CEvent::Keyboard(kevent)
}

/// The phase of a scroll for a phase of the windowing system.
pub open spec fn scroll_phase(phase: TouchPhase) -> PhaseWheelScroll {
    match phase {
        TouchPhase::Started => PhaseWheelScroll::Started,
        TouchPhase::Moved => PhaseWheelScroll::Moved,
        TouchPhase::Ended => PhaseWheelScroll::Stopped,
        TouchPhase::Cancelled => PhaseWheelScroll::Canceled,
    }
}

/// The button of the engine for a button of the windowing system.
pub open spec fn engine_button(button: WinitMouseButton) -> MouseButton {
    match button {
        WinitMouseButton::Right => MouseButton::Right,
        WinitMouseButton::Left => MouseButton::Left,
        WinitMouseButton::Middle => MouseButton::Wheel,
        WinitMouseButton::Other => MouseButton::Unknown,
    }
}

/// The event of the engine for a window event of the windowing system.
pub open spec fn converted(wevent: WinitWindowEvent) -> CEvent {
    match wevent {
        WinitWindowEvent::CloseRequested => CEvent::Window(WindowEvent::Close),
        WinitWindowEvent::Resized(w, h) => CEvent::Window(WindowEvent::Resize(w, h)),
        WinitWindowEvent::Occluded(hidden) => CEvent::Window(
            if hidden {
                WindowEvent::FullHidden
            } else {
                WindowEvent::PartiallyHidden
            },
        ),
        WinitWindowEvent::Moved(x, y) => CEvent::Window(WindowEvent::PositionChange(x, y)),
        WinitWindowEvent::Destroyed => CEvent::Window(WindowEvent::Delete),
        WinitWindowEvent::DroppedFile(path) => CEvent::Window(WindowEvent::DropFile(path)),
        WinitWindowEvent::HoveredFile(path) => CEvent::Window(WindowEvent::FileOver(path)),
        WinitWindowEvent::HoveredFileCancelled => CEvent::Window(WindowEvent::FileEscaped),
        WinitWindowEvent::Focused(focused) => CEvent::Window(
            if focused {
                WindowEvent::FocusGain
            } else {
                WindowEvent::FocusLost
            },
        ),
        WinitWindowEvent::KeyboardInput(key, state) => CEvent::Keyboard(
            KeyboardEvent {
                key: match key {
                    Some(k) => k,
                    None => Key::Unknown,
                },
                action: state,
            },
        ),
        WinitWindowEvent::CursorLeft => CEvent::Mouse(MouseEvent::MouseEscape),
        WinitWindowEvent::CursorEntered => CEvent::Mouse(MouseEvent::MouseEntered),
        WinitWindowEvent::ReceivedCharacter(c) => CEvent::ReceivedChar(c),
        WinitWindowEvent::Ime(ev) => match ev {
            Ime::Enabled => CEvent::TextInputModeEnabled,
            Ime::Disabled => CEvent::TextInputModeDisabled,
            Ime::Preedit(content, pos) => if content@.len() != 0 {
                CEvent::TextInput(TextInputEvent { content, position: pos })
            } else {
                CEvent::Ignored
            },
            Ime::Commit(content) => CEvent::TextInput(TextInputEvent { content, position: None }),
        },
        WinitWindowEvent::ModifiersChanged(mstate) => CEvent::ModifierStateChange(
            ModifierChangeEvent::new_spec(modifier_code(mstate)),
        ),
        WinitWindowEvent::CursorMoved(x, y) => CEvent::Mouse(
            MouseEvent::MouseMovement(MouseMovedEvent { x, y }),
        ),
        WinitWindowEvent::MouseWheel(delta, phase) => match delta {
            MouseScrollDelta::LineDelta(col, row) => CEvent::Mouse(
                MouseEvent::MouseWheelRoll(
                    MouseWheelRollEvent { phase: scroll_phase(phase), column: col, row },
                ),
            ),
            MouseScrollDelta::PixelDelta => CEvent::Ignored,
        },
        WinitWindowEvent::MouseInput(state, button) => CEvent::Mouse(
            MouseEvent::MouseButton(MouseButtonEvent { button: engine_button(button), action: state }),
        ),
        WinitWindowEvent::Other => CEvent::Unknown,
    }
}

/// Turns a window event of the windowing system into an event of the engine.
pub fn convert_window_event(wevent: WinitWindowEvent) -> (r: CEvent)
    ensures
        r == converted(wevent),
{
    let win_event = match wevent {
        WinitWindowEvent::CloseRequested => WindowEvent::Close,
        WinitWindowEvent::Resized(w, h) => WindowEvent::Resize(w, h),
        WinitWindowEvent::Occluded(has_been) => {
            if has_been {
                WindowEvent::FullHidden
            } else {
                WindowEvent::PartiallyHidden
            }
        },
        WinitWindowEvent::Moved(x, y) => WindowEvent::PositionChange(x, y),
        WinitWindowEvent::Destroyed => WindowEvent::Delete,
        WinitWindowEvent::DroppedFile(path) => WindowEvent::DropFile(path),
        WinitWindowEvent::HoveredFile(path) => WindowEvent::FileOver(path),
        WinitWindowEvent::HoveredFileCancelled => WindowEvent::FileEscaped,
        WinitWindowEvent::Focused(is_focused) => {
            if is_focused {
                WindowEvent::FocusGain
            } else {
                WindowEvent::FocusLost
            }
        },
        WinitWindowEvent::KeyboardInput(key, state) => {
            return keyboard_event_converter(key, state);
        },
        WinitWindowEvent::CursorLeft => {
            return CEvent::Mouse(MouseEvent::MouseEscape);
        },
        WinitWindowEvent::CursorEntered => {
            return CEvent::Mouse(MouseEvent::MouseEntered);
        },
        WinitWindowEvent::ReceivedCharacter(c) => {
            return CEvent::ReceivedChar(c);
        },
        WinitWindowEvent::Ime(ev) => {
            return match ev {
                Ime::Enabled => CEvent::TextInputModeEnabled,
                Ime::Disabled => CEvent::TextInputModeDisabled,
                Ime::Preedit(content, pos) => {
                    if !content.as_str().is_empty() {
                        CEvent::TextInput(TextInputEvent::new(content, pos))
                    } else {
                        CEvent::Ignored
                    }
                },
                Ime::Commit(ctn) => CEvent::TextInput(TextInputEvent::new(ctn, None)),
            };
        },
        WinitWindowEvent::ModifiersChanged(mstate) => {
            return modifier_event_converter(mstate);
        },
        WinitWindowEvent::CursorMoved(x, y) => {
            return CEvent::Mouse(MouseEvent::MouseMovement(MouseMovedEvent::new(x, y)));
        },
        WinitWindowEvent::MouseWheel(delta, phase) => {
            let p = match phase {
                TouchPhase::Started => PhaseWheelScroll::Started,
                TouchPhase::Moved => PhaseWheelScroll::Moved,
                TouchPhase::Ended => PhaseWheelScroll::Stopped,
                TouchPhase::Cancelled => PhaseWheelScroll::Canceled,
            };
            let (col, row) = match delta {
                MouseScrollDelta::LineDelta(col, row) => (col, row),
                MouseScrollDelta::PixelDelta => {
                    return CEvent::Ignored;
                },
            };
            return CEvent::Mouse(MouseEvent::MouseWheelRoll(MouseWheelRollEvent::new(p, col, row)));
        },
        WinitWindowEvent::MouseInput(state, button) => {
            let button = match button {
                WinitMouseButton::Right => MouseButton::Right,
                WinitMouseButton::Left => MouseButton::Left,
                WinitMouseButton::Middle => MouseButton::Wheel,
                WinitMouseButton::Other => MouseButton::Unknown,
            };
            return CEvent::Mouse(MouseEvent::MouseButton(MouseButtonEvent::new(button, state)));
        },
        WinitWindowEvent::Other => {
            return CEvent::Unknown;
        },
    };
    CEvent::Window(win_event)
}

/// The event of the engine for an event of the windowing system.
pub open spec fn engine_event(event: WEvent) -> CEvent {
    match event {
        WEvent::WindowEvent(wevent) => converted(wevent),
        WEvent::Suspended => CEvent::Suspended,
        WEvent::Resumed => CEvent::Resumed,
        WEvent::RedrawEventsCleared => CEvent::RedrawClear,
        WEvent::LoopDestroyed => CEvent::Ignored,
        WEvent::Other => CEvent::Unknown,
    }
}

// ------------------------------------------------------------------------------------------------
// Event queue
//
/// The number of events a queue holds where none is asked for.
pub const DEFAULT_QUEUE_SIZE: usize = 10000;

/// The events that came in, the oldest first. When the queue has reached the size
/// it was made for, the oldest events make room.
#[derive(Debug)]
pub struct EventQueue {
    queue: Vec<CEvent>,
    maxsize: usize,
}

/// The events of a queue of the given size after one more came in: where the
/// queue had reached its size, as many of the oldest events as half the size go.
pub open spec fn with_event(events: Seq<CEvent>, maxsize: usize, event: CEvent) -> Seq<CEvent> {
    if events.len() >= maxsize {
        events.skip((maxsize / 2) as int).push(event)
    } else {
        events.push(event)
    }
}

impl EventQueue {
    /// The events in the queue, the oldest first.
    pub closed spec fn events(self) -> Seq<CEvent> {
        self.queue@
    }

    /// The size the queue was made for.
    pub closed spec fn limit(self) -> usize {
        self.maxsize
    }

    /// An empty queue of the given size, or of the default size.
    pub fn init(maxsize: Option<usize>) -> (r: Self)
        ensures
            r.events() == Seq::<CEvent>::empty(),
            r.limit() == match maxsize {
                Some(max) => max,
                None => DEFAULT_QUEUE_SIZE,
            },
    {
        match maxsize {
            Some(max) => Self { queue: Vec::new(), maxsize: max },
            None => Self { queue: Vec::new(), maxsize: DEFAULT_QUEUE_SIZE },
        }
    }

    /// Adds an event at the end.
    pub fn add_event(&mut self, event: CEvent)
        ensures
            final(self).limit() == old(self).limit(),
            final(self).events() == with_event(old(self).events(), old(self).limit(), event),
            final(self).events().last() == event,
            old(self).limit() >= 2 && old(self).events().len() <= old(self).limit() ==> final(self).events().len() <= old(self).limit(),
    {
        if self.queue.len() >= self.maxsize {
            let half_capacity = self.maxsize / 2;
            let kept = self.queue.split_off(half_capacity);
            self.queue = kept;
            assert(self.queue@ =~= old(self).queue@.skip(half_capacity as int));
        }
        self.queue.push(event)
    }

    /// The newest event, or none where the queue is empty.
    pub fn get_last_event(&self) -> (r: Option<&CEvent>)
        ensures
            match r {
                Some(event) => self.events().len() > 0 && *event == self.events().last(),
                None => self.events().len() == 0,
            },
    {
        if self.queue.len() > 0 {
            Some(&self.queue[self.queue.len() - 1])
        } else {
            None
        }
    }

    /// The number of events in the queue.
    pub fn len(&self) -> (r: usize)
        ensures
            r == self.events().len(),
    {
        self.queue.len()
    }
}

// ------------------------------------------------------------------------------------------------
// Event System
//
/// The event system: the queue, the modifiers that are held, and whether the
/// application was asked to close.
#[derive(Debug)]
pub struct EventSystem {
    queue: EventQueue,
    modifier_state: ModifierStateKeeper,
    call_to_close_app: bool,
}

impl EventSystem {
    pub closed spec fn events(self) -> Seq<CEvent> {
        self.queue.events()
    }

    pub closed spec fn limit(self) -> usize {
        self.queue.limit()
    }

    pub closed spec fn close_requested(self) -> bool {
        self.call_to_close_app
    }

    pub closed spec fn modifiers(self) -> ModifierStateKeeper {
        self.modifier_state
    }

    /// An event system with an empty queue of the default size.
    pub fn new() -> (r: Self)
        ensures
            r.events() == Seq::<CEvent>::empty(),
            r.limit() == DEFAULT_QUEUE_SIZE,
            !r.close_requested(),
            r.modifiers().code() == NULL_MOD,
    {
        EventSystem {
            queue: EventQueue::init(None),
            modifier_state: ModifierStateKeeper::init(),
            call_to_close_app: false,
        }
    }

    /// Takes an event of the windowing system in: it is turned into an event of
    /// the engine and, unless it is to be ignored, added to the queue.
    pub fn run_return(&mut self, event: WEvent)
        ensures
            final(self).limit() == old(self).limit(),
            final(self).close_requested() == old(self).close_requested(),
            final(self).modifiers() == old(self).modifiers(),
            final(self).events() == if engine_event(event) is Ignored {
                old(self).events()
            } else {
                with_event(old(self).events(), old(self).limit(), engine_event(event))
            },
    {
        let e = match event {
            WEvent::WindowEvent(wevent) => convert_window_event(wevent),
            WEvent::Suspended => CEvent::Suspended,
            WEvent::Resumed => CEvent::Resumed,
            WEvent::RedrawEventsCleared => CEvent::RedrawClear,
            WEvent::LoopDestroyed => CEvent::Ignored,
            WEvent::Other => CEvent::Unknown,
        };
        match e {
            CEvent::Ignored => {},
            _ => self.queue.add_event(e),
        }
    }

    /// Looks at the newest event: a request to close the window is a request to
    /// close the application, and a change of the modifiers is taken note of.
    pub fn check_last_event(&mut self)
        ensures
            final(self).events() == old(self).events(),
            final(self).limit() == old(self).limit(),
            final(self).close_requested() == (old(self).close_requested() || (old(
                self,
            ).events().len() > 0 && old(self).events().last() == CEvent::Window(
                WindowEvent::Close,
            ))),
            final(self).modifiers().code() == if old(self).events().len() > 0 && old(
                self,
            ).events().last() is ModifierStateChange {
                old(self).events().last()->ModifierStateChange_0.value()
            } else {
                old(self).modifiers().code()
            },
    {
        let mut close = false;
        let mut change: Option<ModifierChangeEvent> = None;
        match self.queue.get_last_event() {
            Some(CEvent::Window(WindowEvent::Close)) => {
                close = true;
            },
            Some(CEvent::ModifierStateChange(event)) => {
                change = Some(*event);
            },
            _ => {},
        }
        if close {
            self.call_to_close_app = true;
        }
        match change {
            Some(event) => self.modifier_state.update(&event),
            None => {},
        }
    }

    /// The newest event, or none where nothing came in yet.
    pub fn get_last_event(&self) -> (r: Option<&CEvent>)
        ensures
            match r {
                Some(event) => self.events().len() > 0 && *event == self.events().last(),
                None => self.events().len() == 0,
            },
    {
        self.queue.get_last_event()
    }

    /// Tells whether the application was asked to close.
    pub fn should_close(&self) -> (r: bool)
        ensures
            r == self.close_requested(),
    {
        self.call_to_close_app
    }
}

} // verus!
