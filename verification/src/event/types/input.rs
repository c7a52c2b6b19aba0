//! Events of the keyboard, the mouse and text input.

use vstd::prelude::*;
use vstd::string::StringExecFns;
use crate::text::{append_decimal, decimal};

verus! {

/// Whether a key or a button went down or came up.
#[derive(Debug, Clone, Copy, PartialEq, Eq, Structural)]
pub enum StateAction {
    Press,
    Release,
}

impl StateAction {
    pub open spec fn name_of(self) -> Seq<char> {
        match self {
            StateAction::Press => "Press"@,
            StateAction::Release => "Release"@,
        }
    }

    /// The word for the action.
    pub fn name(&self) -> (r: &'static str)
        ensures
            r@ == self.name_of(),
    {
        match self {
            StateAction::Press => "Press",
            StateAction::Release => "Release",
        }
    }
}

// ------------------------------------------------------------------------------------------------
// Modifier
//
pub const NULL_MOD: u8 = 0;

pub const CONTROL: u8 = 1;

pub const SHIFT: u8 = 2;

pub const ALT: u8 = 3;

pub const SUPER: u8 = 4;

pub const CONTROL_ALT: u8 = 5;

pub const CONTROL_SHIFT: u8 = 6;

pub const SHIFT_ALT: u8 = 7;

pub const CONTROL_ALT_SHIFT: u8 = 8;

/// Keeps the modifier keys that are held at present, as one of the codes above.
#[derive(Debug, Clone, Copy, PartialEq, Eq, Structural)]
pub struct ModifierStateKeeper {
    current: u8,
}

impl ModifierStateKeeper {
    /// The code of the modifiers that are held.
    pub closed spec fn code(self) -> u8 {
        self.current
    }

    /// No modifier is held.
    pub fn init() -> (r: Self)
        ensures
            r.code() == NULL_MOD,
    {
        Self { current: NULL_MOD }
    }

    /// Takes note of a change of the modifiers.
    pub fn update(&mut self, event: &ModifierChangeEvent)
        ensures
            final(self).code() == event.value(),
    {
        self.current = event.change_value;
    }

    pub fn no_modifier(&self) -> (r: bool)
        ensures
            r == (self.code() == NULL_MOD),
    {
        self.current == NULL_MOD
    }

    pub fn ctrl(&self) -> (r: bool)
        ensures
            r == (self.code() == CONTROL),
    {
        self.current == CONTROL
    }

    pub fn superk(&self) -> (r: bool)
        ensures
            r == (self.code() == SUPER),
    {
        self.current == SUPER
    }

    pub fn shift(&self) -> (r: bool)
        ensures
            r == (self.code() == SHIFT),
    {
        self.current == SHIFT
    }

    pub fn alt(&self) -> (r: bool)
        ensures
            r == (self.code() == ALT),
    {
        self.current == ALT
    }

    pub fn ctrl_alt(&self) -> (r: bool)
        ensures
            r == (self.code() == CONTROL_ALT),
    {
        self.current == CONTROL_ALT
    }

    pub fn ctrl_shift(&self) -> (r: bool)
        ensures
            r == (self.code() == CONTROL_SHIFT),
    {
        self.current == CONTROL_SHIFT
    }

    pub fn shift_alt(&self) -> (r: bool)
        ensures
            r == (self.code() == SHIFT_ALT),
    {
        self.current == SHIFT_ALT
    }

    pub fn ctrl_alt_shift(&self) -> (r: bool)
        ensures
            r == (self.code() == CONTROL_ALT_SHIFT),
    {
        self.current == CONTROL_ALT_SHIFT
    }
}

/// A modifier key.
#[derive(Debug, Clone, Copy, PartialEq, Eq, Structural)]
pub enum ModifierKey {
    Shift,
    Ctrl,
    Alt,
    Super,
    Null,
}

/// The modifiers that are held changed to the given code.
#[derive(Debug, Clone, Copy, PartialEq, Eq, Structural)]
pub struct ModifierChangeEvent {
    change_value: u8,
}

/// The words for a code of modifiers.
pub open spec fn modifier_name(code: u8) -> Seq<char> {
    if code == NULL_MOD {
        "No Mod enable"@
    } else if code == CONTROL {
        "Control"@
    } else if code == SHIFT {
        "Shift"@
    } else if code == ALT {
        "Alt"@
    } else if code == SUPER {
        "Super"@
    } else if code == CONTROL_ALT {
        "Control Alt"@
    } else if code == CONTROL_SHIFT {
        "Control Shift"@
    } else if code == SHIFT_ALT {
        "Shift Alt"@
    } else if code == CONTROL_ALT_SHIFT {
        "Control Alt Shift"@
    } else {
        "Unknown"@
    }
}

impl ModifierChangeEvent {
    /// The code of the modifiers that are held after the change.
    pub closed spec fn value(self) -> u8 {
        self.change_value
    }

    /// The event of a change to the given code.
    pub closed spec fn new_spec(change_value: u8) -> Self {
        ModifierChangeEvent { change_value }
    }

    /// An event holds the code it was made with, and two events with the same
    /// code are the same event.
    pub proof fn lemma_value_determines(self, change_value: u8)
        ensures
            Self::new_spec(change_value).value() == change_value,
            self.value() == change_value <==> self == Self::new_spec(change_value),
    {
    }

    pub fn new(change_value: u8) -> (r: Self)
        ensures
            r == Self::new_spec(change_value),
            r.value() == change_value,
    {
        Self { change_value }
    }

    pub fn get_value(&self) -> (r: u8)
        ensures
            r == self.value(),
    {
        self.change_value
    }

    /// The words for the modifiers that are held after the change.
    pub fn name(&self) -> (r: &'static str)
        ensures
            r@ == modifier_name(self.value()),
    {
        if self.change_value == NULL_MOD {
            "No Mod enable"
        } else if self.change_value == CONTROL {
            "Control"
        } else if self.change_value == SHIFT {
            "Shift"
        } else if self.change_value == ALT {
            "Alt"
        } else if self.change_value == SUPER {
            "Super"
        } else if self.change_value == CONTROL_ALT {
            "Control Alt"
        } else if self.change_value == CONTROL_SHIFT {
            "Control Shift"
        } else if self.change_value == SHIFT_ALT {
            "Shift Alt"
        } else if self.change_value == CONTROL_ALT_SHIFT {
            "Control Alt Shift"
        } else {
            "Unknown"
        }
    }
}

// ------------------------------------------------------------------------------------------------
// Mouse Event
//
/// An event of the mouse.
#[derive(Debug, Clone, Copy, PartialEq, Eq, Structural)]
pub enum MouseEvent {
    MouseButton(MouseButtonEvent),
    MouseMovement(MouseMovedEvent),
    MouseEscape,
    MouseEntered,
    MouseWheelRoll(MouseWheelRollEvent),
}

/// A button of the mouse.
#[derive(Debug, Clone, Copy, PartialEq, Eq, Structural)]
pub enum MouseButton {
    Left,
    Right,
    Wheel,
    Unknown,
}

impl MouseButton {
    pub open spec fn name_of(self) -> Seq<char> {
        match self {
            MouseButton::Left => "Left"@,
            MouseButton::Right => "Right"@,
            MouseButton::Wheel => "Wheel"@,
            MouseButton::Unknown => "Unknown"@,
        }
    }

    /// The word for the button.
    pub fn name(&self) -> (r: &'static str)
        ensures
            r@ == self.name_of(),
    {
        match self {
            MouseButton::Left => "Left",
            MouseButton::Right => "Right",
            MouseButton::Wheel => "Wheel",
            MouseButton::Unknown => "Unknown",
        }
    }
}

/// A button of the mouse went down or came up.
#[derive(Debug, Clone, Copy, PartialEq, Eq, Structural)]
pub struct MouseButtonEvent {
    pub button: MouseButton,
    pub action: StateAction,
}

impl MouseButtonEvent {
    pub fn new(button: MouseButton, action: StateAction) -> (r: Self)
        ensures
            r.button == button,
            r.action == action,
    {
        Self { button, action }
    }

    /// The event in words.
    pub open spec fn text(self) -> Seq<char> {
        "Button: "@ + self.button.name_of() + " Action: "@ + self.action.name_of()
    }

    /// Words the event.
    pub fn describe(&self) -> (r: String)
        ensures
            r@ == self.text(),
    {
        let mut r = String::from_str("Button: ");
        r.append(self.button.name());
        r.append(" Action: ");
        r.append(self.action.name());
        r
    }
}

impl MouseEvent {
    /// The event in words, where it holds nothing that the engine only carries
    /// as bits: a movement and a roll of the wheel are worded by who can read them.
    pub open spec fn text(self) -> Option<Seq<char>> {
        match self {
            MouseEvent::MouseButton(event) => Some(event.text()),
            MouseEvent::MouseMovement(_) => None,
            MouseEvent::MouseEscape => Some("Escaped the window surface"@),
            MouseEvent::MouseEntered => Some("Entered the window surface"@),
            MouseEvent::MouseWheelRoll(_) => None,
        }
    }

    /// Words the event, where it can be worded here.
    pub fn describe(&self) -> (r: Option<String>)
        ensures
            match r {
                Some(text) => self.text() == Some(text@),
                None => self.text() is None,
            },
    {
        match self {
            MouseEvent::MouseButton(event) => Some(event.describe()),
            MouseEvent::MouseMovement(_) => None,
            MouseEvent::MouseEscape => Some(String::from_str("Escaped the window surface")),
            MouseEvent::MouseEntered => Some(String::from_str("Entered the window surface")),
            MouseEvent::MouseWheelRoll(_) => None,
        }
    }
}

/// The phase of a scroll of the wheel.
#[derive(Debug, Clone, Copy, PartialEq, Eq, Structural)]
pub enum PhaseWheelScroll {
    Started,
    Moved,
    Stopped,
    Canceled,
}

impl PhaseWheelScroll {
    pub open spec fn name_of(self) -> Seq<char> {
        match self {
            PhaseWheelScroll::Started => "Started"@,
            PhaseWheelScroll::Moved => "Moved"@,
            PhaseWheelScroll::Stopped => "Stopped"@,
            PhaseWheelScroll::Canceled => "Canceled"@,
        }
    }

    /// The word for the phase.
    pub fn name(&self) -> (r: &'static str)
        ensures
            r@ == self.name_of(),
    {
        match self {
            PhaseWheelScroll::Started => "Started",
            PhaseWheelScroll::Moved => "Moved",
            PhaseWheelScroll::Stopped => "Stopped",
            PhaseWheelScroll::Canceled => "Canceled",
        }
    }
}

/// The wheel was rolled by so many columns and rows. Each amount is held as the
/// bits of its single-precision value.
#[derive(Debug, Clone, Copy, PartialEq, Eq, Structural)]
pub struct MouseWheelRollEvent {
    pub phase: PhaseWheelScroll,
    pub column: u32,
    pub row: u32,
}

impl MouseWheelRollEvent {
    pub fn new(phase: PhaseWheelScroll, column: u32, row: u32) -> (r: Self)
        ensures
            r.phase == phase,
            r.column == column,
            r.row == row,
    {
        Self { phase, column, row }
    }
}

/// The mouse moved to a position. Each coordinate is held as the bits of its
/// double-precision value.
#[derive(Debug, Clone, Copy, PartialEq, Eq, Structural)]
pub struct MouseMovedEvent {
    pub x: u64,
    pub y: u64,
}

impl MouseMovedEvent {
    pub fn new(x: u64, y: u64) -> (r: Self)
        ensures
            r.x == x,
            r.y == y,
    {
        Self { x, y }
    }
}

// ------------------------------------------------------------------------------------------------
// Text Input
//
/// Text was put in, at a position where one is known.
#[derive(Debug)]
pub struct TextInputEvent {
    pub content: String,
    pub position: Option<(usize, usize)>,
}

impl TextInputEvent {
    pub fn new(content: String, position: Option<(usize, usize)>) -> (r: Self)
        ensures
            r.content == content,
            r.position == position,
    {
        Self { content, position }
    }

    /// The event in words.
    pub open spec fn text(self) -> Seq<char> {
        match self.position {
            Some(pos) => " Text Input at column: "@ + decimal(pos.0 as nat) + " row: "@ + decimal(
                pos.1 as nat,
            ) + " content: "@ + self.content@,
            None => "Text Input at unknown position content: "@ + self.content@,
        }
    }

    /// Words the event.
    pub fn describe(&self) -> (r: String)
        ensures
            r@ == self.text(),
    {
        match self.position {
            Some(pos) => {
                let mut r = String::from_str(" Text Input at column: ");
                append_decimal(&mut r, pos.0 as u64);
                r.append(" row: ");
                append_decimal(&mut r, pos.1 as u64);
                r.append(" content: ");
                r.append(self.content.as_str());
                r
            },
            None => {
                let mut r = String::from_str("Text Input at unknown position content: ");
                r.append(self.content.as_str());
                r
            },
        }
    }
}

// ------------------------------------------------------------------------------------------------
// Keyboard
//
/// A key went down or came up.
#[derive(Debug, Clone, Copy, PartialEq, Eq, Structural)]
pub struct KeyboardEvent {
    pub key: Key,
    pub action: StateAction,
}

impl KeyboardEvent {
    pub fn new(key: Key, action: StateAction) -> (r: Self)
        ensures
            r.key == key,
            r.action == action,
    {
        Self { key, action }
    }

    /// The event in words.
    pub open spec fn text(self) -> Seq<char> {
        "Keyboard: Key: "@ + self.key.name_of() + " Action: "@ + self.action.name_of()
    }

    /// Words the event.
    pub fn describe(&self) -> (r: String)
        ensures
            r@ == self.text(),
    {
        let mut r = String::from_str("Keyboard: Key: ");
        r.append(self.key.name());
        r.append(" Action: ");
        r.append(self.action.name());
        r
    }
}

/// A key of the keyboard.
#[derive(Debug, Clone, Copy, PartialEq, Eq, Structural)]
pub enum Key {
    CapsLock,
    Space,
    Tab,
    Enter,
    Return,
    Escape,
    BackSpace,
    ScrollLock,
    Delete,
    Insert,
    Home,
    End,
    PgUp,
    PgDn,
    Up,
    Down,
    Left,
    Right,
    NpLock,
    NpDiv,
    NpMult,
    NpAdd,
    NpSub,
    NpEnter,
    Np0,
    Np1,
    Np2,
    Np3,
    Np4,
    Np5,
    Np6,
    Np7,
    Np8,
    Np9,
    NpDot,
    NpInsert,
    NpEnd,
    NpDown,
    NpPgUp,
    NpPgDn,
    NpLeft,
    NpRight,
    NpHome,
    NpUp,
    NpDelete,
    F1,
    F2,
    F3,
    F4,
    F5,
    F6,
    F7,
    F8,
    F9,
    F10,
    F11,
    F12,
    LSuper,
    RSuper,
    LCtrl,
    RCtrl,
    LShift,
    RShift,
    LAlt,
    RAlt,
    BrwsBack,
    BrwsForward,
    BrwsRefresh,
    BrwsStop,
    BrwsSearch,
    BrwsFavorite,
    BrwsHome,
    VlmMute,
    VlmDown,
    VlmUp,
    MediaNext,
    MediaPrev,
    MediaStop,
    MediaPlay,
    LaunchMail,
    LaunchMedia,
    LaunchApp1,
    LaunchApp2,
    AppsKey,
    PrintScreen,
    CtrlBreak,
    Pause,
    Break,
    Help,
    Sleep,
    Menu,
    Scroll,
    Capital,
    N0,
    N1,
    N2,
    N3,
    N4,
    N5,
    N6,
    N7,
    N8,
    N9,
    A,
    B,
    C,
    D,
    E,
    F,
    G,
    H,
    I,
    J,
    K,
    L,
    M,
    N,
    O,
    P,
    Q,
    R,
    S,
    T,
    U,
    V,
    W,
    X,
    Y,
    Z,
    Accent,
    Tilde,
    Exclamation,
    At,
    Hash,
    DollarSign,
    Percent,
    And,
    Astrix,
    OpenParentheses,
    CloseParentheses,
    Underscore,
    Minus,
    Plus,
    Equal,
    OpenBrace,
    CloseBrace,
    OpenBracket,
    CloseBracket,
    VerticalPipe,
    Backslash,
    Colon,
    Semicolon,
    QuotationMarks,
    Apostrophe,
    Comma,
    Less,
    Greater,
    Period,
    Slash,
    QuestionMark,
    Grave,
    Unknown,
}

impl Key {
    /// The name a key is shown under.
    pub open spec fn name_of(self) -> Seq<char> {
        match self {
            Key::CapsLock => "CapsLock"@,
            Key::Space => "Space"@,
            Key::Tab => "Tab"@,
            Key::Enter => "Enter"@,
            Key::Return => "Return"@,
            Key::Escape => "Escape"@,
            Key::BackSpace => "BackSpace"@,
            Key::ScrollLock => "Scroll Lock"@,
            Key::Delete => "Delete"@,
            Key::Insert => "Insert"@,
            Key::Home => "Home"@,
            Key::End => "End"@,
            Key::PgUp => "Page Up"@,
            Key::PgDn => "Page Down"@,
            Key::Up => "Up"@,
            Key::Down => "Down"@,
            Key::Left => "Left"@,
            Key::Right => "Right"@,
            Key::NpLock => "NumPad Lock"@,
            Key::NpDiv => "NumPad Divide"@,
            Key::NpMult => "NumPad Multiple"@,
            Key::NpAdd => "NumPad Add"@,
            Key::NpSub => "NumPad Subtract"@,
            Key::NpEnter => "NumPad Enter"@,
            Key::Np0 => "NumPad 0"@,
            Key::Np1 => "NumPad 1"@,
            Key::Np2 => "NumPad 2"@,
            Key::Np3 => "NumPad 3"@,
            Key::Np4 => "NumPad 4"@,
            Key::Np5 => "NumPad 5"@,
            Key::Np6 => "NumPad 6"@,
            Key::Np7 => "NumPad 7"@,
            Key::Np8 => "NumPad 8"@,
            Key::Np9 => "NumPad 9"@,
            Key::NpDot => "NumPad Dot"@,
            Key::NpInsert => "NumPad Insert"@,
            Key::NpEnd => "NumPad End"@,
            Key::NpDown => "NumPad Down"@,
            Key::NpPgUp => "NumPad Page Up"@,
            Key::NpPgDn => "NumPad Page Down"@,
            Key::NpLeft => "NumPad Left"@,
            Key::NpRight => "NumPad Right"@,
            Key::NpHome => "NumPad Home"@,
            Key::NpUp => "NumPad Up"@,
            Key::NpDelete => "NumPad Delete"@,
            Key::F1 => "F1"@,
            Key::F2 => "F2"@,
            Key::F3 => "F3"@,
            Key::F4 => "F4"@,
            Key::F5 => "F5"@,
            Key::F6 => "F6"@,
            Key::F7 => "F7"@,
            Key::F8 => "F8"@,
            Key::F9 => "F9"@,
            Key::F10 => "F10"@,
            Key::F11 => "F11"@,
            Key::F12 => "F12"@,
            Key::LSuper => "Left Super"@,
            Key::RSuper => "Right Super"@,
            Key::LCtrl => "Left Control"@,
            Key::RCtrl => "Right Control"@,
            Key::LShift => "Left Shift"@,
            Key::RShift => "Right Shift"@,
            Key::LAlt => "Left Alt"@,
            Key::RAlt => "Right Alt"@,
            Key::BrwsBack => "Browse Back"@,
            Key::BrwsForward => "Browse Fow"@,
            Key::BrwsRefresh => "Browse Refresh"@,
            Key::BrwsStop => "Browse Stop"@,
            Key::BrwsSearch => "Browse Search"@,
            Key::BrwsFavorite => "Browse Favorite"@,
            Key::BrwsHome => "Browse Home"@,
            Key::VlmMute => "Volume Mute"@,
            Key::VlmDown => "Volume Down"@,
            Key::VlmUp => "Volume Up"@,
            Key::MediaNext => "Media Next"@,
            Key::MediaPrev => "Media Previous"@,
            Key::MediaStop => "Media Stop"@,
            Key::MediaPlay => "Media Play"@,
            Key::LaunchMail => "Launch Mail"@,
            Key::LaunchMedia => "Launch Media"@,
            Key::LaunchApp1 => "Launch App 1"@,
            Key::LaunchApp2 => "Launch App 2"@,
            Key::AppsKey => "App Key"@,
            Key::PrintScreen => "Print Screen"@,
            Key::CtrlBreak => "Control Break"@,
            Key::Pause => "Pause"@,
            Key::Break => "Break"@,
            Key::Help => "Help"@,
            Key::Sleep => "Sleep"@,
            Key::Menu => "Menu"@,
            Key::Scroll => "Scroll"@,
            Key::Capital => "Capital"@,
            Key::N0 => "0"@,
            Key::N1 => "1"@,
            Key::N2 => "2"@,
            Key::N3 => "3"@,
            Key::N4 => "4"@,
            Key::N5 => "5"@,
            Key::N6 => "6"@,
            Key::N7 => "7"@,
            Key::N8 => "8"@,
            Key::N9 => "9"@,
            Key::A => "A"@,
            Key::B => "B"@,
            Key::C => "C"@,
            Key::D => "D"@,
            Key::E => "E"@,
            Key::F => "F"@,
            Key::G => "G"@,
            Key::H => "H"@,
            Key::I => "I"@,
            Key::J => "J"@,
            Key::K => "K"@,
            Key::L => "L"@,
            Key::M => "M"@,
            Key::N => "N"@,
            Key::O => "O"@,
            Key::P => "P"@,
            Key::Q => "Q"@,
            Key::R => "R"@,
            Key::S => "S"@,
            Key::T => "T"@,
            Key::U => "U"@,
            Key::V => "V"@,
            Key::W => "W"@,
            Key::X => "X"@,
            Key::Y => "Y"@,
            Key::Z => "Z"@,
            Key::Accent => "Accent"@,
            Key::Tilde => "~"@,
            Key::Exclamation => "!"@,
            Key::At => "@"@,
            Key::Hash => "#"@,
            Key::DollarSign => "$"@,
            Key::Percent => "%"@,
            Key::And => "&"@,
            Key::Astrix => "*"@,
            Key::OpenParentheses => "("@,
            Key::CloseParentheses => ")"@,
            Key::Underscore => "_"@,
            Key::Minus => "-"@,
            Key::Plus => "+"@,
            Key::Equal => "="@,
            Key::OpenBrace => "{"@,
            Key::CloseBrace => "}"@,
            Key::OpenBracket => "["@,
            Key::CloseBracket => "]"@,
            Key::VerticalPipe => "|"@,
            Key::Backslash => "/"@,
            Key::Colon => ":"@,
            Key::Semicolon => ";"@,
            Key::QuotationMarks => "'"@,
            Key::Apostrophe => "Apostrophe"@,
            Key::Comma => ","@,
            Key::Less => "<"@,
            Key::Greater => ">"@,
            Key::Period => "."@,
            Key::Slash => "Slash"@,
            Key::QuestionMark => "?"@,
            Key::Grave => "'"@,
            Key::Unknown => "Unknown"@,
        }
    }

    /// The name the key is shown under.
    pub fn name(&self) -> (r: &'static str)
        ensures
            r@ == self.name_of(),
    {
        match self {
            Key::CapsLock => "CapsLock",
            Key::Space => "Space",
            Key::Tab => "Tab",
            Key::Enter => "Enter",
            Key::Return => "Return",
            Key::Escape => "Escape",
            Key::BackSpace => "BackSpace",
            Key::ScrollLock => "Scroll Lock",
            Key::Delete => "Delete",
            Key::Insert => "Insert",
            Key::Home => "Home",
            Key::End => "End",
            Key::PgUp => "Page Up",
            Key::PgDn => "Page Down",
            Key::Up => "Up",
            Key::Down => "Down",
            Key::Left => "Left",
            Key::Right => "Right",
            Key::NpLock => "NumPad Lock",
            Key::NpDiv => "NumPad Divide",
            Key::NpMult => "NumPad Multiple",
            Key::NpAdd => "NumPad Add",
            Key::NpSub => "NumPad Subtract",
            Key::NpEnter => "NumPad Enter",
            Key::Np0 => "NumPad 0",
            Key::Np1 => "NumPad 1",
            Key::Np2 => "NumPad 2",
            Key::Np3 => "NumPad 3",
            Key::Np4 => "NumPad 4",
            Key::Np5 => "NumPad 5",
            Key::Np6 => "NumPad 6",
            Key::Np7 => "NumPad 7",
            Key::Np8 => "NumPad 8",
            Key::Np9 => "NumPad 9",
            Key::NpDot => "NumPad Dot",
            Key::NpInsert => "NumPad Insert",
            Key::NpEnd => "NumPad End",
            Key::NpDown => "NumPad Down",
            Key::NpPgUp => "NumPad Page Up",
            Key::NpPgDn => "NumPad Page Down",
            Key::NpLeft => "NumPad Left",
            Key::NpRight => "NumPad Right",
            Key::NpHome => "NumPad Home",
            Key::NpUp => "NumPad Up",
            Key::NpDelete => "NumPad Delete",
            Key::F1 => "F1",
            Key::F2 => "F2",
            Key::F3 => "F3",
            Key::F4 => "F4",
            Key::F5 => "F5",
            Key::F6 => "F6",
            Key::F7 => "F7",
            Key::F8 => "F8",
            Key::F9 => "F9",
            Key::F10 => "F10",
            Key::F11 => "F11",
            Key::F12 => "F12",
            Key::LSuper => "Left Super",
            Key::RSuper => "Right Super",
            Key::LCtrl => "Left Control",
            Key::RCtrl => "Right Control",
            Key::LShift => "Left Shift",
            Key::RShift => "Right Shift",
            Key::LAlt => "Left Alt",
            Key::RAlt => "Right Alt",
            Key::BrwsBack => "Browse Back",
            Key::BrwsForward => "Browse Fow",
            Key::BrwsRefresh => "Browse Refresh",
            Key::BrwsStop => "Browse Stop",
            Key::BrwsSearch => "Browse Search",
            Key::BrwsFavorite => "Browse Favorite",
            Key::BrwsHome => "Browse Home",
            Key::VlmMute => "Volume Mute",
            Key::VlmDown => "Volume Down",
            Key::VlmUp => "Volume Up",
            Key::MediaNext => "Media Next",
            Key::MediaPrev => "Media Previous",
            Key::MediaStop => "Media Stop",
            Key::MediaPlay => "Media Play",
            Key::LaunchMail => "Launch Mail",
            Key::LaunchMedia => "Launch Media",
            Key::LaunchApp1 => "Launch App 1",
            Key::LaunchApp2 => "Launch App 2",
            Key::AppsKey => "App Key",
            Key::PrintScreen => "Print Screen",
            Key::CtrlBreak => "Control Break",
            Key::Pause => "Pause",
            Key::Break => "Break",
            Key::Help => "Help",
            Key::Sleep => "Sleep",
            Key::Menu => "Menu",
            Key::Scroll => "Scroll",
            Key::Capital => "Capital",
            Key::N0 => "0",
            Key::N1 => "1",
            Key::N2 => "2",
            Key::N3 => "3",
            Key::N4 => "4",
            Key::N5 => "5",
            Key::N6 => "6",
            Key::N7 => "7",
            Key::N8 => "8",
            Key::N9 => "9",
            Key::A => "A",
            Key::B => "B",
            Key::C => "C",
            Key::D => "D",
            Key::E => "E",
            Key::F => "F",
            Key::G => "G",
            Key::H => "H",
            Key::I => "I",
            Key::J => "J",
            Key::K => "K",
            Key::L => "L",
            Key::M => "M",
            Key::N => "N",
            Key::O => "O",
            Key::P => "P",
            Key::Q => "Q",
            Key::R => "R",
            Key::S => "S",
            Key::T => "T",
            Key::U => "U",
            Key::V => "V",
            Key::W => "W",
            Key::X => "X",
            Key::Y => "Y",
            Key::Z => "Z",
            Key::Accent => "Accent",
            Key::Tilde => "~",
            Key::Exclamation => "!",
            Key::At => "@",
            Key::Hash => "#",
            Key::DollarSign => "$",
            Key::Percent => "%",
            Key::And => "&",
            Key::Astrix => "*",
            Key::OpenParentheses => "(",
            Key::CloseParentheses => ")",
            Key::Underscore => "_",
            Key::Minus => "-",
            Key::Plus => "+",
            Key::Equal => "=",
            Key::OpenBrace => "{",
            Key::CloseBrace => "}",
            Key::OpenBracket => "[",
            Key::CloseBracket => "]",
            Key::VerticalPipe => "|",
            Key::Backslash => "/",
            Key::Colon => ":",
            Key::Semicolon => ";",
            Key::QuotationMarks => "'",
            Key::Apostrophe => "Apostrophe",
            Key::Comma => ",",
            Key::Less => "<",
            Key::Greater => ">",
            Key::Period => ".",
            Key::Slash => "Slash",
            Key::QuestionMark => "?",
            Key::Grave => "'",
            Key::Unknown => "Unknown",
        }
    }
}

} // verus!
