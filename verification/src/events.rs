//! Input events injected into a windowless webview, and their translation to
//! the flat records the engine's injection entry points take.

use vstd::prelude::*;

verus! {

/// A position in view coordinates.
#[derive(Debug, Clone, Copy, PartialEq, Eq, Structural)]
pub struct Position {
    pub x: i32,
    pub y: i32,
}

/// A mouse button.
#[derive(Debug, Clone, Copy, PartialEq, Eq, Structural)]
pub enum MouseButton {
    Left,
    Right,
    Middle,
}

/// The discriminant the engine's ABI uses for each mouse button.
pub open spec fn mouse_button_spec_code(b: MouseButton) -> u32 {
    match b {
        MouseButton::Left => 0,
        MouseButton::Middle => 1,
        MouseButton::Right => 2,
    }
}

impl MouseButton {
    /// The discriminant the engine's ABI uses for this button.
    pub fn native_code(self) -> (r: u32)
        ensures
            r == mouse_button_spec_code(self),
    {
        match self {
            MouseButton::Left => 0,
            MouseButton::Middle => 1,
            MouseButton::Right => 2,
        }
    }
}

/// A mouse event, as the host observes it from its windowing system.
#[derive(Debug, Clone, Copy, PartialEq, Eq, Structural)]
pub enum MouseEvent {
    /// The pointer moved to this position.
    Move(Position),
    /// The wheel turned by these deltas; the pointer position is the one last
    /// seen.
    Wheel(Position),
    /// A button went down (`true`) or up (`false`), optionally at a new
    /// position.
    Click(MouseButton, bool, Option<Position>),
}

// Modifier bits of the engine's event-flags field.
pub const EVENTFLAG_NONE: u32 = 0;

pub const EVENTFLAG_CAPS_LOCK_ON: u32 = 1;

pub const EVENTFLAG_SHIFT_DOWN: u32 = 2;

pub const EVENTFLAG_CONTROL_DOWN: u32 = 4;

pub const EVENTFLAG_ALT_DOWN: u32 = 8;

pub const EVENTFLAG_LEFT_MOUSE_BUTTON: u32 = 16;

pub const EVENTFLAG_MIDDLE_MOUSE_BUTTON: u32 = 32;

pub const EVENTFLAG_RIGHT_MOUSE_BUTTON: u32 = 64;

pub const EVENTFLAG_COMMAND_DOWN: u32 = 128;

/// The event-flags bit that marks a held mouse button.
pub open spec fn mouse_button_spec_flag(b: MouseButton) -> u32 {
    match b {
        MouseButton::Left => EVENTFLAG_LEFT_MOUSE_BUTTON,
        MouseButton::Middle => EVENTFLAG_MIDDLE_MOUSE_BUTTON,
        MouseButton::Right => EVENTFLAG_RIGHT_MOUSE_BUTTON,
    }
}

impl MouseButton {
    /// The event-flags bit that marks this button as held.
    pub fn native_flag(self) -> (r: u32)
        ensures
            r == mouse_button_spec_flag(self),
    {
        match self {
            MouseButton::Left => EVENTFLAG_LEFT_MOUSE_BUTTON,
            MouseButton::Middle => EVENTFLAG_MIDDLE_MOUSE_BUTTON,
            MouseButton::Right => EVENTFLAG_RIGHT_MOUSE_BUTTON,
        }
    }
}

/// Keyboard modifier keys held during a key event.
#[derive(Debug, Clone, Copy, PartialEq, Eq, Structural)]
pub struct KeyboardModifiers {
    pub shift: bool,
    pub ctrl: bool,
    pub alt: bool,
    /// The platform's logo key; shares the command bit.
    pub win: bool,
    pub command: bool,
    pub caps_lock: bool,
}

/// The engine's event-flags word for a set of keyboard modifiers. The logo
/// and command keys share one bit.
pub open spec fn keyboard_spec_flags(m: KeyboardModifiers) -> u32 {
    (if m.shift {
        EVENTFLAG_SHIFT_DOWN
    } else {
        0u32
    }) | (if m.ctrl {
        EVENTFLAG_CONTROL_DOWN
    } else {
        0u32
    }) | (if m.alt {
        EVENTFLAG_ALT_DOWN
    } else {
        0u32
    }) | (if m.win || m.command {
        EVENTFLAG_COMMAND_DOWN
    } else {
        0u32
    }) | (if m.caps_lock {
        EVENTFLAG_CAPS_LOCK_ON
    } else {
        0u32
    })
}

impl KeyboardModifiers {
    /// No modifier held.
    pub fn none() -> (r: Self)
        ensures
            r == (KeyboardModifiers {
                shift: false,
                ctrl: false,
                alt: false,
                win: false,
                command: false,
                caps_lock: false,
            }),
    {
        KeyboardModifiers {
            shift: false,
            ctrl: false,
            alt: false,
            win: false,
            command: false,
            caps_lock: false,
        }
    }

    /// The engine's event-flags word for these modifiers.
    pub fn native_flags(&self) -> (r: u32)
        ensures
            r == keyboard_spec_flags(*self),
    {
        (if self.shift {
            EVENTFLAG_SHIFT_DOWN
        } else {
            0u32
        }) | (if self.ctrl {
            EVENTFLAG_CONTROL_DOWN
        } else {
            0u32
        }) | (if self.alt {
            EVENTFLAG_ALT_DOWN
        } else {
            0u32
        }) | (if self.win || self.command {
            EVENTFLAG_COMMAND_DOWN
        } else {
            0u32
        }) | (if self.caps_lock {
            EVENTFLAG_CAPS_LOCK_ON
        } else {
            0u32
        })
    }
}

/// The kind of a key event.
#[derive(Debug, Clone, Copy, PartialEq, Eq, Structural)]
pub enum KeyboardEventType {
    KeyDown,
    KeyUp,
    Char,
}

/// The discriminant the engine's ABI uses for each key-event kind.
pub open spec fn key_event_type_spec_code(t: KeyboardEventType) -> u32 {
    match t {
        KeyboardEventType::KeyDown => 0,
        KeyboardEventType::KeyUp => 1,
        KeyboardEventType::Char => 2,
    }
}

impl KeyboardEventType {
    /// The discriminant the engine's ABI uses for this kind.
    pub fn native_code(self) -> (r: u32)
        ensures
            r == key_event_type_spec_code(self),
    {
        match self {
            KeyboardEventType::KeyDown => 0,
            KeyboardEventType::KeyUp => 1,
            KeyboardEventType::Char => 2,
        }
    }
}

/// A keyboard event, as the host observes it.
#[derive(Debug, Clone, Copy, PartialEq, Eq, Structural)]
pub struct KeyboardEvent {
    pub ty: KeyboardEventType,
    pub modifiers: KeyboardModifiers,
    /// The character generated by the key.
    pub character: u16,
    /// The character without modifiers applied.
    pub unmodified_character: u16,
    /// The Windows virtual key code.
    pub windows_key_code: i32,
    /// The platform's native key code.
    pub native_key_code: i32,
    /// Whether this is a system key event.
    pub is_system_key: bool,
    /// Whether an editable field has focus.
    pub focus_on_editable_field: bool,
}

/// The flat key-event record the engine's injection entry point takes:
/// booleans widen to integers, the kind and modifiers are encoded.
#[derive(Debug, Clone, Copy, PartialEq, Eq, Structural)]
pub struct KeyEventRecord {
    pub modifiers: u32,
    pub character: u16,
    pub unmodified_character: u16,
    pub windows_key_code: i32,
    pub native_key_code: i32,
    pub is_system_key: i32,
    pub focus_on_editable_field: i32,
    pub key_type: u32,
}

/// The record a keyboard event translates to.
pub open spec fn key_event_record_of(e: KeyboardEvent) -> KeyEventRecord {
    KeyEventRecord {
        modifiers: keyboard_spec_flags(e.modifiers),
        character: e.character,
        unmodified_character: e.unmodified_character,
        windows_key_code: e.windows_key_code,
        native_key_code: e.native_key_code,
        is_system_key: if e.is_system_key {
            1
        } else {
            0
        },
        focus_on_editable_field: if e.focus_on_editable_field {
            1
        } else {
            0
        },
        key_type: key_event_type_spec_code(e.ty),
    }
}

impl KeyboardEvent {
    /// Translate this event into the engine's key-event record.
    pub fn to_native(&self) -> (r: KeyEventRecord)
        ensures
            r == key_event_record_of(*self),
    {
        KeyEventRecord {
            modifiers: self.modifiers.native_flags(),
            character: self.character,
            unmodified_character: self.unmodified_character,
            windows_key_code: self.windows_key_code,
            native_key_code: self.native_key_code,
            is_system_key: if self.is_system_key {
                1
            } else {
                0
            },
            focus_on_editable_field: if self.focus_on_editable_field {
                1
            } else {
                0
            },
            key_type: self.ty.native_code(),
        }
    }
}

/// An input-method action injected into a windowless webview.
#[derive(Debug, Clone, Copy, PartialEq, Eq)]
pub enum IMEAction<'a> {
    /// Complete the composition with this text.
    Composition(&'a str),
    /// Begin or update a composition with this text at a caret position.
    Pre(&'a str, i32, i32),
}

} // verus!
