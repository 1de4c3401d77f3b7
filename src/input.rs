//! Input and display values shared with the engine, with the integer codes
//! the engine assigns to them.

use vstd::prelude::*;

verus! {

/// A keyboard key, as the engine numbers it.
#[allow(non_camel_case_types)]
#[derive(Clone, Copy, Debug, PartialEq, Eq, Structural)]
pub enum KeyCode {
    KEY_INVALID,
    KEY_SPACE,
    KEY_APOSTROPHE,
    KEY_COMMA,
    KEY_MINUS,
    KEY_PERIOD,
    KEY_SLASH,
    KEY_0,
    KEY_1,
    KEY_2,
    KEY_3,
    KEY_4,
    KEY_5,
    KEY_6,
    KEY_7,
    KEY_8,
    KEY_9,
    KEY_SEMICOLON,
    KEY_EQUALS,
    KEY_A,
    KEY_B,
    KEY_C,
    KEY_D,
    KEY_E,
    KEY_F,
    KEY_G,
    KEY_H,
    KEY_I,
    KEY_J,
    KEY_K,
    KEY_L,
    KEY_M,
    KEY_N,
    KEY_O,
    KEY_P,
    KEY_Q,
    KEY_R,
    KEY_S,
    KEY_T,
    KEY_U,
    KEY_V,
    KEY_W,
    KEY_X,
    KEY_Y,
    KEY_Z,
    KEY_LEFT_BRACKET,
    KEY_BACKSLASH,
    KEY_RIGHT_BRACKET,
    KEY_BACKTICK,
    KEY_ESCAPE,
    KEY_ENTER,
    KEY_TAB,
    KEY_BACKSPACE,
    KEY_INSERT,
    KEY_DELETE,
    KEY_RIGHT_ARROW,
    KEY_LEFT_ARROW,
    KEY_DOWN_ARROW,
    KEY_UP_ARROW,
    KEY_PAGE_UP,
    KEY_PAGE_DOWN,
    KEY_HOME,
    KEY_END,
    KEY_CAPS_LOCK,
    KEY_SCROLL_LOCK,
    KEY_NUM_LOCK,
    KEY_PRINT_SCREEN,
    KEY_PAUSE,
    KEY_F1,
    KEY_F2,
    KEY_F3,
    KEY_F4,
    KEY_F5,
    KEY_F6,
    KEY_F7,
    KEY_F8,
    KEY_F9,
    KEY_F10,
    KEY_F11,
    KEY_F12,
    KEY_F13,
    KEY_F14,
    KEY_F15,
    KEY_F16,
    KEY_F17,
    KEY_F18,
    KEY_F19,
    KEY_F20,
    KEY_F21,
    KEY_F22,
    KEY_F23,
    KEY_F24,
    KEY_F25,
    KEY_0_NUMPAD,
    KEY_1_NUMPAD,
    KEY_2_NUMPAD,
    KEY_3_NUMPAD,
    KEY_4_NUMPAD,
    KEY_5_NUMPAD,
    KEY_6_NUMPAD,
    KEY_7_NUMPAD,
    KEY_8_NUMPAD,
    KEY_9_NUMPAD,
    KEY_DECIMAL_NUMPAD,
    KEY_DIVIDE_NUMPAD,
    KEY_MULTIPLY_NUMPAD,
    KEY_MINUS_NUMPAD,
    KEY_PLUS_NUMPAD,
    KEY_ENTER_NUMPAD,
    KEY_EQUALS_NUMPAD,
    KEY_LEFT_SHIFT,
    KEY_LEFT_CONTROL,
    KEY_LEFT_ALT,
    KEY_LEFT_SUPER,
    KEY_RIGHT_SHIFT,
    KEY_RIGHT_CONTROL,
    KEY_RIGHT_ALT,
    KEY_RIGHT_SUPER,
    KEY_CONTEXT_MENU,
}

/// The value the engine uses for each key_code.
pub open spec fn key_code_value(k: KeyCode) -> i32 {
    match k {
        KeyCode::KEY_INVALID => 0,
        KeyCode::KEY_SPACE => 32,
        KeyCode::KEY_APOSTROPHE => 39,
        KeyCode::KEY_COMMA => 44,
        KeyCode::KEY_MINUS => 45,
        KeyCode::KEY_PERIOD => 46,
        KeyCode::KEY_SLASH => 47,
        KeyCode::KEY_0 => 48,
        KeyCode::KEY_1 => 49,
        KeyCode::KEY_2 => 50,
        KeyCode::KEY_3 => 51,
        KeyCode::KEY_4 => 52,
        KeyCode::KEY_5 => 53,
        KeyCode::KEY_6 => 54,
        KeyCode::KEY_7 => 55,
        KeyCode::KEY_8 => 56,
        KeyCode::KEY_9 => 57,
        KeyCode::KEY_SEMICOLON => 59,
        KeyCode::KEY_EQUALS => 61,
        KeyCode::KEY_A => 65,
        KeyCode::KEY_B => 66,
        KeyCode::KEY_C => 67,
        KeyCode::KEY_D => 68,
        KeyCode::KEY_E => 69,
        KeyCode::KEY_F => 70,
        KeyCode::KEY_G => 71,
        KeyCode::KEY_H => 72,
        KeyCode::KEY_I => 73,
        KeyCode::KEY_J => 74,
        KeyCode::KEY_K => 75,
        KeyCode::KEY_L => 76,
        KeyCode::KEY_M => 77,
        KeyCode::KEY_N => 78,
        KeyCode::KEY_O => 79,
        KeyCode::KEY_P => 80,
        KeyCode::KEY_Q => 81,
        KeyCode::KEY_R => 82,
        KeyCode::KEY_S => 83,
        KeyCode::KEY_T => 84,
        KeyCode::KEY_U => 85,
        KeyCode::KEY_V => 86,
        KeyCode::KEY_W => 87,
        KeyCode::KEY_X => 88,
        KeyCode::KEY_Y => 89,
        KeyCode::KEY_Z => 90,
        KeyCode::KEY_LEFT_BRACKET => 91,
        KeyCode::KEY_BACKSLASH => 92,
        KeyCode::KEY_RIGHT_BRACKET => 93,
        KeyCode::KEY_BACKTICK => 96,
        KeyCode::KEY_ESCAPE => 256,
        KeyCode::KEY_ENTER => 257,
        KeyCode::KEY_TAB => 258,
        KeyCode::KEY_BACKSPACE => 259,
        KeyCode::KEY_INSERT => 260,
        KeyCode::KEY_DELETE => 261,
        KeyCode::KEY_RIGHT_ARROW => 262,
        KeyCode::KEY_LEFT_ARROW => 263,
        KeyCode::KEY_DOWN_ARROW => 264,
        KeyCode::KEY_UP_ARROW => 265,
        KeyCode::KEY_PAGE_UP => 266,
        KeyCode::KEY_PAGE_DOWN => 267,
        KeyCode::KEY_HOME => 268,
        KeyCode::KEY_END => 269,
        KeyCode::KEY_CAPS_LOCK => 280,
        KeyCode::KEY_SCROLL_LOCK => 281,
        KeyCode::KEY_NUM_LOCK => 282,
        KeyCode::KEY_PRINT_SCREEN => 283,
        KeyCode::KEY_PAUSE => 284,
        KeyCode::KEY_F1 => 290,
        KeyCode::KEY_F2 => 291,
        KeyCode::KEY_F3 => 292,
        KeyCode::KEY_F4 => 293,
        KeyCode::KEY_F5 => 294,
        KeyCode::KEY_F6 => 295,
        KeyCode::KEY_F7 => 296,
        KeyCode::KEY_F8 => 297,
        KeyCode::KEY_F9 => 298,
        KeyCode::KEY_F10 => 299,
        KeyCode::KEY_F11 => 300,
        KeyCode::KEY_F12 => 301,
        KeyCode::KEY_F13 => 302,
        KeyCode::KEY_F14 => 303,
        KeyCode::KEY_F15 => 304,
        KeyCode::KEY_F16 => 305,
        KeyCode::KEY_F17 => 306,
        KeyCode::KEY_F18 => 307,
        KeyCode::KEY_F19 => 308,
        KeyCode::KEY_F20 => 309,
        KeyCode::KEY_F21 => 310,
        KeyCode::KEY_F22 => 311,
        KeyCode::KEY_F23 => 312,
        KeyCode::KEY_F24 => 313,
        KeyCode::KEY_F25 => 314,
        KeyCode::KEY_0_NUMPAD => 320,
        KeyCode::KEY_1_NUMPAD => 321,
        KeyCode::KEY_2_NUMPAD => 322,
        KeyCode::KEY_3_NUMPAD => 323,
        KeyCode::KEY_4_NUMPAD => 324,
        KeyCode::KEY_5_NUMPAD => 325,
        KeyCode::KEY_6_NUMPAD => 326,
        KeyCode::KEY_7_NUMPAD => 327,
        KeyCode::KEY_8_NUMPAD => 328,
        KeyCode::KEY_9_NUMPAD => 329,
        KeyCode::KEY_DECIMAL_NUMPAD => 330,
        KeyCode::KEY_DIVIDE_NUMPAD => 331,
        KeyCode::KEY_MULTIPLY_NUMPAD => 332,
        KeyCode::KEY_MINUS_NUMPAD => 333,
        KeyCode::KEY_PLUS_NUMPAD => 334,
        KeyCode::KEY_ENTER_NUMPAD => 335,
        KeyCode::KEY_EQUALS_NUMPAD => 336,
        KeyCode::KEY_LEFT_SHIFT => 340,
        KeyCode::KEY_LEFT_CONTROL => 341,
        KeyCode::KEY_LEFT_ALT => 342,
        KeyCode::KEY_LEFT_SUPER => 343,
        KeyCode::KEY_RIGHT_SHIFT => 344,
        KeyCode::KEY_RIGHT_CONTROL => 345,
        KeyCode::KEY_RIGHT_ALT => 346,
        KeyCode::KEY_RIGHT_SUPER => 347,
        KeyCode::KEY_CONTEXT_MENU => 348,
    }
}

impl KeyCode {
    /// The value the engine uses for this key_code.
    pub fn code(&self) -> (r: i32)
        ensures
            r == key_code_value(*self),
    {
        match self {
            KeyCode::KEY_INVALID => 0,
            KeyCode::KEY_SPACE => 32,
            KeyCode::KEY_APOSTROPHE => 39,
            KeyCode::KEY_COMMA => 44,
            KeyCode::KEY_MINUS => 45,
            KeyCode::KEY_PERIOD => 46,
            KeyCode::KEY_SLASH => 47,
            KeyCode::KEY_0 => 48,
            KeyCode::KEY_1 => 49,
            KeyCode::KEY_2 => 50,
            KeyCode::KEY_3 => 51,
            KeyCode::KEY_4 => 52,
            KeyCode::KEY_5 => 53,
            KeyCode::KEY_6 => 54,
            KeyCode::KEY_7 => 55,
            KeyCode::KEY_8 => 56,
            KeyCode::KEY_9 => 57,
            KeyCode::KEY_SEMICOLON => 59,
            KeyCode::KEY_EQUALS => 61,
            KeyCode::KEY_A => 65,
            KeyCode::KEY_B => 66,
            KeyCode::KEY_C => 67,
            KeyCode::KEY_D => 68,
            KeyCode::KEY_E => 69,
            KeyCode::KEY_F => 70,
            KeyCode::KEY_G => 71,
            KeyCode::KEY_H => 72,
            KeyCode::KEY_I => 73,
            KeyCode::KEY_J => 74,
            KeyCode::KEY_K => 75,
            KeyCode::KEY_L => 76,
            KeyCode::KEY_M => 77,
            KeyCode::KEY_N => 78,
            KeyCode::KEY_O => 79,
            KeyCode::KEY_P => 80,
            KeyCode::KEY_Q => 81,
            KeyCode::KEY_R => 82,
            KeyCode::KEY_S => 83,
            KeyCode::KEY_T => 84,
            KeyCode::KEY_U => 85,
            KeyCode::KEY_V => 86,
            KeyCode::KEY_W => 87,
            KeyCode::KEY_X => 88,
            KeyCode::KEY_Y => 89,
            KeyCode::KEY_Z => 90,
            KeyCode::KEY_LEFT_BRACKET => 91,
            KeyCode::KEY_BACKSLASH => 92,
            KeyCode::KEY_RIGHT_BRACKET => 93,
            KeyCode::KEY_BACKTICK => 96,
            KeyCode::KEY_ESCAPE => 256,
            KeyCode::KEY_ENTER => 257,
            KeyCode::KEY_TAB => 258,
            KeyCode::KEY_BACKSPACE => 259,
            KeyCode::KEY_INSERT => 260,
            KeyCode::KEY_DELETE => 261,
            KeyCode::KEY_RIGHT_ARROW => 262,
            KeyCode::KEY_LEFT_ARROW => 263,
            KeyCode::KEY_DOWN_ARROW => 264,
            KeyCode::KEY_UP_ARROW => 265,
            KeyCode::KEY_PAGE_UP => 266,
            KeyCode::KEY_PAGE_DOWN => 267,
            KeyCode::KEY_HOME => 268,
            KeyCode::KEY_END => 269,
            KeyCode::KEY_CAPS_LOCK => 280,
            KeyCode::KEY_SCROLL_LOCK => 281,
            KeyCode::KEY_NUM_LOCK => 282,
            KeyCode::KEY_PRINT_SCREEN => 283,
            KeyCode::KEY_PAUSE => 284,
            KeyCode::KEY_F1 => 290,
            KeyCode::KEY_F2 => 291,
            KeyCode::KEY_F3 => 292,
            KeyCode::KEY_F4 => 293,
            KeyCode::KEY_F5 => 294,
            KeyCode::KEY_F6 => 295,
            KeyCode::KEY_F7 => 296,
            KeyCode::KEY_F8 => 297,
            KeyCode::KEY_F9 => 298,
            KeyCode::KEY_F10 => 299,
            KeyCode::KEY_F11 => 300,
            KeyCode::KEY_F12 => 301,
            KeyCode::KEY_F13 => 302,
            KeyCode::KEY_F14 => 303,
            KeyCode::KEY_F15 => 304,
            KeyCode::KEY_F16 => 305,
            KeyCode::KEY_F17 => 306,
            KeyCode::KEY_F18 => 307,
            KeyCode::KEY_F19 => 308,
            KeyCode::KEY_F20 => 309,
            KeyCode::KEY_F21 => 310,
            KeyCode::KEY_F22 => 311,
            KeyCode::KEY_F23 => 312,
            KeyCode::KEY_F24 => 313,
            KeyCode::KEY_F25 => 314,
            KeyCode::KEY_0_NUMPAD => 320,
            KeyCode::KEY_1_NUMPAD => 321,
            KeyCode::KEY_2_NUMPAD => 322,
            KeyCode::KEY_3_NUMPAD => 323,
            KeyCode::KEY_4_NUMPAD => 324,
            KeyCode::KEY_5_NUMPAD => 325,
            KeyCode::KEY_6_NUMPAD => 326,
            KeyCode::KEY_7_NUMPAD => 327,
            KeyCode::KEY_8_NUMPAD => 328,
            KeyCode::KEY_9_NUMPAD => 329,
            KeyCode::KEY_DECIMAL_NUMPAD => 330,
            KeyCode::KEY_DIVIDE_NUMPAD => 331,
            KeyCode::KEY_MULTIPLY_NUMPAD => 332,
            KeyCode::KEY_MINUS_NUMPAD => 333,
            KeyCode::KEY_PLUS_NUMPAD => 334,
            KeyCode::KEY_ENTER_NUMPAD => 335,
            KeyCode::KEY_EQUALS_NUMPAD => 336,
            KeyCode::KEY_LEFT_SHIFT => 340,
            KeyCode::KEY_LEFT_CONTROL => 341,
            KeyCode::KEY_LEFT_ALT => 342,
            KeyCode::KEY_LEFT_SUPER => 343,
            KeyCode::KEY_RIGHT_SHIFT => 344,
            KeyCode::KEY_RIGHT_CONTROL => 345,
            KeyCode::KEY_RIGHT_ALT => 346,
            KeyCode::KEY_RIGHT_SUPER => 347,
            KeyCode::KEY_CONTEXT_MENU => 348,
        }
    }
}

/// What happened to a key or button.
#[allow(non_camel_case_types)]
#[derive(Clone, Copy, Debug, PartialEq, Eq, Structural)]
pub enum InputAction {
    RELEASE,
    PRESS,
    REPEAT,
}

/// The value the engine uses for each input_action.
pub open spec fn input_action_value(k: InputAction) -> i32 {
    match k {
        InputAction::RELEASE => 0,
        InputAction::PRESS => 1,
        InputAction::REPEAT => 2,
    }
}

impl InputAction {
    /// The value the engine uses for this input_action.
    pub fn code(&self) -> (r: i32)
        ensures
            r == input_action_value(*self),
    {
        match self {
            InputAction::RELEASE => 0,
            InputAction::PRESS => 1,
            InputAction::REPEAT => 2,
        }
    }
}

/// A mouse button, as the engine numbers it.
#[allow(non_camel_case_types)]
#[derive(Clone, Copy, Debug, PartialEq, Eq, Structural)]
pub enum MouseButton {
    BUTTON_LEFT,
    BUTTON_RIGHT,
    BUTTON_MIDDLE,
    BUTTON_4,
    BUTTON_5,
    BUTTON_6,
    BUTTON_7,
    BUTTON_8,
}

/// The value the engine uses for each mouse_button.
pub open spec fn mouse_button_value(k: MouseButton) -> i32 {
    match k {
        MouseButton::BUTTON_LEFT => 0,
        MouseButton::BUTTON_RIGHT => 1,
        MouseButton::BUTTON_MIDDLE => 2,
        MouseButton::BUTTON_4 => 3,
        MouseButton::BUTTON_5 => 4,
        MouseButton::BUTTON_6 => 5,
        MouseButton::BUTTON_7 => 6,
        MouseButton::BUTTON_8 => 7,
    }
}

impl MouseButton {
    /// The value the engine uses for this mouse_button.
    pub fn code(&self) -> (r: i32)
        ensures
            r == mouse_button_value(*self),
    {
        match self {
            MouseButton::BUTTON_LEFT => 0,
            MouseButton::BUTTON_RIGHT => 1,
            MouseButton::BUTTON_MIDDLE => 2,
            MouseButton::BUTTON_4 => 3,
            MouseButton::BUTTON_5 => 4,
            MouseButton::BUTTON_6 => 5,
            MouseButton::BUTTON_7 => 6,
            MouseButton::BUTTON_8 => 7,
        }
    }
}

/// Whether the cursor is captured by the window.
#[derive(Clone, Copy, Debug, PartialEq, Eq, Structural)]
pub enum InputMode {
    CursorDisabled,
    CursorNormal,
}

/// One video mode of a monitor.
#[derive(Clone, Copy, Debug, PartialEq, Eq, Structural)]
pub struct MonitorMode {
    pub width: u32,
    pub height: u32,
    pub bit_depth: u16,
    pub refresh_rate_millihertz: u32,
}

} // verus!
