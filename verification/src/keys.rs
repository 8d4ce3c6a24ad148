use vstd::prelude::*;

verus! {

/// A key on the keyboard, by the symbol that the platform gives it; the
/// variants are those of `winit`'s `VirtualKeyCode`, in its order.
#[derive(Clone, Copy, Debug, PartialEq, Eq, Structural, Hash)]
pub enum KeyCode {
    Key1,
    Key2,
    Key3,
    Key4,
    Key5,
    Key6,
    Key7,
    Key8,
    Key9,
    Key0,
    A,
    B,
    C,
    D,
    E,
    F,
    G,
    H,
    I,
    J,
    K,
    L,
    M,
    N,
    O,
    P,
    Q,
    R,
    S,
    T,
    U,
    V,
    W,
    X,
    Y,
    Z,
    Escape,
    F1,
    F2,
    F3,
    F4,
    F5,
    F6,
    F7,
    F8,
    F9,
    F10,
    F11,
    F12,
    F13,
    F14,
    F15,
    F16,
    F17,
    F18,
    F19,
    F20,
    F21,
    F22,
    F23,
    F24,
    Snapshot,
    Scroll,
    Pause,
    Insert,
    Home,
    Delete,
    End,
    PageDown,
    PageUp,
    Left,
    Up,
    Right,
    Down,
    Back,
    Return,
    Space,
    Compose,
    Caret,
    Numlock,
    Numpad0,
    Numpad1,
    Numpad2,
    Numpad3,
    Numpad4,
    Numpad5,
    Numpad6,
    Numpad7,
    Numpad8,
    Numpad9,
    NumpadAdd,
    NumpadDivide,
    NumpadDecimal,
    NumpadComma,
    NumpadEnter,
    NumpadEquals,
    NumpadMultiply,
    NumpadSubtract,
    AbntC1,
    AbntC2,
    Apostrophe,
    Apps,
    Asterisk,
    At,
    Ax,
    Backslash,
    Calculator,
    Capital,
    Colon,
    Comma,
    Convert,
    Equals,
    Grave,
    Kana,
    Kanji,
    LAlt,
    LBracket,
    LControl,
    LShift,
    LWin,
    Mail,
    MediaSelect,
    MediaStop,
    Minus,
    Mute,
    MyComputer,
    NavigateForward,
    NavigateBackward,
    NextTrack,
    NoConvert,
    OEM102,
    Period,
    PlayPause,
    Plus,
    Power,
    PrevTrack,
    RAlt,
    RBracket,
    RControl,
    RShift,
    RWin,
    Semicolon,
    Slash,
    Sleep,
    Stop,
    Sysrq,
    Tab,
    Underline,
    Unlabeled,
    VolumeDown,
    VolumeUp,
    Wake,
    WebBack,
    WebFavorites,
    WebForward,
    WebHome,
    WebRefresh,
    WebSearch,
    WebStop,
    Yen,
    Copy,
    Paste,
    Cut,
}

/// A key that egui reacts to; the variants are those of `egui::Key`.
#[derive(Clone, Copy, Debug, PartialEq, Eq, Structural, Hash)]
pub enum Key {
    ArrowDown,
    ArrowLeft,
    ArrowRight,
    ArrowUp,
    Escape,
    Tab,
    Backspace,
    Enter,
    Space,
    Insert,
    Delete,
    Home,
    End,
    PageUp,
    PageDown,
    Minus,
    PlusEquals,
    Num0,
    Num1,
    Num2,
    Num3,
    Num4,
    Num5,
    Num6,
    Num7,
    Num8,
    Num9,
    A,
    B,
    C,
    D,
    E,
    F,
    G,
    H,
    I,
    J,
    K,
    L,
    M,
    N,
    O,
    P,
    Q,
    R,
    S,
    T,
    U,
    V,
    W,
    X,
    Y,
    Z,
    F1,
    F2,
    F3,
    F4,
    F5,
    F6,
    F7,
    F8,
    F9,
    F10,
    F11,
    F12,
    F13,
    F14,
    F15,
    F16,
    F17,
    F18,
    F19,
    F20,
}

/// The egui key that a platform key stands for, if egui has one: the arrows,
/// editing and navigation keys, the digits of the main row and of the numeric
/// pad, the letters and the function keys up to F20.
pub open spec fn egui_key_of(code: KeyCode) -> Option<Key> {
    match code {
        KeyCode::Down => Some(Key::ArrowDown),
        KeyCode::Left => Some(Key::ArrowLeft),
        KeyCode::Right => Some(Key::ArrowRight),
        KeyCode::Up => Some(Key::ArrowUp),
        KeyCode::Escape => Some(Key::Escape),
        KeyCode::Tab => Some(Key::Tab),
        KeyCode::Back => Some(Key::Backspace),
        KeyCode::Return => Some(Key::Enter),
        KeyCode::Space => Some(Key::Space),
        KeyCode::Insert => Some(Key::Insert),
        KeyCode::Delete => Some(Key::Delete),
        KeyCode::Home => Some(Key::Home),
        KeyCode::End => Some(Key::End),
        KeyCode::PageUp => Some(Key::PageUp),
        KeyCode::PageDown => Some(Key::PageDown),
        KeyCode::Key0 | KeyCode::Numpad0 => Some(Key::Num0),
        KeyCode::Key1 | KeyCode::Numpad1 => Some(Key::Num1),
        KeyCode::Key2 | KeyCode::Numpad2 => Some(Key::Num2),
        KeyCode::Key3 | KeyCode::Numpad3 => Some(Key::Num3),
        KeyCode::Key4 | KeyCode::Numpad4 => Some(Key::Num4),
        KeyCode::Key5 | KeyCode::Numpad5 => Some(Key::Num5),
        KeyCode::Key6 | KeyCode::Numpad6 => Some(Key::Num6),
        KeyCode::Key7 | KeyCode::Numpad7 => Some(Key::Num7),
        KeyCode::Key8 | KeyCode::Numpad8 => Some(Key::Num8),
        KeyCode::Key9 | KeyCode::Numpad9 => Some(Key::Num9),
        KeyCode::A => Some(Key::A),
        KeyCode::B => Some(Key::B),
        KeyCode::C => Some(Key::C),
        KeyCode::D => Some(Key::D),
        KeyCode::E => Some(Key::E),
        KeyCode::F => Some(Key::F),
        KeyCode::G => Some(Key::G),
        KeyCode::H => Some(Key::H),
        KeyCode::I => Some(Key::I),
        KeyCode::J => Some(Key::J),
        KeyCode::K => Some(Key::K),
        KeyCode::L => Some(Key::L),
        KeyCode::M => Some(Key::M),
        KeyCode::N => Some(Key::N),
        KeyCode::O => Some(Key::O),
        KeyCode::P => Some(Key::P),
        KeyCode::Q => Some(Key::Q),
        KeyCode::R => Some(Key::R),
        KeyCode::S => Some(Key::S),
        KeyCode::T => Some(Key::T),
        KeyCode::U => Some(Key::U),
        KeyCode::V => Some(Key::V),
        KeyCode::W => Some(Key::W),
        KeyCode::X => Some(Key::X),
        KeyCode::Y => Some(Key::Y),
        KeyCode::Z => Some(Key::Z),
        KeyCode::F1 => Some(Key::F1),
        KeyCode::F2 => Some(Key::F2),
        KeyCode::F3 => Some(Key::F3),
        KeyCode::F4 => Some(Key::F4),
        KeyCode::F5 => Some(Key::F5),
        KeyCode::F6 => Some(Key::F6),
        KeyCode::F7 => Some(Key::F7),
        KeyCode::F8 => Some(Key::F8),
        KeyCode::F9 => Some(Key::F9),
        KeyCode::F10 => Some(Key::F10),
        KeyCode::F11 => Some(Key::F11),
        KeyCode::F12 => Some(Key::F12),
        KeyCode::F13 => Some(Key::F13),
        KeyCode::F14 => Some(Key::F14),
        KeyCode::F15 => Some(Key::F15),
        KeyCode::F16 => Some(Key::F16),
        KeyCode::F17 => Some(Key::F17),
        KeyCode::F18 => Some(Key::F18),
        KeyCode::F19 => Some(Key::F19),
        KeyCode::F20 => Some(Key::F20),
        _ => None,
    }
}

/// Translates a platform key into the egui key it stands for, or `None`
/// where egui has no such key.
pub fn winit_key_to_egui(key_code: KeyCode) -> (key: Option<Key>)
    ensures
        key == egui_key_of(key_code),
{
    let key = match key_code {
        KeyCode::Down => Key::ArrowDown,
        KeyCode::Left => Key::ArrowLeft,
        KeyCode::Right => Key::ArrowRight,
        KeyCode::Up => Key::ArrowUp,
        KeyCode::Escape => Key::Escape,
        KeyCode::Tab => Key::Tab,
        KeyCode::Back => Key::Backspace,
        KeyCode::Return => Key::Enter,
        KeyCode::Space => Key::Space,
        KeyCode::Insert => Key::Insert,
        KeyCode::Delete => Key::Delete,
        KeyCode::Home => Key::Home,
        KeyCode::End => Key::End,
        KeyCode::PageUp => Key::PageUp,
        KeyCode::PageDown => Key::PageDown,
        KeyCode::Key0 | KeyCode::Numpad0 => Key::Num0,
        KeyCode::Key1 | KeyCode::Numpad1 => Key::Num1,
        KeyCode::Key2 | KeyCode::Numpad2 => Key::Num2,
        KeyCode::Key3 | KeyCode::Numpad3 => Key::Num3,
        KeyCode::Key4 | KeyCode::Numpad4 => Key::Num4,
        KeyCode::Key5 | KeyCode::Numpad5 => Key::Num5,
        KeyCode::Key6 | KeyCode::Numpad6 => Key::Num6,
        KeyCode::Key7 | KeyCode::Numpad7 => Key::Num7,
        KeyCode::Key8 | KeyCode::Numpad8 => Key::Num8,
        KeyCode::Key9 | KeyCode::Numpad9 => Key::Num9,
        KeyCode::A => Key::A,
        KeyCode::B => Key::B,
        KeyCode::C => Key::C,
        KeyCode::D => Key::D,
        KeyCode::E => Key::E,
        KeyCode::F => Key::F,
        KeyCode::G => Key::G,
        KeyCode::H => Key::H,
        KeyCode::I => Key::I,
        KeyCode::J => Key::J,
        KeyCode::K => Key::K,
        KeyCode::L => Key::L,
        KeyCode::M => Key::M,
        KeyCode::N => Key::N,
        KeyCode::O => Key::O,
        KeyCode::P => Key::P,
        KeyCode::Q => Key::Q,
        KeyCode::R => Key::R,
        KeyCode::S => Key::S,
        KeyCode::T => Key::T,
        KeyCode::U => Key::U,
        KeyCode::V => Key::V,
        KeyCode::W => Key::W,
        KeyCode::X => Key::X,
        KeyCode::Y => Key::Y,
        KeyCode::Z => Key::Z,
        KeyCode::F1 => Key::F1,
        KeyCode::F2 => Key::F2,
        KeyCode::F3 => Key::F3,
        KeyCode::F4 => Key::F4,
        KeyCode::F5 => Key::F5,
        KeyCode::F6 => Key::F6,
        KeyCode::F7 => Key::F7,
        KeyCode::F8 => Key::F8,
        KeyCode::F9 => Key::F9,
        KeyCode::F10 => Key::F10,
        KeyCode::F11 => Key::F11,
        KeyCode::F12 => Key::F12,
        KeyCode::F13 => Key::F13,
        KeyCode::F14 => Key::F14,
        KeyCode::F15 => Key::F15,
        KeyCode::F16 => Key::F16,
        KeyCode::F17 => Key::F17,
        KeyCode::F18 => Key::F18,
        KeyCode::F19 => Key::F19,
        KeyCode::F20 => Key::F20,
        _ => return None,
    };
    Some(key)
}

/// The key that stands for the same egui key on the main row: a digit of the
/// numeric pad becomes the digit of the main row, every other key is itself.
pub open spec fn main_row_key(code: KeyCode) -> KeyCode {
    match code {
        KeyCode::Numpad0 => KeyCode::Key0,
        KeyCode::Numpad1 => KeyCode::Key1,
        KeyCode::Numpad2 => KeyCode::Key2,
        KeyCode::Numpad3 => KeyCode::Key3,
        KeyCode::Numpad4 => KeyCode::Key4,
        KeyCode::Numpad5 => KeyCode::Key5,
        KeyCode::Numpad6 => KeyCode::Key6,
        KeyCode::Numpad7 => KeyCode::Key7,
        KeyCode::Numpad8 => KeyCode::Key8,
        KeyCode::Numpad9 => KeyCode::Key9,
        _ => code,
    }
}

/// The platform key on the main row that an egui key comes from, if one does.
pub open spec fn main_row_key_of(key: Key) -> Option<KeyCode> {
    match key {
        Key::ArrowDown => Some(KeyCode::Down),
        Key::ArrowLeft => Some(KeyCode::Left),
        Key::ArrowRight => Some(KeyCode::Right),
        Key::ArrowUp => Some(KeyCode::Up),
        Key::Escape => Some(KeyCode::Escape),
        Key::Tab => Some(KeyCode::Tab),
        Key::Backspace => Some(KeyCode::Back),
        Key::Enter => Some(KeyCode::Return),
        Key::Space => Some(KeyCode::Space),
        Key::Insert => Some(KeyCode::Insert),
        Key::Delete => Some(KeyCode::Delete),
        Key::Home => Some(KeyCode::Home),
        Key::End => Some(KeyCode::End),
        Key::PageUp => Some(KeyCode::PageUp),
        Key::PageDown => Some(KeyCode::PageDown),
        Key::Num0 => Some(KeyCode::Key0),
        Key::Num1 => Some(KeyCode::Key1),
        Key::Num2 => Some(KeyCode::Key2),
        Key::Num3 => Some(KeyCode::Key3),
        Key::Num4 => Some(KeyCode::Key4),
        Key::Num5 => Some(KeyCode::Key5),
        Key::Num6 => Some(KeyCode::Key6),
        Key::Num7 => Some(KeyCode::Key7),
        Key::Num8 => Some(KeyCode::Key8),
        Key::Num9 => Some(KeyCode::Key9),
        Key::A => Some(KeyCode::A),
        Key::B => Some(KeyCode::B),
        Key::C => Some(KeyCode::C),
        Key::D => Some(KeyCode::D),
        Key::E => Some(KeyCode::E),
        Key::F => Some(KeyCode::F),
        Key::G => Some(KeyCode::G),
        Key::H => Some(KeyCode::H),
        Key::I => Some(KeyCode::I),
        Key::J => Some(KeyCode::J),
        Key::K => Some(KeyCode::K),
        Key::L => Some(KeyCode::L),
        Key::M => Some(KeyCode::M),
        Key::N => Some(KeyCode::N),
        Key::O => Some(KeyCode::O),
        Key::P => Some(KeyCode::P),
        Key::Q => Some(KeyCode::Q),
        Key::R => Some(KeyCode::R),
        Key::S => Some(KeyCode::S),
        Key::T => Some(KeyCode::T),
        Key::U => Some(KeyCode::U),
        Key::V => Some(KeyCode::V),
        Key::W => Some(KeyCode::W),
        Key::X => Some(KeyCode::X),
        Key::Y => Some(KeyCode::Y),
        Key::Z => Some(KeyCode::Z),
        Key::F1 => Some(KeyCode::F1),
        Key::F2 => Some(KeyCode::F2),
        Key::F3 => Some(KeyCode::F3),
        Key::F4 => Some(KeyCode::F4),
        Key::F5 => Some(KeyCode::F5),
        Key::F6 => Some(KeyCode::F6),
        Key::F7 => Some(KeyCode::F7),
        Key::F8 => Some(KeyCode::F8),
        Key::F9 => Some(KeyCode::F9),
        Key::F10 => Some(KeyCode::F10),
        Key::F11 => Some(KeyCode::F11),
        Key::F12 => Some(KeyCode::F12),
        Key::F13 => Some(KeyCode::F13),
        Key::F14 => Some(KeyCode::F14),
        Key::F15 => Some(KeyCode::F15),
        Key::F16 => Some(KeyCode::F16),
        Key::F17 => Some(KeyCode::F17),
        Key::F18 => Some(KeyCode::F18),
        Key::F19 => Some(KeyCode::F19),
        Key::F20 => Some(KeyCode::F20),
        _ => None,
    }
}

/// A digit of the numeric pad and the same digit on the main row give the
/// same egui key.
pub proof fn lemma_numpad_digits_as_main_row(code: KeyCode)
    ensures
        egui_key_of(code) == egui_key_of(main_row_key(code)),
{
}

/// Two platform keys give the same egui key only when they are the same key
/// up to the numeric pad: the translation loses nothing else.
pub proof fn lemma_translation_injective_up_to_numpad(a: KeyCode, b: KeyCode)
    requires
        egui_key_of(a) is Some,
        egui_key_of(a) == egui_key_of(b),
    ensures
        main_row_key(a) == main_row_key(b),
{
    lemma_key_comes_from_main_row(a);
    lemma_key_comes_from_main_row(b);
}

/// Every egui key that a platform key gives leads back to that key's main-row form.
pub proof fn lemma_key_comes_from_main_row(code: KeyCode)
    ensures
        egui_key_of(code) matches Some(key) ==> main_row_key_of(key) == Some(main_row_key(code)),
{
}

/// Every egui key but `Minus` and `PlusEquals` is given by some platform key.
pub proof fn lemma_every_key_but_minus_and_plus_is_reached(key: Key)
    ensures
        key != Key::Minus && key != Key::PlusEquals ==> (main_row_key_of(key) matches Some(code)
            && egui_key_of(code) == Some(key)),
{
}

} // verus!
