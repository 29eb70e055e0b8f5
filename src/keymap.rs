//! Browser key codes and the keys they stand for.
use crate::text::str_eq;
use vstd::prelude::*;

verus! {

/// A key of the host keyboard, independent of the platform.
#[derive(Debug, Clone, Copy, PartialEq, Eq, Hash, Structural)]
pub enum KeyCode {
    Esc,
    F1,
    F2,
    F3,
    F4,
    F5,
    F6,
    F7,
    F8,
    F9,
    F10,
    F11,
    F12,
    F13,
    F14,
    F15,
    F23,
    Grave,
    Num1,
    Num2,
    Num3,
    Num4,
    Num5,
    Num6,
    Num7,
    Num8,
    Num9,
    Num0,
    Minus,
    Equal,
    Backspace,
    Tab,
    Q,
    W,
    E,
    R,
    T,
    Y,
    U,
    I,
    O,
    P,
    LeftBrace,
    RightBrace,
    Enter,
    CapsLock,
    A,
    S,
    D,
    F,
    G,
    H,
    J,
    K,
    L,
    Semicolon,
    Apostrophe,
    Backslash,
    LeftShift,
    IntlBackslash,
    Z,
    X,
    C,
    V,
    B,
    N,
    M,
    Comma,
    Dot,
    Slash,
    RightShift,
    LeftCtrl,
    LeftMeta,
    LeftAlt,
    Space,
    RightAlt,
    RightMeta,
    Compose,
    RightCtrl,
    SysRq,
    ScrollLock,
    Pause,
    Insert,
    Home,
    PageUp,
    Delete,
    End,
    PageDown,
    Up,
    Left,
    Down,
    Right,
    NumLock,
    KpSlash,
    KpAsterisk,
    KpMinus,
    KpPlus,
    KpEnter,
    KpDot,
    KpComma,
    KpEqual,
    Kp0,
    Kp1,
    Kp2,
    Kp3,
    Kp4,
    Kp5,
    Kp6,
    Kp7,
    Kp8,
    Kp9,
    Ro,
    Katakana,
    Hiragana,
    KatakanaHiragana,
    ZenkakuHankaku,
    Henkan,
    Muhenkan,
    Yen,
    Hanguel,
    Hanja,
    Mute,
    VolumeDown,
    VolumeUp,
    NextSong,
    PreviousSong,
    StopCD,
    PlayPause,
    Mail,
    Media,
    Calc,
    Search,
    Homepage,
    Back,
    Forward,
    Stop,
    Refresh,
    Bookmarks,
    Power,
    Sleep,
    WakeUp,
    BrightnessDown,
    BrightnessUp,
    Help,
}

/// The key that a browser `KeyboardEvent.code` names, if it is supported.
pub open spec fn key_for_code(code: Seq<char>) -> Option<KeyCode> {
    if code == "Escape"@ {
        Some(KeyCode::Esc)
    } else if code == "F1"@ {
        Some(KeyCode::F1)
    } else if code == "F2"@ {
        Some(KeyCode::F2)
    } else if code == "F3"@ {
        Some(KeyCode::F3)
    } else if code == "F4"@ {
        Some(KeyCode::F4)
    } else if code == "F5"@ {
        Some(KeyCode::F5)
    } else if code == "F6"@ {
        Some(KeyCode::F6)
    } else if code == "F7"@ {
        Some(KeyCode::F7)
    } else if code == "F8"@ {
        Some(KeyCode::F8)
    } else if code == "F9"@ {
        Some(KeyCode::F9)
    } else if code == "F10"@ {
        Some(KeyCode::F10)
    } else if code == "F11"@ {
        Some(KeyCode::F11)
    } else if code == "F12"@ {
        Some(KeyCode::F12)
    } else if code == "F13"@ {
        Some(KeyCode::F13)
    } else if code == "F14"@ {
        Some(KeyCode::F14)
    } else if code == "F15"@ {
        Some(KeyCode::F15)
    } else if code == "F23"@ {
        Some(KeyCode::F23)
    } else if code == "Backquote"@ {
        Some(KeyCode::Grave)
    } else if code == "Digit1"@ {
        Some(KeyCode::Num1)
    } else if code == "Digit2"@ {
        Some(KeyCode::Num2)
    } else if code == "Digit3"@ {
        Some(KeyCode::Num3)
    } else if code == "Digit4"@ {
        Some(KeyCode::Num4)
    } else if code == "Digit5"@ {
        Some(KeyCode::Num5)
    } else if code == "Digit6"@ {
        Some(KeyCode::Num6)
    } else if code == "Digit7"@ {
        Some(KeyCode::Num7)
    } else if code == "Digit8"@ {
        Some(KeyCode::Num8)
    } else if code == "Digit9"@ {
        Some(KeyCode::Num9)
    } else if code == "Digit0"@ {
        Some(KeyCode::Num0)
    } else if code == "Minus"@ {
        Some(KeyCode::Minus)
    } else if code == "Equal"@ {
        Some(KeyCode::Equal)
    } else if code == "Backspace"@ {
        Some(KeyCode::Backspace)
    } else if code == "Tab"@ {
        Some(KeyCode::Tab)
    } else if code == "KeyQ"@ {
        Some(KeyCode::Q)
    } else if code == "KeyW"@ {
        Some(KeyCode::W)
    } else if code == "KeyE"@ {
        Some(KeyCode::E)
    } else if code == "KeyR"@ {
        Some(KeyCode::R)
    } else if code == "KeyT"@ {
        Some(KeyCode::T)
    } else if code == "KeyY"@ {
        Some(KeyCode::Y)
    } else if code == "KeyU"@ {
        Some(KeyCode::U)
    } else if code == "KeyI"@ {
        Some(KeyCode::I)
    } else if code == "KeyO"@ {
        Some(KeyCode::O)
    } else if code == "KeyP"@ {
        Some(KeyCode::P)
    } else if code == "BracketLeft"@ {
        Some(KeyCode::LeftBrace)
    } else if code == "BracketRight"@ {
        Some(KeyCode::RightBrace)
    } else if code == "Enter"@ {
        Some(KeyCode::Enter)
    } else if code == "CapsLock"@ {
        Some(KeyCode::CapsLock)
    } else if code == "KeyA"@ {
        Some(KeyCode::A)
    } else if code == "KeyS"@ {
        Some(KeyCode::S)
    } else if code == "KeyD"@ {
        Some(KeyCode::D)
    } else if code == "KeyF"@ {
        Some(KeyCode::F)
    } else if code == "KeyG"@ {
        Some(KeyCode::G)
    } else if code == "KeyH"@ {
        Some(KeyCode::H)
    } else if code == "KeyJ"@ {
        Some(KeyCode::J)
    } else if code == "KeyK"@ {
        Some(KeyCode::K)
    } else if code == "KeyL"@ {
        Some(KeyCode::L)
    } else if code == "Semicolon"@ {
        Some(KeyCode::Semicolon)
    } else if code == "Quote"@ {
        Some(KeyCode::Apostrophe)
    } else if code == "Backslash"@ {
        Some(KeyCode::Backslash)
    } else if code == "ShiftLeft"@ {
        Some(KeyCode::LeftShift)
    } else if code == "IntlBackslash"@ {
        Some(KeyCode::IntlBackslash)
    } else if code == "KeyZ"@ {
        Some(KeyCode::Z)
    } else if code == "KeyX"@ {
        Some(KeyCode::X)
    } else if code == "KeyC"@ {
        Some(KeyCode::C)
    } else if code == "KeyV"@ {
        Some(KeyCode::V)
    } else if code == "KeyB"@ {
        Some(KeyCode::B)
    } else if code == "KeyN"@ {
        Some(KeyCode::N)
    } else if code == "KeyM"@ {
        Some(KeyCode::M)
    } else if code == "Comma"@ {
        Some(KeyCode::Comma)
    } else if code == "Period"@ {
        Some(KeyCode::Dot)
    } else if code == "Slash"@ {
        Some(KeyCode::Slash)
    } else if code == "ShiftRight"@ {
        Some(KeyCode::RightShift)
    } else if code == "ControlLeft"@ {
        Some(KeyCode::LeftCtrl)
    } else if code == "MetaLeft"@ {
        Some(KeyCode::LeftMeta)
    } else if code == "AltLeft"@ {
        Some(KeyCode::LeftAlt)
    } else if code == "Space"@ {
        Some(KeyCode::Space)
    } else if code == "AltRight"@ {
        Some(KeyCode::RightAlt)
    } else if code == "MetaRight"@ {
        Some(KeyCode::RightMeta)
    } else if code == "ContextMenu"@ {
        Some(KeyCode::Compose)
    } else if code == "ControlRight"@ {
        Some(KeyCode::RightCtrl)
    } else if code == "PrintScreen"@ {
        Some(KeyCode::SysRq)
    } else if code == "ScrollLock"@ {
        Some(KeyCode::ScrollLock)
    } else if code == "Pause"@ {
        Some(KeyCode::Pause)
    } else if code == "Insert"@ {
        Some(KeyCode::Insert)
    } else if code == "Home"@ {
        Some(KeyCode::Home)
    } else if code == "PageUp"@ {
        Some(KeyCode::PageUp)
    } else if code == "Delete"@ {
        Some(KeyCode::Delete)
    } else if code == "End"@ {
        Some(KeyCode::End)
    } else if code == "PageDown"@ {
        Some(KeyCode::PageDown)
    } else if code == "ArrowUp"@ {
        Some(KeyCode::Up)
    } else if code == "ArrowLeft"@ {
        Some(KeyCode::Left)
    } else if code == "ArrowDown"@ {
        Some(KeyCode::Down)
    } else if code == "ArrowRight"@ {
        Some(KeyCode::Right)
    } else if code == "NumLock"@ {
        Some(KeyCode::NumLock)
    } else if code == "NumpadDivide"@ {
        Some(KeyCode::KpSlash)
    } else if code == "NumpadMultiply"@ {
        Some(KeyCode::KpAsterisk)
    } else if code == "NumpadSubtract"@ {
        Some(KeyCode::KpMinus)
    } else if code == "NumpadAdd"@ {
        Some(KeyCode::KpPlus)
    } else if code == "NumpadEnter"@ {
        Some(KeyCode::KpEnter)
    } else if code == "NumpadDecimal"@ {
        Some(KeyCode::KpDot)
    } else if code == "NumpadComma"@ {
        Some(KeyCode::KpComma)
    } else if code == "NumpadEqual"@ {
        Some(KeyCode::KpEqual)
    } else if code == "Numpad0"@ {
        Some(KeyCode::Kp0)
    } else if code == "Numpad1"@ {
        Some(KeyCode::Kp1)
    } else if code == "Numpad2"@ {
        Some(KeyCode::Kp2)
    } else if code == "Numpad3"@ {
        Some(KeyCode::Kp3)
    } else if code == "Numpad4"@ {
        Some(KeyCode::Kp4)
    } else if code == "Numpad5"@ {
        Some(KeyCode::Kp5)
    } else if code == "Numpad6"@ {
        Some(KeyCode::Kp6)
    } else if code == "Numpad7"@ {
        Some(KeyCode::Kp7)
    } else if code == "Numpad8"@ {
        Some(KeyCode::Kp8)
    } else if code == "Numpad9"@ {
        Some(KeyCode::Kp9)
    } else if code == "IntlRo"@ {
        Some(KeyCode::Ro)
    } else if code == "Katakana"@ {
        Some(KeyCode::Katakana)
    } else if code == "Hiragana"@ {
        Some(KeyCode::Hiragana)
    } else if code == "KatakanaHiragana"@ {
        Some(KeyCode::KatakanaHiragana)
    } else if code == "ZenkakuHankaku"@ {
        Some(KeyCode::ZenkakuHankaku)
    } else if code == "Henkan"@ {
        Some(KeyCode::Henkan)
    } else if code == "Muhenkan"@ {
        Some(KeyCode::Muhenkan)
    } else if code == "IntlYen"@ {
        Some(KeyCode::Yen)
    } else if code == "Lang1"@ {
        Some(KeyCode::Hanguel)
    } else if code == "Lang2"@ {
        Some(KeyCode::Hanja)
    } else if code == "AudioVolumeMute"@ {
        Some(KeyCode::Mute)
    } else if code == "VolumeMute"@ {
        Some(KeyCode::Mute)
    } else if code == "AudioVolumeDown"@ {
        Some(KeyCode::VolumeDown)
    } else if code == "VolumeDown"@ {
        Some(KeyCode::VolumeDown)
    } else if code == "AudioVolumeUp"@ {
        Some(KeyCode::VolumeUp)
    } else if code == "VolumeUp"@ {
        Some(KeyCode::VolumeUp)
    } else if code == "MediaTrackNext"@ {
        Some(KeyCode::NextSong)
    } else if code == "MediaTrackPrevious"@ {
        Some(KeyCode::PreviousSong)
    } else if code == "MediaStop"@ {
        Some(KeyCode::StopCD)
    } else if code == "MediaPlayPause"@ {
        Some(KeyCode::PlayPause)
    } else if code == "LaunchMail"@ {
        Some(KeyCode::Mail)
    } else if code == "LaunchApp2"@ {
        Some(KeyCode::Media)
    } else if code == "SelectMedia"@ {
        Some(KeyCode::Media)
    } else if code == "LaunchApp1"@ {
        Some(KeyCode::Calc)
    } else if code == "BrowserSearch"@ {
        Some(KeyCode::Search)
    } else if code == "BrowserHome"@ {
        Some(KeyCode::Homepage)
    } else if code == "BrowserBack"@ {
        Some(KeyCode::Back)
    } else if code == "BrowserForward"@ {
        Some(KeyCode::Forward)
    } else if code == "BrowserStop"@ {
        Some(KeyCode::Stop)
    } else if code == "BrowserRefresh"@ {
        Some(KeyCode::Refresh)
    } else if code == "BrowserFavorites"@ {
        Some(KeyCode::Bookmarks)
    } else if code == "Power"@ {
        Some(KeyCode::Power)
    } else if code == "Sleep"@ {
        Some(KeyCode::Sleep)
    } else if code == "WakeUp"@ {
        Some(KeyCode::WakeUp)
    } else if code == "BrightnessDown"@ {
        Some(KeyCode::BrightnessDown)
    } else if code == "BrightnessUp"@ {
        Some(KeyCode::BrightnessUp)
    } else if code == "Help"@ {
        Some(KeyCode::Help)
    } else {
        None
    }
}

/// Maps a browser key code to the key it names; codes not in the table
/// give `None`.
pub fn browser_code_to_key(code: &str) -> (r: Option<KeyCode>)
    ensures
        r == key_for_code(code@),
{
    if str_eq(code, "Escape") {
        Some(KeyCode::Esc)
    } else if str_eq(code, "F1") {
        Some(KeyCode::F1)
    } else if str_eq(code, "F2") {
        Some(KeyCode::F2)
    } else if str_eq(code, "F3") {
        Some(KeyCode::F3)
    } else if str_eq(code, "F4") {
        Some(KeyCode::F4)
    } else if str_eq(code, "F5") {
        Some(KeyCode::F5)
    } else if str_eq(code, "F6") {
        Some(KeyCode::F6)
    } else if str_eq(code, "F7") {
        Some(KeyCode::F7)
    } else if str_eq(code, "F8") {
        Some(KeyCode::F8)
    } else if str_eq(code, "F9") {
        Some(KeyCode::F9)
    } else if str_eq(code, "F10") {
        Some(KeyCode::F10)
    } else if str_eq(code, "F11") {
        Some(KeyCode::F11)
    } else if str_eq(code, "F12") {
        Some(KeyCode::F12)
    } else if str_eq(code, "F13") {
        Some(KeyCode::F13)
    } else if str_eq(code, "F14") {
        Some(KeyCode::F14)
    } else if str_eq(code, "F15") {
        Some(KeyCode::F15)
    } else if str_eq(code, "F23") {
        Some(KeyCode::F23)
    } else if str_eq(code, "Backquote") {
        Some(KeyCode::Grave)
    } else if str_eq(code, "Digit1") {
        Some(KeyCode::Num1)
    } else if str_eq(code, "Digit2") {
        Some(KeyCode::Num2)
    } else if str_eq(code, "Digit3") {
        Some(KeyCode::Num3)
    } else if str_eq(code, "Digit4") {
        Some(KeyCode::Num4)
    } else if str_eq(code, "Digit5") {
        Some(KeyCode::Num5)
    } else if str_eq(code, "Digit6") {
        Some(KeyCode::Num6)
    } else if str_eq(code, "Digit7") {
        Some(KeyCode::Num7)
    } else if str_eq(code, "Digit8") {
        Some(KeyCode::Num8)
    } else if str_eq(code, "Digit9") {
        Some(KeyCode::Num9)
    } else if str_eq(code, "Digit0") {
        Some(KeyCode::Num0)
    } else if str_eq(code, "Minus") {
        Some(KeyCode::Minus)
    } else if str_eq(code, "Equal") {
        Some(KeyCode::Equal)
    } else if str_eq(code, "Backspace") {
        Some(KeyCode::Backspace)
    } else if str_eq(code, "Tab") {
        Some(KeyCode::Tab)
    } else if str_eq(code, "KeyQ") {
        Some(KeyCode::Q)
    } else if str_eq(code, "KeyW") {
        Some(KeyCode::W)
    } else if str_eq(code, "KeyE") {
        Some(KeyCode::E)
    } else if str_eq(code, "KeyR") {
        Some(KeyCode::R)
    } else if str_eq(code, "KeyT") {
        Some(KeyCode::T)
    } else if str_eq(code, "KeyY") {
        Some(KeyCode::Y)
    } else if str_eq(code, "KeyU") {
        Some(KeyCode::U)
    } else if str_eq(code, "KeyI") {
        Some(KeyCode::I)
    } else if str_eq(code, "KeyO") {
        Some(KeyCode::O)
    } else if str_eq(code, "KeyP") {
        Some(KeyCode::P)
    } else if str_eq(code, "BracketLeft") {
        Some(KeyCode::LeftBrace)
    } else if str_eq(code, "BracketRight") {
        Some(KeyCode::RightBrace)
    } else if str_eq(code, "Enter") {
        Some(KeyCode::Enter)
    } else if str_eq(code, "CapsLock") {
        Some(KeyCode::CapsLock)
    } else if str_eq(code, "KeyA") {
        Some(KeyCode::A)
    } else if str_eq(code, "KeyS") {
        Some(KeyCode::S)
    } else if str_eq(code, "KeyD") {
        Some(KeyCode::D)
    } else if str_eq(code, "KeyF") {
        Some(KeyCode::F)
    } else if str_eq(code, "KeyG") {
        Some(KeyCode::G)
    } else if str_eq(code, "KeyH") {
        Some(KeyCode::H)
    } else if str_eq(code, "KeyJ") {
        Some(KeyCode::J)
    } else if str_eq(code, "KeyK") {
        Some(KeyCode::K)
    } else if str_eq(code, "KeyL") {
        Some(KeyCode::L)
    } else if str_eq(code, "Semicolon") {
        Some(KeyCode::Semicolon)
    } else if str_eq(code, "Quote") {
        Some(KeyCode::Apostrophe)
    } else if str_eq(code, "Backslash") {
        Some(KeyCode::Backslash)
    } else if str_eq(code, "ShiftLeft") {
        Some(KeyCode::LeftShift)
    } else if str_eq(code, "IntlBackslash") {
        Some(KeyCode::IntlBackslash)
    } else if str_eq(code, "KeyZ") {
        Some(KeyCode::Z)
    } else if str_eq(code, "KeyX") {
        Some(KeyCode::X)
    } else if str_eq(code, "KeyC") {
        Some(KeyCode::C)
    } else if str_eq(code, "KeyV") {
        Some(KeyCode::V)
    } else if str_eq(code, "KeyB") {
        Some(KeyCode::B)
    } else if str_eq(code, "KeyN") {
        Some(KeyCode::N)
    } else if str_eq(code, "KeyM") {
        Some(KeyCode::M)
    } else if str_eq(code, "Comma") {
        Some(KeyCode::Comma)
    } else if str_eq(code, "Period") {
        Some(KeyCode::Dot)
    } else if str_eq(code, "Slash") {
        Some(KeyCode::Slash)
    } else if str_eq(code, "ShiftRight") {
        Some(KeyCode::RightShift)
    } else if str_eq(code, "ControlLeft") {
        Some(KeyCode::LeftCtrl)
    } else if str_eq(code, "MetaLeft") {
        Some(KeyCode::LeftMeta)
    } else if str_eq(code, "AltLeft") {
        Some(KeyCode::LeftAlt)
    } else if str_eq(code, "Space") {
        Some(KeyCode::Space)
    } else if str_eq(code, "AltRight") {
        Some(KeyCode::RightAlt)
    } else if str_eq(code, "MetaRight") {
        Some(KeyCode::RightMeta)
    } else if str_eq(code, "ContextMenu") {
        Some(KeyCode::Compose)
    } else if str_eq(code, "ControlRight") {
        Some(KeyCode::RightCtrl)
    } else if str_eq(code, "PrintScreen") {
        Some(KeyCode::SysRq)
    } else if str_eq(code, "ScrollLock") {
        Some(KeyCode::ScrollLock)
    } else if str_eq(code, "Pause") {
        Some(KeyCode::Pause)
    } else if str_eq(code, "Insert") {
        Some(KeyCode::Insert)
    } else if str_eq(code, "Home") {
        Some(KeyCode::Home)
    } else if str_eq(code, "PageUp") {
        Some(KeyCode::PageUp)
    } else if str_eq(code, "Delete") {
        Some(KeyCode::Delete)
    } else if str_eq(code, "End") {
        Some(KeyCode::End)
    } else if str_eq(code, "PageDown") {
        Some(KeyCode::PageDown)
    } else if str_eq(code, "ArrowUp") {
        Some(KeyCode::Up)
    } else if str_eq(code, "ArrowLeft") {
        Some(KeyCode::Left)
    } else if str_eq(code, "ArrowDown") {
        Some(KeyCode::Down)
    } else if str_eq(code, "ArrowRight") {
        Some(KeyCode::Right)
    } else if str_eq(code, "NumLock") {
        Some(KeyCode::NumLock)
    } else if str_eq(code, "NumpadDivide") {
        Some(KeyCode::KpSlash)
    } else if str_eq(code, "NumpadMultiply") {
        Some(KeyCode::KpAsterisk)
    } else if str_eq(code, "NumpadSubtract") {
        Some(KeyCode::KpMinus)
    } else if str_eq(code, "NumpadAdd") {
        Some(KeyCode::KpPlus)
    } else if str_eq(code, "NumpadEnter") {
        Some(KeyCode::KpEnter)
    } else if str_eq(code, "NumpadDecimal") {
        Some(KeyCode::KpDot)
    } else if str_eq(code, "NumpadComma") {
        Some(KeyCode::KpComma)
    } else if str_eq(code, "NumpadEqual") {
        Some(KeyCode::KpEqual)
    } else if str_eq(code, "Numpad0") {
        Some(KeyCode::Kp0)
    } else if str_eq(code, "Numpad1") {
        Some(KeyCode::Kp1)
    } else if str_eq(code, "Numpad2") {
        Some(KeyCode::Kp2)
    } else if str_eq(code, "Numpad3") {
        Some(KeyCode::Kp3)
    } else if str_eq(code, "Numpad4") {
        Some(KeyCode::Kp4)
    } else if str_eq(code, "Numpad5") {
        Some(KeyCode::Kp5)
    } else if str_eq(code, "Numpad6") {
        Some(KeyCode::Kp6)
    } else if str_eq(code, "Numpad7") {
        Some(KeyCode::Kp7)
    } else if str_eq(code, "Numpad8") {
        Some(KeyCode::Kp8)
    } else if str_eq(code, "Numpad9") {
        Some(KeyCode::Kp9)
    } else if str_eq(code, "IntlRo") {
        Some(KeyCode::Ro)
    } else if str_eq(code, "Katakana") {
        Some(KeyCode::Katakana)
    } else if str_eq(code, "Hiragana") {
        Some(KeyCode::Hiragana)
    } else if str_eq(code, "KatakanaHiragana") {
        Some(KeyCode::KatakanaHiragana)
    } else if str_eq(code, "ZenkakuHankaku") {
        Some(KeyCode::ZenkakuHankaku)
    } else if str_eq(code, "Henkan") {
        Some(KeyCode::Henkan)
    } else if str_eq(code, "Muhenkan") {
        Some(KeyCode::Muhenkan)
    } else if str_eq(code, "IntlYen") {
        Some(KeyCode::Yen)
    } else if str_eq(code, "Lang1") {
        Some(KeyCode::Hanguel)
    } else if str_eq(code, "Lang2") {
        Some(KeyCode::Hanja)
    } else if str_eq(code, "AudioVolumeMute") {
        Some(KeyCode::Mute)
    } else if str_eq(code, "VolumeMute") {
        Some(KeyCode::Mute)
    } else if str_eq(code, "AudioVolumeDown") {
        Some(KeyCode::VolumeDown)
    } else if str_eq(code, "VolumeDown") {
        Some(KeyCode::VolumeDown)
    } else if str_eq(code, "AudioVolumeUp") {
        Some(KeyCode::VolumeUp)
    } else if str_eq(code, "VolumeUp") {
        Some(KeyCode::VolumeUp)
    } else if str_eq(code, "MediaTrackNext") {
        Some(KeyCode::NextSong)
    } else if str_eq(code, "MediaTrackPrevious") {
        Some(KeyCode::PreviousSong)
    } else if str_eq(code, "MediaStop") {
        Some(KeyCode::StopCD)
    } else if str_eq(code, "MediaPlayPause") {
        Some(KeyCode::PlayPause)
    } else if str_eq(code, "LaunchMail") {
        Some(KeyCode::Mail)
    } else if str_eq(code, "LaunchApp2") {
        Some(KeyCode::Media)
    } else if str_eq(code, "SelectMedia") {
        Some(KeyCode::Media)
    } else if str_eq(code, "LaunchApp1") {
        Some(KeyCode::Calc)
    } else if str_eq(code, "BrowserSearch") {
        Some(KeyCode::Search)
    } else if str_eq(code, "BrowserHome") {
        Some(KeyCode::Homepage)
    } else if str_eq(code, "BrowserBack") {
        Some(KeyCode::Back)
    } else if str_eq(code, "BrowserForward") {
        Some(KeyCode::Forward)
    } else if str_eq(code, "BrowserStop") {
        Some(KeyCode::Stop)
    } else if str_eq(code, "BrowserRefresh") {
        Some(KeyCode::Refresh)
    } else if str_eq(code, "BrowserFavorites") {
        Some(KeyCode::Bookmarks)
    } else if str_eq(code, "Power") {
        Some(KeyCode::Power)
    } else if str_eq(code, "Sleep") {
        Some(KeyCode::Sleep)
    } else if str_eq(code, "WakeUp") {
        Some(KeyCode::WakeUp)
    } else if str_eq(code, "BrightnessDown") {
        Some(KeyCode::BrightnessDown)
    } else if str_eq(code, "BrightnessUp") {
        Some(KeyCode::BrightnessUp)
    } else if str_eq(code, "Help") {
        Some(KeyCode::Help)
    } else {
        None
    }
}

} // verus!
