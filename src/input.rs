//! Replay of remote input commands: what each command asks of the host's
//! keyboard, mouse, touch screen and stylus.
//!
//! The host primitives themselves are performed by the caller; this module
//! decides which ones to perform, and keeps the little state that takes.
use crate::keymap::{browser_code_to_key, key_for_code, KeyCode};
use crate::text::str_eq;
use vstd::prelude::*;

verus! {

/// A CapsLock event less than this many milliseconds after the previous
/// one that was replayed is dropped.
pub const CAPSLOCK_DEBOUNCE_MS: u64 = 250;

/// A command as it comes from the peer: a `type` and the fields that it
/// needs. The stylus pressure is carried as the bits of its IEEE-754
/// double, which this module only passes on.
#[derive(Debug, Clone, Default)]
pub struct InputCommand {
    pub kind: String,
    pub x: Option<i32>,
    pub y: Option<i32>,
    pub button: Option<u8>,
    pub key: Option<String>,
    pub id: Option<i32>,
    pub pressure_bits: Option<u64>,
    pub tilt_x: Option<i32>,
    pub tilt_y: Option<i32>,
}

#[derive(Debug, Clone, Copy, PartialEq, Eq, Structural)]
pub enum MouseButton {
    Left,
    Middle,
    Right,
}

/// One synthetic event for the host. Absolute coordinates already include
/// the capture origin.
#[derive(Debug, Clone, Copy, PartialEq, Eq, Structural)]
pub enum InputAction {
    Pen { x: i64, y: i64, pressure_bits: u64, tilt_x: i32, tilt_y: i32 },
    TouchDown { id: i32, x: i64, y: i64 },
    TouchMove { id: i32, x: i64, y: i64 },
    TouchUp { id: i32 },
    MoveRelative { x: i32, y: i32 },
    MoveAbsolute { x: i64, y: i64 },
    /// Scroll by `x` horizontally and `y` vertically, `y` growing upwards.
    Wheel { x: i64, y: i64 },
    ButtonDown(MouseButton),
    ButtonUp(MouseButton),
    KeyDown(KeyCode),
    KeyUp(KeyCode),
    /// Release every key the host knows.
    ReleaseAllKeys,
}

pub open spec fn is_pen_command(c: InputCommand) -> bool {
    c.x is Some && c.y is Some && c.pressure_bits is Some && c.tilt_x is Some && c.tilt_y is Some
}

pub open spec fn is_touch_command(c: InputCommand) -> bool {
    c.x is Some && c.y is Some && c.id is Some
}

pub open spec fn is_pointer_command(c: InputCommand) -> bool {
    c.x is Some && c.y is Some
}

/// Whether the command is a key event: it carries a key code and none of
/// the fields that make it a pointer, touch or button command.
pub open spec fn is_key_command(c: InputCommand) -> bool {
    !is_pointer_command(c) && c.id is None && c.button is None && c.key is Some
}

pub open spec fn button_action(button: u8, kind: Seq<char>) -> Seq<InputAction> {
    let b = if button == 0 {
        MouseButton::Left
    } else if button == 1 {
        MouseButton::Middle
    } else {
        MouseButton::Right
    };
    if button > 2 {
        Seq::empty()
    } else if kind == "mousedown"@ {
        seq![InputAction::ButtonDown(b)]
    } else if kind == "mouseup"@ {
        seq![InputAction::ButtonUp(b)]
    } else {
        Seq::empty()
    }
}

/// The events for every command but a key event; these need no state.
/// Which fields are present decides first, then the `type`.
pub open spec fn stateless_actions(c: InputCommand, sx: u32, sy: u32) -> Seq<InputAction> {
    let kind = c.kind@;
    if is_pen_command(c) {
        if kind == "pen"@ {
            seq![
                InputAction::Pen {
                    x: (c.x.unwrap() + sx) as i64,
                    y: (c.y.unwrap() + sy) as i64,
                    pressure_bits: c.pressure_bits.unwrap(),
                    tilt_x: c.tilt_x.unwrap(),
                    tilt_y: c.tilt_y.unwrap(),
                },
            ]
        } else {
            Seq::empty()
        }
    } else if is_touch_command(c) {
        let (id, x, y) = (c.id.unwrap(), (c.x.unwrap() + sx) as i64, (c.y.unwrap() + sy) as i64);
        if kind == "touchstart"@ {
            seq![InputAction::TouchDown { id, x, y }]
        } else if kind == "touchmove"@ {
            seq![InputAction::TouchMove { id, x, y }]
        } else {
            Seq::empty()
        }
    } else if is_pointer_command(c) {
        if kind == "mousemove"@ {
            seq![InputAction::MoveRelative { x: c.x.unwrap(), y: c.y.unwrap() }]
        } else if kind == "mousemoveabs"@ {
            seq![
                InputAction::MoveAbsolute {
                    x: (c.x.unwrap() + sx) as i64,
                    y: (c.y.unwrap() + sy) as i64,
                },
            ]
        } else if kind == "wheel"@ {
            seq![InputAction::Wheel { x: c.x.unwrap() as i64, y: -c.y.unwrap() as i64 }]
        } else {
            Seq::empty()
        }
    } else if c.id is Some {
        if kind == "touchend"@ {
            seq![InputAction::TouchUp { id: c.id.unwrap() }]
        } else {
            Seq::empty()
        }
    } else if c.button is Some {
        button_action(c.button.unwrap(), kind)
    } else if c.key is Some {
        Seq::empty()
    } else if kind == "resetkeyboard"@ {
        seq![InputAction::ReleaseAllKeys]
    } else {
        Seq::empty()
    }
}

/// Keys pressed since the last Meta release, each once.
pub open spec fn with_held(held: Seq<KeyCode>, k: KeyCode) -> Seq<KeyCode> {
    if held.contains(k) {
        held
    } else {
        held.push(k)
    }
}

pub open spec fn releases(keys: Seq<KeyCode>) -> Seq<InputAction> {
    keys.map_values(|k: KeyCode| InputAction::KeyUp(k))
}

pub open spec fn is_meta(k: KeyCode) -> bool {
    k == KeyCode::LeftMeta || k == KeyCode::RightMeta
}

/// Whether a CapsLock event at `now` is replayed: there was none before, or
/// the last one replayed came more than 250 ms earlier.
pub open spec fn capslock_due(last: Option<u64>, now: u64) -> bool {
    match last {
        None => true,
        Some(t) => now > t + CAPSLOCK_DEBOUNCE_MS,
    }
}

/// A key event for `key` of type `kind` at `now`, with the last replayed
/// CapsLock at `last` (if any) and the keys `held`: the events, then the
/// new last CapsLock time and held keys.
///
/// CapsLock is replayed as a press and a release whatever the type, unless
/// it comes within 250 ms of the last one replayed, when it is dropped.
/// Releasing Meta releases every held key after it.
pub open spec fn key_step(
    kind: Seq<char>,
    key: KeyCode,
    last: Option<u64>,
    held: Seq<KeyCode>,
    now: u64,
) -> (Seq<InputAction>, Option<u64>, Seq<KeyCode>) {
    if key == KeyCode::CapsLock {
        if capslock_due(last, now) {
            (seq![InputAction::KeyDown(key), InputAction::KeyUp(key)], Some(now), held)
        } else {
            (Seq::empty(), last, held)
        }
    } else if kind == "keydown"@ {
        (seq![InputAction::KeyDown(key)], last, with_held(held, key))
    } else if kind == "keyup"@ {
        if is_meta(key) {
            (seq![InputAction::KeyUp(key)] + releases(held), last, Seq::empty())
        } else {
            (seq![InputAction::KeyUp(key)], last, held)
        }
    } else {
        (Seq::empty(), last, held)
    }
}

/// One command at `now`: the events, the new last CapsLock time and the
/// new held keys.
pub open spec fn replay_step(
    c: InputCommand,
    sx: u32,
    sy: u32,
    last: Option<u64>,
    held: Seq<KeyCode>,
    now: u64,
) -> (Seq<InputAction>, Option<u64>, Seq<KeyCode>) {
    if is_key_command(c) {
        match key_for_code(c.key.unwrap()@) {
            Some(k) => key_step(c.kind@, k, last, held, now),
            None => (Seq::empty(), last, held),
        }
    } else {
        (stateless_actions(c, sx, sy), last, held)
    }
}

/// A CapsLock event at `now` whose previous one was replayed at `last`
/// gives exactly one press followed by one release if more than 250 ms
/// passed, and nothing otherwise; the first CapsLock event is always
/// replayed. Either way, the type of the event does not matter.
pub proof fn lemma_capslock_debounce(kind: Seq<char>, last: u64, held: Seq<KeyCode>, now: u64)
    ensures
        now - last > CAPSLOCK_DEBOUNCE_MS ==> key_step(
            kind,
            KeyCode::CapsLock,
            Some(last),
            held,
            now,
        ).0 == seq![InputAction::KeyDown(KeyCode::CapsLock), InputAction::KeyUp(KeyCode::CapsLock)],
        now - last <= CAPSLOCK_DEBOUNCE_MS ==> key_step(
            kind,
            KeyCode::CapsLock,
            Some(last),
            held,
            now,
        ).0.len() == 0,
        key_step(kind, KeyCode::CapsLock, None, held, now).0 == seq![
            InputAction::KeyDown(KeyCode::CapsLock),
            InputAction::KeyUp(KeyCode::CapsLock),
        ],
{
}

/// Releasing Meta while keys `held` are tracked releases Meta and then
/// each of them, and leaves none tracked.
pub proof fn lemma_meta_release_sweep(
    key: KeyCode,
    last: Option<u64>,
    held: Seq<KeyCode>,
    now: u64,
)
    requires
        is_meta(key),
    ensures
        key_step("keyup"@, key, last, held, now).0 == seq![InputAction::KeyUp(key)] + releases(
            held,
        ),
        forall|i: int|
            0 <= i < held.len() ==> key_step("keyup"@, key, last, held, now).0[i + 1]
                == InputAction::KeyUp(#[trigger] held[i]),
        key_step("keyup"@, key, last, held, now).2.len() == 0,
{
    reveal_strlit("keyup");
    reveal_strlit("keydown");
    assert("keyup"@.len() != "keydown"@.len());
    let out = key_step("keyup"@, key, last, held, now).0;
    assert(out == seq![InputAction::KeyUp(key)] + releases(held));
    assert forall|i: int| 0 <= i < held.len() implies out[i + 1] == InputAction::KeyUp(
        #[trigger] held[i],
    ) by {
        assert(out[i + 1] == releases(held)[i]);
    }
}

/// The replayer's state: the capture origin, when CapsLock was last
/// replayed, and the keys pressed since Meta was last released.
pub struct InputReplayer {
    startx: u32,
    starty: u32,
    last_capslock_ms: Option<u64>,
    held: Vec<KeyCode>,
}

impl InputReplayer {
    pub closed spec fn origin(&self) -> (u32, u32) {
        (self.startx, self.starty)
    }

    pub closed spec fn last_capslock(&self) -> Option<u64> {
        self.last_capslock_ms
    }

    pub closed spec fn held(&self) -> Seq<KeyCode> {
        self.held@
    }

    /// A replayer for a capture region starting at (`startx`, `starty`),
    /// with no CapsLock replayed yet and no key held.
    pub fn new(startx: u32, starty: u32) -> (r: Self)
        ensures
            r.origin() == (startx, starty),
            r.last_capslock() is None,
            r.held() == Seq::<KeyCode>::empty(),
    {
        InputReplayer { startx, starty, last_capslock_ms: None, held: Vec::new() }
    }

    fn stateless(&self, c: &InputCommand) -> (r: Vec<InputAction>)
        requires
            !is_key_command(*c),
        ensures
            r@ == stateless_actions(*c, self.startx, self.starty),
    {
        let sx = self.startx as i64;
        let sy = self.starty as i64;
        let kind = c.kind.as_str();
        let mut out: Vec<InputAction> = Vec::new();
        if c.x.is_some() && c.y.is_some() && c.pressure_bits.is_some() && c.tilt_x.is_some()
            && c.tilt_y.is_some() {
            if str_eq(kind, "pen") {
                out.push(
                    InputAction::Pen {
                        x: c.x.unwrap() as i64 + sx,
                        y: c.y.unwrap() as i64 + sy,
                        pressure_bits: c.pressure_bits.unwrap(),
                        tilt_x: c.tilt_x.unwrap(),
                        tilt_y: c.tilt_y.unwrap(),
                    },
                );
            }
        } else if c.x.is_some() && c.y.is_some() && c.id.is_some() {
            let id = c.id.unwrap();
            let x = c.x.unwrap() as i64 + sx;
            let y = c.y.unwrap() as i64 + sy;
            if str_eq(kind, "touchstart") {
                out.push(InputAction::TouchDown { id, x, y });
            } else if str_eq(kind, "touchmove") {
                out.push(InputAction::TouchMove { id, x, y });
            }
        } else if c.x.is_some() && c.y.is_some() {
            let x = c.x.unwrap();
            let y = c.y.unwrap();
            if str_eq(kind, "mousemove") {
                out.push(InputAction::MoveRelative { x, y });
            } else if str_eq(kind, "mousemoveabs") {
                out.push(InputAction::MoveAbsolute { x: x as i64 + sx, y: y as i64 + sy });
            } else if str_eq(kind, "wheel") {
                out.push(InputAction::Wheel { x: x as i64, y: -(y as i64) });
            }
        } else if c.id.is_some() {
            if str_eq(kind, "touchend") {
                out.push(InputAction::TouchUp { id: c.id.unwrap() });
            }
        } else if c.button.is_some() {
            let button = c.button.unwrap();
            if button <= 2 {
                let b = if button == 0 {
                    MouseButton::Left
                } else if button == 1 {
                    MouseButton::Middle
                } else {
                    MouseButton::Right
                };
                if str_eq(kind, "mousedown") {
                    out.push(InputAction::ButtonDown(b));
                } else if str_eq(kind, "mouseup") {
                    out.push(InputAction::ButtonUp(b));
                }
            }
        } else if c.key.is_none() && str_eq(kind, "resetkeyboard") {
            out.push(InputAction::ReleaseAllKeys);
        }
        assert(out@ =~= stateless_actions(*c, self.startx, self.starty));
        out
    }

    fn key_event(&mut self, kind: &str, key: KeyCode, now: u64) -> (r: Vec<InputAction>)
        ensures
            final(self).origin() == old(self).origin(),
            (r@, final(self).last_capslock(), final(self).held()) == key_step(
                kind@,
                key,
                old(self).last_capslock(),
                old(self).held(),
                now,
            ),
    {
        let mut out: Vec<InputAction> = Vec::new();
        if key == KeyCode::CapsLock {
            let due = match self.last_capslock_ms {
                None => true,
                Some(t) => now > t && now - t > CAPSLOCK_DEBOUNCE_MS,
            };
            if due {
                out.push(InputAction::KeyDown(key));
                out.push(InputAction::KeyUp(key));
                self.last_capslock_ms = Some(now);
            }
        } else if str_eq(kind, "keydown") {
            out.push(InputAction::KeyDown(key));
            let mut present = false;
            let mut i: usize = 0;
            while i < self.held.len()
                invariant
                    0 <= i <= self.held@.len(),
                    present == (exists|j: int| 0 <= j < i && self.held@[j] == key),
                decreases self.held@.len() - i,
            {
                if self.held[i] == key {
                    present = true;
                }
                i += 1;
            }
            if !present {
                self.held.push(key);
            }
            assert(present == self.held@.contains(key) || !present);
        } else if str_eq(kind, "keyup") {
            out.push(InputAction::KeyUp(key));
            if key == KeyCode::LeftMeta || key == KeyCode::RightMeta {
                let mut i: usize = 0;
                while i < self.held.len()
                    invariant
                        0 <= i <= self.held@.len(),
                        out@ == seq![InputAction::KeyUp(key)] + releases(
                            self.held@.subrange(0, i as int),
                        ),
                    decreases self.held@.len() - i,
                {
                    out.push(InputAction::KeyUp(self.held[i]));
                    i += 1;
                    assert(releases(self.held@.subrange(0, i as int)) =~= releases(
                        self.held@.subrange(0, i - 1 as int),
                    ).push(InputAction::KeyUp(self.held@[i - 1])));
                }
                assert(self.held@.subrange(0, self.held@.len() as int) =~= self.held@);
                self.held = Vec::new();
            }
        }
        proof {
            let s = key_step(kind@, key, old(self).last_capslock(), old(self).held(), now);
            assert(out@ =~= s.0);
            assert(self.held@ =~= s.2);
        }
        out
    }

    /// Replays one command received at `now`: returns the host events to
    /// perform, in order, and updates the CapsLock time and held keys.
    pub fn handle(&mut self, c: &InputCommand, now: u64) -> (r: Vec<InputAction>)
        ensures
            final(self).origin() == old(self).origin(),
            (r@, final(self).last_capslock(), final(self).held()) == replay_step(
                *c,
                old(self).origin().0,
                old(self).origin().1,
                old(self).last_capslock(),
                old(self).held(),
                now,
            ),
    {
        let is_key = !(c.x.is_some() && c.y.is_some()) && c.id.is_none() && c.button.is_none()
            && c.key.is_some();
        if is_key {
            let code = c.key.as_ref().unwrap();
            match browser_code_to_key(code.as_str()) {
                Some(k) => self.key_event(c.kind.as_str(), k, now),
                None => Vec::new(),
            }
        } else {
            self.stateless(c)
        }
    }
}

} // verus!
