//! Input and window events, each carrying a fresh id.
//!
//! Coordinates and sizes arrive as whole pixels; the windowing layer owns
//! the conversion from its native units.

use vstd::prelude::*;

use crate::object::{Id, IdGenerator};

verus! {

#[derive(Clone, Copy, PartialEq, Eq, Structural, Debug)]
pub enum Mouse {
    Left,
    Right,
    Middle,
    Back,
    Forward,
    Offic,
}

#[derive(Clone, Copy, PartialEq, Eq, Structural, Debug)]
pub enum Keyboard {
    A,
    B,
    C,
    D,
    E,
    F,
    G,
    H,
    I,
    J,
    K,
    L,
    M,
    N,
    O,
    P,
    Q,
    R,
    S,
    T,
    U,
    V,
    W,
    X,
    Y,
    Z,
    Escape(u8),
    Function(u8),
    PrintScreen,
    ScrollLock,
    PauseBreak,
    BackQuote,
    Number { number: u8, padd: bool },
    Backspace,
    Delete,
    Insert,
    Home,
    End,
    PageUp,
    PageDown,
    NumLock,
    Slash(u8),
    Star,
    Plus(u8),
    Minus(u8),
    Enter(u8),
    Period(u8),
    Tab,
    SquareBracketLeft,
    SquareBracketRight,
    CapseLock,
    SemiColon,
    Quotem,
    BackSlash(u8),
    Shift(u8),
    Comma,
    Control(u8),
    Alt(u8),
    Space(u8),
    Command(u8),
    Super(u8),
    Properties(u8),
    ArrowUp,
    ArrowDown,
    ArrowLeft,
    ArrowRight,
    Equal,
}

#[derive(Clone, Copy, PartialEq, Eq, Structural, Debug)]
pub enum Button {
    Mouse(Mouse),
    Keyboard(Keyboard),
}

/// A window change, in whole pixels.
#[derive(Clone, Copy, PartialEq, Eq, Structural, Debug)]
pub enum Window {
    SizeChange { w: i64, h: i64, pre_w: i64, pre_h: i64 },
}

/// A pointer move, in whole pixels.
#[derive(Clone, Copy, PartialEq, Eq, Structural, Debug)]
pub enum Move {
    Mouse { previous_x: i64, previous_y: i64, current_x: i64, current_y: i64, delta_x: i64, delta_y: i64 },
}

#[derive(Clone, Copy, PartialEq, Eq, Structural, Debug)]
pub enum ButtonAction {
    Press,
    Release,
}

#[derive(Clone, Copy, PartialEq, Eq, Structural, Debug)]
pub enum Type {
    Move(Move),
    Button { button: Button, action: ButtonAction },
    Window(Window),
    Quit,
}

/// An event: its kind and a process-unique id.
#[derive(Clone, Copy, PartialEq, Eq, Structural, Debug)]
pub struct Event {
    id: Id,
    pub event_type: Type,
}

impl Event {
    pub closed spec fn spec_id(&self) -> Id {
        self.id
    }

    pub closed spec fn spec_event_type(&self) -> Type {
        self.event_type
    }

    /// Wraps the event kind with a fresh id.
    pub fn new(event_type: Type, gen: &mut IdGenerator) -> (r: Self)
        requires
            old(gen).spec_next() < u64::MAX,
        ensures
            r.spec_event_type() == event_type,
            r.spec_id() == old(gen).spec_next(),
            final(gen).spec_next() == old(gen).spec_next() + 1,
    {
        Event { id: gen.create_id(), event_type }
    }

    pub fn get_id(&self) -> (r: Id)
        ensures
            r == self.spec_id(),
    {
        self.id
    }
}

} // verus!
