//! Configure events: what the compositor proposes to a surface, and the wire
//! form of that proposal.
use vstd::prelude::*;

verus! {

/// A state flag of a toplevel window.
#[derive(Clone, Copy, Debug, PartialEq, Eq, Structural)]
pub enum WindowState {
    Maximized,
    Fullscreen,
    Resizing,
    Activated,
    TiledLeft,
    TiledRight,
    TiledTop,
    TiledBottom,
}

/// The wire value of a window state.
pub open spec fn window_state_raw(s: WindowState) -> u8 {
    match s {
        WindowState::Maximized => 1,
        WindowState::Fullscreen => 2,
        WindowState::Resizing => 3,
        WindowState::Activated => 4,
        WindowState::TiledLeft => 5,
        WindowState::TiledRight => 6,
        WindowState::TiledTop => 7,
        WindowState::TiledBottom => 8,
    }
}

/// The bytes of `x`, least significant first.
pub open spec fn le_bytes(x: u32) -> Seq<u8> {
    seq![
        (x % 256) as u8,
        (x / 256 % 256) as u8,
        (x / 65536 % 256) as u8,
        (x / 16777216) as u8,
    ]
}

/// The bytes of `x`, most significant first.
pub open spec fn be_bytes(x: u32) -> Seq<u8> {
    seq![
        (x / 16777216) as u8,
        (x / 65536 % 256) as u8,
        (x / 256 % 256) as u8,
        (x % 256) as u8,
    ]
}

/// The 32-bit word of a byte value, in the given byte order.
pub open spec fn word_bytes(v: u8, little_endian: bool) -> Seq<u8> {
    if little_endian {
        seq![v, 0u8, 0u8, 0u8]
    } else {
        seq![0u8, 0u8, 0u8, v]
    }
}

/// The wire array of a state list: one 32-bit word per state, in the given
/// byte order.
pub open spec fn states_bytes(states: Seq<WindowState>, little_endian: bool) -> Seq<u8>
    decreases states.len(),
{
    if states.len() == 0 {
        Seq::empty()
    } else {
        states_bytes(states.drop_last(), little_endian) + word_bytes(
            window_state_raw(states.last()),
            little_endian,
        )
    }
}

/// Relies on `u32::to_ne_bytes`: the integer's bytes in the host's byte
/// order, which is little-endian or big-endian.
#[verifier::external_body]
fn native_bytes(x: u32) -> (r: [u8; 4])
    ensures
        r@ == le_bytes(x) || r@ == be_bytes(x),
{
    x.to_ne_bytes()
}

/// Whether the host stores integers least significant byte first (else it
/// stores them most significant first). Wire arrays of integers are in the
/// host's byte order.
pub fn host_is_little_endian() -> (r: bool) {
    let b = native_bytes(1);
    b[0] == 1
}

/// A configure proposed to a toplevel.
#[derive(Debug)]
pub struct ToplevelConfigure {
    /// Proposed size; `None` lets the client choose.
    pub size: Option<(i32, i32)>,
    pub states: Vec<WindowState>,
    pub serial: u32,
}

/// A configure proposed to a popup: its position relative to the parent and
/// its size.
#[derive(Clone, Copy, Debug)]
pub struct PopupConfigure {
    pub position: (i32, i32),
    pub size: (i32, i32),
    pub serial: u32,
}

/// The toplevel configure event as sent: a size (zero for "client's choice"),
/// the state array, and the serial of the accompanying surface configure.
#[derive(Debug)]
pub struct ToplevelConfigureEvent {
    pub width: i32,
    pub height: i32,
    pub states: Vec<u8>,
    pub serial: u32,
}

/// The popup configure event as sent.
#[derive(Clone, Copy, Debug)]
pub struct PopupConfigureEvent {
    pub x: i32,
    pub y: i32,
    pub width: i32,
    pub height: i32,
    pub serial: u32,
}

/// The wire value of a window state.
pub fn window_state_to_raw(s: WindowState) -> (r: u8)
    ensures
        r == window_state_raw(s),
{
    match s {
        WindowState::Maximized => 1,
        WindowState::Fullscreen => 2,
        WindowState::Resizing => 3,
        WindowState::Activated => 4,
        WindowState::TiledLeft => 5,
        WindowState::TiledRight => 6,
        WindowState::TiledTop => 7,
        WindowState::TiledBottom => 8,
    }
}

/// Encodes a state list as the wire array.
pub fn encode_states(states: &Vec<WindowState>, little_endian: bool) -> (r: Vec<u8>)
    ensures
        r@ == states_bytes(states@, little_endian),
{
    let mut out: Vec<u8> = Vec::new();
    let mut i: usize = 0;
    while i < states.len()
        invariant
            0 <= i <= states@.len(),
            out@ == states_bytes(states@.subrange(0, i as int), little_endian),
        decreases states@.len() - i,
    {
        let raw = window_state_to_raw(states[i]);
        proof {
            let next = states@.subrange(0, i as int + 1);
            assert(next.drop_last() == states@.subrange(0, i as int));
            assert(next.last() == states@[i as int]);
        }
        if little_endian {
            out.push(raw);
            out.push(0);
            out.push(0);
            out.push(0);
        } else {
            out.push(0);
            out.push(0);
            out.push(0);
            out.push(raw);
        }
        proof {
            let next = states@.subrange(0, i as int + 1);
            assert(out@ == states_bytes(next.drop_last(), little_endian) + word_bytes(
                window_state_raw(next.last()),
                little_endian,
            ));
        }
        i = i + 1;
    }
    assert(states@.subrange(0, states@.len() as int) == states@);
    out
}

} // verus!
