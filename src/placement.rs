//! Anchor, gravity, constraint-adjustment and resize-edge encodings.
//!
//! The unstable v6 revision encodes anchor and gravity as bit sets
//! (top = 1, bottom = 2, left = 4, right = 8); the stable revision encodes the
//! nine meaningful combinations as an enumeration. The types below are the
//! stable, enumerated model; the functions convert from the v6 bits.
use vstd::prelude::*;

verus! {

/// Edge (or corner) of the anchor rectangle a popup is anchored to.
#[derive(Clone, Copy, Debug, PartialEq, Eq, Structural)]
pub enum Anchor {
    /// No edge: the centre of the anchor rectangle.
    Center,
    Top,
    Bottom,
    Left,
    Right,
    TopLeft,
    BottomLeft,
    TopRight,
    BottomRight,
}

/// Direction in which a popup grows from its anchor point.
#[derive(Clone, Copy, Debug, PartialEq, Eq, Structural)]
pub enum Gravity {
    /// Centred on the anchor point.
    Center,
    Top,
    Bottom,
    Left,
    Right,
    TopLeft,
    BottomLeft,
    TopRight,
    BottomRight,
}

/// Edge or corner grabbed by an interactive resize.
#[derive(Clone, Copy, Debug, PartialEq, Eq, Structural)]
pub enum ResizeEdge {
    NoEdge,
    Top,
    Bottom,
    Left,
    TopLeft,
    BottomLeft,
    Right,
    TopRight,
    BottomRight,
}

/// All constraint-adjustment bits the protocol defines (slide, flip and
/// resize, each on both axes).
pub const CONSTRAINT_ADJUSTMENT_ALL: u32 = 63;

/// The v6 bit set of an anchor.
pub open spec fn anchor_bits(a: Anchor) -> u32 {
    match a {
        Anchor::Center => 0,
        Anchor::Top => 1,
        Anchor::Bottom => 2,
        Anchor::Left => 4,
        Anchor::Right => 8,
        Anchor::TopLeft => 5,
        Anchor::BottomLeft => 6,
        Anchor::TopRight => 9,
        Anchor::BottomRight => 10,
    }
}

/// The v6 bit set of a gravity.
pub open spec fn gravity_bits(g: Gravity) -> u32 {
    match g {
        Gravity::Center => 0,
        Gravity::Top => 1,
        Gravity::Bottom => 2,
        Gravity::Left => 4,
        Gravity::Right => 8,
        Gravity::TopLeft => 5,
        Gravity::BottomLeft => 6,
        Gravity::TopRight => 9,
        Gravity::BottomRight => 10,
    }
}

/// The wire value of a resize edge; both revisions share it.
pub open spec fn edge_raw(e: ResizeEdge) -> u32 {
    match e {
        ResizeEdge::NoEdge => 0,
        ResizeEdge::Top => 1,
        ResizeEdge::Bottom => 2,
        ResizeEdge::Left => 4,
        ResizeEdge::TopLeft => 5,
        ResizeEdge::BottomLeft => 6,
        ResizeEdge::Right => 8,
        ResizeEdge::TopRight => 9,
        ResizeEdge::BottomRight => 10,
    }
}

/// The anchor whose v6 bit set is `bits`, if the revision defines one.
pub open spec fn anchor_of_bits(bits: u32) -> Option<Anchor> {
    if bits == 0 {
        Some(Anchor::Center)
    } else if bits == 1 {
        Some(Anchor::Top)
    } else if bits == 2 {
        Some(Anchor::Bottom)
    } else if bits == 4 {
        Some(Anchor::Left)
    } else if bits == 5 {
        Some(Anchor::TopLeft)
    } else if bits == 6 {
        Some(Anchor::BottomLeft)
    } else if bits == 8 {
        Some(Anchor::Right)
    } else if bits == 9 {
        Some(Anchor::TopRight)
    } else if bits == 10 {
        Some(Anchor::BottomRight)
    } else {
        None
    }
}

/// The gravity whose v6 bit set is `bits`, if the revision defines one.
pub open spec fn gravity_of_bits(bits: u32) -> Option<Gravity> {
    if bits == 0 {
        Some(Gravity::Center)
    } else if bits == 1 {
        Some(Gravity::Top)
    } else if bits == 2 {
        Some(Gravity::Bottom)
    } else if bits == 4 {
        Some(Gravity::Left)
    } else if bits == 5 {
        Some(Gravity::TopLeft)
    } else if bits == 6 {
        Some(Gravity::BottomLeft)
    } else if bits == 8 {
        Some(Gravity::Right)
    } else if bits == 9 {
        Some(Gravity::TopRight)
    } else if bits == 10 {
        Some(Gravity::BottomRight)
    } else {
        None
    }
}

/// Decodes a v6 anchor bit set. Combinations the v6 revision does not define
/// (such as top together with bottom) are rejected.
pub fn zxdg_anchor_to_xdg(bits: u32) -> (r: Option<Anchor>)
    ensures
        r == anchor_of_bits(bits),
{
    match bits {
        0b0000 => Some(Anchor::Center),
        0b0001 => Some(Anchor::Top),
        0b0010 => Some(Anchor::Bottom),
        0b0100 => Some(Anchor::Left),
        0b0101 => Some(Anchor::TopLeft),
        0b0110 => Some(Anchor::BottomLeft),
        0b1000 => Some(Anchor::Right),
        0b1001 => Some(Anchor::TopRight),
        0b1010 => Some(Anchor::BottomRight),
        _ => None,
    }
}

/// Decodes a v6 gravity bit set, rejecting undefined combinations.
pub fn zxdg_gravity_to_xdg(bits: u32) -> (r: Option<Gravity>)
    ensures
        r == gravity_of_bits(bits),
{
    match bits {
        0b0000 => Some(Gravity::Center),
        0b0001 => Some(Gravity::Top),
        0b0010 => Some(Gravity::Bottom),
        0b0100 => Some(Gravity::Left),
        0b0101 => Some(Gravity::TopLeft),
        0b0110 => Some(Gravity::BottomLeft),
        0b1000 => Some(Gravity::Right),
        0b1001 => Some(Gravity::TopRight),
        0b1010 => Some(Gravity::BottomRight),
        _ => None,
    }
}

/// Encodes an anchor as a v6 bit set.
pub fn xdg_anchor_to_zxdg(a: Anchor) -> (r: u32)
    ensures
        r == anchor_bits(a),
{
    match a {
        Anchor::Center => 0,
        Anchor::Top => 1,
        Anchor::Bottom => 2,
        Anchor::Left => 4,
        Anchor::Right => 8,
        Anchor::TopLeft => 5,
        Anchor::BottomLeft => 6,
        Anchor::TopRight => 9,
        Anchor::BottomRight => 10,
    }
}

/// Encodes a gravity as a v6 bit set.
pub fn xdg_gravity_to_zxdg(g: Gravity) -> (r: u32)
    ensures
        r == gravity_bits(g),
{
    match g {
        Gravity::Center => 0,
        Gravity::Top => 1,
        Gravity::Bottom => 2,
        Gravity::Left => 4,
        Gravity::Right => 8,
        Gravity::TopLeft => 5,
        Gravity::BottomLeft => 6,
        Gravity::TopRight => 9,
        Gravity::BottomRight => 10,
    }
}

/// Decodes a resize edge from its wire value; an unknown value means no edge.
pub fn zxdg_edges_to_xdg(raw: u32) -> (r: ResizeEdge)
    ensures
        edge_raw(r) == raw || (r == ResizeEdge::NoEdge && forall|e: ResizeEdge|
            edge_raw(e) != raw),
{
    match raw {
        0 => ResizeEdge::NoEdge,
        1 => ResizeEdge::Top,
        2 => ResizeEdge::Bottom,
        4 => ResizeEdge::Left,
        5 => ResizeEdge::TopLeft,
        6 => ResizeEdge::BottomLeft,
        8 => ResizeEdge::Right,
        9 => ResizeEdge::TopRight,
        10 => ResizeEdge::BottomRight,
        _ => ResizeEdge::NoEdge,
    }
}

/// The wire value of a resize edge.
pub fn xdg_edge_raw(e: ResizeEdge) -> (r: u32)
    ensures
        r == edge_raw(e),
{
    match e {
        ResizeEdge::NoEdge => 0,
        ResizeEdge::Top => 1,
        ResizeEdge::Bottom => 2,
        ResizeEdge::Left => 4,
        ResizeEdge::TopLeft => 5,
        ResizeEdge::BottomLeft => 6,
        ResizeEdge::Right => 8,
        ResizeEdge::TopRight => 9,
        ResizeEdge::BottomRight => 10,
    }
}

/// Keeps the constraint-adjustment bits that the protocol defines and drops
/// the others; both revisions share the bit layout.
pub fn zxdg_constraints_adg_to_xdg(bits: u32) -> (r: u32)
    ensures
        r == bits & CONSTRAINT_ADJUSTMENT_ALL,
        r <= CONSTRAINT_ADJUSTMENT_ALL,
{
    let r = bits & CONSTRAINT_ADJUSTMENT_ALL;
    assert(bits & 63u32 <= 63u32) by (bit_vector);
    r
}

/// Every v6 anchor bit set either decodes to the anchor that encodes back to
/// exactly those bits, or is rejected because no anchor has them; and every
/// anchor survives encoding followed by decoding.
pub proof fn lemma_anchor_round_trip(bits: u32, a: Anchor)
    ensures
        match anchor_of_bits(bits) {
            Some(d) => anchor_bits(d) == bits,
            None => forall|x: Anchor| anchor_bits(x) != bits,
        },
        anchor_of_bits(anchor_bits(a)) == Some(a),
{
}

/// Every v6 gravity bit set either decodes to the gravity that encodes back to
/// exactly those bits, or is rejected because no gravity has them; and every
/// gravity survives encoding followed by decoding.
pub proof fn lemma_gravity_round_trip(bits: u32, g: Gravity)
    ensures
        match gravity_of_bits(bits) {
            Some(d) => gravity_bits(d) == bits,
            None => forall|x: Gravity| gravity_bits(x) != bits,
        },
        gravity_of_bits(gravity_bits(g)) == Some(g),
{
}

} // verus!
