//! The positioner: an accumulator of popup placement rules, filled by a
//! sequence of requests and copied once into each popup created from it.
use vstd::prelude::*;

use crate::placement::{
    anchor_of_bits, gravity_of_bits, zxdg_anchor_to_xdg, zxdg_constraints_adg_to_xdg,
    zxdg_gravity_to_xdg, Anchor, Gravity, CONSTRAINT_ADJUSTMENT_ALL,
};

verus! {

/// An axis-aligned rectangle in surface coordinates.
#[derive(Clone, Copy, Debug, PartialEq, Eq, Structural)]
pub struct Rectangle {
    pub x: i32,
    pub y: i32,
    pub width: i32,
    pub height: i32,
}

/// Why a positioner request was refused. Each is reported to the client as
/// the positioner's `invalid_input` error.
#[derive(Clone, Copy, Debug, PartialEq, Eq, Structural)]
pub enum PositionerError {
    /// `set_size` with a component below one.
    InvalidSize,
    /// `set_anchor_rect` with a width or height below one.
    InvalidAnchorRect,
    /// `set_anchor` with a bit set that names no anchor.
    InvalidAnchor,
    /// `set_gravity` with a bit set that names no gravity.
    InvalidGravity,
}

/// Wire code of the positioner's `invalid_input` error.
pub const POSITIONER_INVALID_INPUT: u32 = 0;

impl PositionerError {
    /// The protocol error code reported for this refusal.
    pub fn code(&self) -> (r: u32)
        ensures
            r == POSITIONER_INVALID_INPUT,
    {
        POSITIONER_INVALID_INPUT
    }
}

/// Placement rules of a popup, as accumulated on a positioner object.
#[derive(Clone, Copy, Debug)]
pub struct PositionerState {
    /// Size of the popup to place.
    pub rect_size: (i32, i32),
    /// Rectangle of the parent surface the popup is anchored to.
    pub anchor_rect: Rectangle,
    pub anchor_edges: Anchor,
    pub gravity: Gravity,
    /// Constraint-adjustment bit set (slide, flip, resize on each axis).
    pub constraint_adjustment: u32,
    pub offset: (i32, i32),
}

/// The anchor rectangle after one `set_anchor_rect` request: the new
/// rectangle if its size is valid, else the previous one.
pub open spec fn anchor_rect_step(prev: Rectangle, req: Rectangle) -> Rectangle {
    if req.width >= 1 && req.height >= 1 {
        req
    } else {
        prev
    }
}

/// The anchor rectangle after a sequence of `set_anchor_rect` requests.
pub open spec fn anchor_rect_after(start: Rectangle, reqs: Seq<Rectangle>) -> Rectangle
    decreases reqs.len(),
{
    if reqs.len() == 0 {
        start
    } else {
        anchor_rect_step(anchor_rect_after(start, reqs.drop_last()), reqs.last())
    }
}

/// After a sequence of `set_anchor_rect` requests the stored rectangle is the
/// last one whose width and height are at least one; requests with a smaller
/// size leave it as it was, and if no request was valid it is the starting
/// rectangle.
pub proof fn lemma_anchor_rect_is_last_valid(start: Rectangle, reqs: Seq<Rectangle>)
    ensures
        (forall|i: int| 0 <= i < reqs.len() ==> !(reqs[i].width >= 1 && reqs[i].height >= 1))
            ==> anchor_rect_after(start, reqs) == start,
        forall|i: int|
            #![trigger reqs[i]]
            0 <= i < reqs.len() && reqs[i].width >= 1 && reqs[i].height >= 1 && (forall|j: int|
                i < j < reqs.len() ==> !(reqs[j].width >= 1 && reqs[j].height >= 1))
                ==> anchor_rect_after(start, reqs) == reqs[i],
    decreases reqs.len(),
{
    if reqs.len() > 0 {
        let prefix = reqs.drop_last();
        lemma_anchor_rect_is_last_valid(start, prefix);
        assert forall|i: int|
            #![trigger reqs[i]]
            0 <= i < reqs.len() && reqs[i].width >= 1 && reqs[i].height >= 1 && (forall|j: int|
                i < j < reqs.len() ==> !(reqs[j].width >= 1 && reqs[j].height >= 1))
                implies anchor_rect_after(start, reqs) == reqs[i] by {
            if i < reqs.len() - 1 {
                assert(prefix[i] == reqs[i]);
                assert forall|j: int| i < j < prefix.len() implies !(prefix[j].width >= 1
                    && prefix[j].height >= 1) by {
                    assert(prefix[j] == reqs[j]);
                }
            }
        }
        if forall|i: int| 0 <= i < reqs.len() ==> !(reqs[i].width >= 1 && reqs[i].height >= 1) {
            assert forall|i: int| 0 <= i < prefix.len() implies !(prefix[i].width >= 1
                && prefix[i].height >= 1) by {
                assert(prefix[i] == reqs[i]);
            }
        }
    }
}

impl PositionerState {
    /// A fresh positioner: every rectangle, offset and bit set zero, anchored
    /// and growing from the centre.
    pub fn new() -> (r: PositionerState)
        ensures
            r == (PositionerState {
                rect_size: (0, 0),
                anchor_rect: Rectangle { x: 0, y: 0, width: 0, height: 0 },
                anchor_edges: Anchor::Center,
                gravity: Gravity::Center,
                constraint_adjustment: 0,
                offset: (0, 0),
            }),
    {
        PositionerState {
            rect_size: (0, 0),
            anchor_rect: Rectangle { x: 0, y: 0, width: 0, height: 0 },
            anchor_edges: Anchor::Center,
            gravity: Gravity::Center,
            constraint_adjustment: 0,
            offset: (0, 0),
        }
    }

    /// `set_size`: both components must be at least one.
    pub fn set_size(&mut self, width: i32, height: i32) -> (r: Result<(), PositionerError>)
        ensures
            width >= 1 && height >= 1 ==> r is Ok && *final(self) == (PositionerState {
                rect_size: (width, height),
                ..*old(self)
            }),
            !(width >= 1 && height >= 1) ==> r == Err::<(), _>(PositionerError::InvalidSize)
                && *final(self) == *old(self),
    {
        if width < 1 || height < 1 {
            Err(PositionerError::InvalidSize)
        } else {
            self.rect_size = (width, height);
            Ok(())
        }
    }

    /// `set_anchor_rect`: the rectangle's width and height must be at least one.
    pub fn set_anchor_rect(&mut self, x: i32, y: i32, width: i32, height: i32) -> (r: Result<
        (),
        PositionerError,
    >)
        ensures
            final(self).anchor_rect == anchor_rect_step(
                old(self).anchor_rect,
                Rectangle { x, y, width, height },
            ),
            *final(self) == (PositionerState { anchor_rect: final(self).anchor_rect, ..*old(self) }),
            width >= 1 && height >= 1 ==> r is Ok,
            !(width >= 1 && height >= 1) ==> r == Err::<(), _>(PositionerError::InvalidAnchorRect),
    {
        if width < 1 || height < 1 {
            Err(PositionerError::InvalidAnchorRect)
        } else {
            self.anchor_rect = Rectangle { x, y, width, height };
            Ok(())
        }
    }

    /// `set_anchor` with a v6 bit set; undefined combinations are refused.
    pub fn set_anchor(&mut self, bits: u32) -> (r: Result<(), PositionerError>)
        ensures
            match anchor_of_bits(bits) {
                Some(a) => r is Ok && *final(self) == (PositionerState {
                    anchor_edges: a,
                    ..*old(self)
                }),
                None => r == Err::<(), _>(PositionerError::InvalidAnchor) && *final(self)
                    == *old(self),
            },
    {
        match zxdg_anchor_to_xdg(bits) {
            Some(a) => {
                self.anchor_edges = a;
                Ok(())
            },
            None => Err(PositionerError::InvalidAnchor),
        }
    }

    /// `set_gravity` with a v6 bit set; undefined combinations are refused.
    pub fn set_gravity(&mut self, bits: u32) -> (r: Result<(), PositionerError>)
        ensures
            match gravity_of_bits(bits) {
                Some(g) => r is Ok && *final(self) == (PositionerState {
                    gravity: g,
                    ..*old(self)
                }),
                None => r == Err::<(), _>(PositionerError::InvalidGravity) && *final(self)
                    == *old(self),
            },
    {
        match zxdg_gravity_to_xdg(bits) {
            Some(g) => {
                self.gravity = g;
                Ok(())
            },
            None => Err(PositionerError::InvalidGravity),
        }
    }

    /// `set_constraint_adjustment`: bits the protocol does not define are
    /// dropped.
    pub fn set_constraint_adjustment(&mut self, bits: u32)
        ensures
            *final(self) == (PositionerState {
                constraint_adjustment: bits & CONSTRAINT_ADJUSTMENT_ALL,
                ..*old(self)
            }),
    {
        self.constraint_adjustment = zxdg_constraints_adg_to_xdg(bits);
    }

    /// `set_offset`: any offset is accepted.
    pub fn set_offset(&mut self, x: i32, y: i32)
        ensures
            *final(self) == (PositionerState { offset: (x, y), ..*old(self) }),
    {
        self.offset = (x, y);
    }
}

} // verus!
