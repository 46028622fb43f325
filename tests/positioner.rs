use xdg_shell_core::placement::{
    xdg_anchor_to_zxdg, xdg_edge_raw, xdg_gravity_to_zxdg, zxdg_anchor_to_xdg,
    zxdg_constraints_adg_to_xdg, zxdg_edges_to_xdg, zxdg_gravity_to_xdg, Anchor, Gravity,
    ResizeEdge,
};
use xdg_shell_core::positioner::{PositionerError, PositionerState, Rectangle};

fn rect(x: i32, y: i32, width: i32, height: i32) -> Rectangle {
    Rectangle { x, y, width, height }
}

#[test]
fn new_positioner_is_zeroed() {
    let p = PositionerState::new();
    assert_eq!(p.rect_size, (0, 0));
    assert_eq!(p.anchor_rect, rect(0, 0, 0, 0));
    assert_eq!(p.anchor_edges, Anchor::Center);
    assert_eq!(p.gravity, Gravity::Center);
    assert_eq!(p.constraint_adjustment, 0);
    assert_eq!(p.offset, (0, 0));
}

#[test]
fn anchor_rect_keeps_last_valid_value() {
    let mut p = PositionerState::new();
    assert_eq!(p.set_anchor_rect(1, 2, 3, 4), Ok(()));
    assert_eq!(p.anchor_rect, rect(1, 2, 3, 4));
    assert_eq!(p.set_anchor_rect(5, 5, 0, 3), Err(PositionerError::InvalidAnchorRect));
    assert_eq!(p.anchor_rect, rect(1, 2, 3, 4));
    assert_eq!(p.set_anchor_rect(5, 5, 3, -1), Err(PositionerError::InvalidAnchorRect));
    assert_eq!(p.anchor_rect, rect(1, 2, 3, 4));
    assert_eq!(p.set_anchor_rect(-9, 9, 10, 1), Ok(()));
    assert_eq!(p.anchor_rect, rect(-9, 9, 10, 1));
}

#[test]
fn anchor_rect_of_zero_width_is_refused() {
    let mut p = PositionerState::new();
    assert_eq!(p.set_anchor_rect(0, 0, 0, 10), Err(PositionerError::InvalidAnchorRect));
    assert_eq!(p.anchor_rect, rect(0, 0, 0, 0));
    assert_eq!(PositionerError::InvalidAnchorRect.code(), 0);
}

#[test]
fn size_must_be_positive() {
    let mut p = PositionerState::new();
    assert_eq!(p.set_size(0, 5), Err(PositionerError::InvalidSize));
    assert_eq!(p.rect_size, (0, 0));
    assert_eq!(p.set_size(300, 200), Ok(()));
    assert_eq!(p.rect_size, (300, 200));
    assert_eq!(p.set_size(1, 0), Err(PositionerError::InvalidSize));
    assert_eq!(p.rect_size, (300, 200));
}

#[test]
fn anchor_and_gravity_requests() {
    let mut p = PositionerState::new();
    assert_eq!(p.set_anchor(5), Ok(()));
    assert_eq!(p.anchor_edges, Anchor::TopLeft);
    assert_eq!(p.set_anchor(3), Err(PositionerError::InvalidAnchor));
    assert_eq!(p.anchor_edges, Anchor::TopLeft);
    assert_eq!(p.set_gravity(10), Ok(()));
    assert_eq!(p.gravity, Gravity::BottomRight);
    assert_eq!(p.set_gravity(12), Err(PositionerError::InvalidGravity));
    assert_eq!(p.gravity, Gravity::BottomRight);
}

#[test]
fn constraint_adjustment_drops_unknown_bits() {
    let mut p = PositionerState::new();
    p.set_constraint_adjustment(0xff);
    assert_eq!(p.constraint_adjustment, 63);
    p.set_constraint_adjustment(0x41);
    assert_eq!(p.constraint_adjustment, 1);
    assert_eq!(zxdg_constraints_adg_to_xdg(0x24), 0x24);
}

#[test]
fn offset_is_stored() {
    let mut p = PositionerState::new();
    p.set_offset(-4, 7);
    assert_eq!(p.offset, (-4, 7));
}

#[test]
fn anchor_bits_round_trip_or_are_refused() {
    let mut defined = 0;
    for bits in 0u32..16 {
        match zxdg_anchor_to_xdg(bits) {
            Some(a) => {
                defined += 1;
                assert_eq!(xdg_anchor_to_zxdg(a), bits);
            }
            None => assert!([3, 7, 11, 12, 13, 14, 15].contains(&bits)),
        }
    }
    assert_eq!(defined, 9);
    assert_eq!(zxdg_anchor_to_xdg(9), Some(Anchor::TopRight));
    assert_eq!(zxdg_anchor_to_xdg(16), None);
    for a in [
        Anchor::Center,
        Anchor::Top,
        Anchor::Bottom,
        Anchor::Left,
        Anchor::Right,
        Anchor::TopLeft,
        Anchor::BottomLeft,
        Anchor::TopRight,
        Anchor::BottomRight,
    ] {
        assert_eq!(zxdg_anchor_to_xdg(xdg_anchor_to_zxdg(a)), Some(a));
    }
}

#[test]
fn gravity_bits_round_trip_or_are_refused() {
    let mut defined = 0;
    for bits in 0u32..16 {
        match zxdg_gravity_to_xdg(bits) {
            Some(g) => {
                defined += 1;
                assert_eq!(xdg_gravity_to_zxdg(g), bits);
            }
            None => assert!([3, 7, 11, 12, 13, 14, 15].contains(&bits)),
        }
    }
    assert_eq!(defined, 9);
    assert_eq!(zxdg_gravity_to_xdg(6), Some(Gravity::BottomLeft));
    assert_eq!(zxdg_gravity_to_xdg(8), Some(Gravity::Right));
}

#[test]
fn resize_edges_map_by_name() {
    assert_eq!(zxdg_edges_to_xdg(0), ResizeEdge::NoEdge);
    assert_eq!(zxdg_edges_to_xdg(1), ResizeEdge::Top);
    assert_eq!(zxdg_edges_to_xdg(6), ResizeEdge::BottomLeft);
    assert_eq!(zxdg_edges_to_xdg(9), ResizeEdge::TopRight);
    assert_eq!(zxdg_edges_to_xdg(10), ResizeEdge::BottomRight);
    assert_eq!(zxdg_edges_to_xdg(3), ResizeEdge::NoEdge);
    assert_eq!(zxdg_edges_to_xdg(100), ResizeEdge::NoEdge);
    for raw in [0u32, 1, 2, 4, 5, 6, 8, 9, 10] {
        assert_eq!(xdg_edge_raw(zxdg_edges_to_xdg(raw)), raw);
    }
}
