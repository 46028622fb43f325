use xdg_shell_core::configure::{
    encode_states, host_is_little_endian, PopupConfigure, ToplevelConfigure, WindowState,
};
use xdg_shell_core::positioner::{PositionerState, Rectangle};
use xdg_shell_core::role::{PendingState, ShellError, XdgSurfaceRole};
use xdg_shell_core::shell::{send_popup_configure, send_toplevel_configure, Shell, ShellClientData};

fn role(shell: &Shell, surface: u64) -> &XdgSurfaceRole {
    let i = shell.find(surface).expect("surface has the shell role");
    &shell.roles[i].role
}

fn toplevel_shell(surface: u64) -> Shell {
    let mut shell = Shell::new();
    assert_eq!(shell.get_xdg_surface(surface), Ok(()));
    shell.get_toplevel(surface);
    shell
}

#[test]
fn toplevel_handshake_end_to_end() {
    let mut shell = Shell::new();
    assert_eq!(shell.get_xdg_surface(1), Ok(()));
    shell.get_toplevel(1);
    assert_eq!(shell.toplevels(), vec![1]);
    let ev = send_toplevel_configure(
        &mut shell,
        1,
        ToplevelConfigure { size: Some((800, 600)), states: Vec::new(), serial: 1 },
    );
    assert_eq!((ev.width, ev.height, ev.serial), (800, 600, 1));
    assert!(ev.states.is_empty());
    assert_eq!(role(&shell, 1).pending_configures, vec![1]);
    assert!(!role(&shell, 1).configured);
    assert_eq!(shell.ack_configure(1, 1), Ok(()));
    assert!(role(&shell, 1).configured);
    assert!(role(&shell, 1).pending_configures.is_empty());
}

#[test]
fn early_ack_covers_earlier_serials() {
    let mut shell = toplevel_shell(3);
    for serial in [5u32, 7] {
        send_toplevel_configure(
            &mut shell,
            3,
            ToplevelConfigure { size: None, states: Vec::new(), serial },
        );
    }
    assert_eq!(role(&shell, 3).pending_configures, vec![5, 7]);
    assert_eq!(shell.ack_configure(3, 7), Ok(()));
    assert!(role(&shell, 3).pending_configures.is_empty());
    assert!(role(&shell, 3).configured);
    assert_eq!(shell.ack_configure(3, 5), Err(ShellError::WrongSerial(5)));
    assert!(role(&shell, 3).configured);
    assert_eq!(ShellError::WrongSerial(5).code(), 4);
}

#[test]
fn ack_keeps_only_later_serials_in_any_order() {
    let mut r = XdgSurfaceRole::new();
    for serial in [3u32, 9, 1, 6] {
        r.push_configure(serial);
    }
    assert_eq!(r.ack_configure(5), Err(ShellError::WrongSerial(5)));
    assert_eq!(r.pending_configures, vec![9, 6]);
    assert!(r.configured);
    assert_eq!(r.ack_configure(6), Ok(()));
    assert_eq!(r.pending_configures, vec![9]);
}

#[test]
fn ack_of_middle_serial() {
    let mut r = XdgSurfaceRole::new();
    for serial in [1u32, 2, 3] {
        r.push_configure(serial);
    }
    assert_eq!(r.ack_configure(2), Ok(()));
    assert_eq!(r.pending_configures, vec![3]);
    assert!(r.configured);
}

#[test]
fn ack_with_nothing_pending_fails_but_configures() {
    let mut r = XdgSurfaceRole::new();
    assert_eq!(r.ack_configure(0), Err(ShellError::WrongSerial(0)));
    assert!(r.configured);
    assert!(r.pending_configures.is_empty());
}

#[test]
fn second_shell_role_is_refused() {
    let mut shell = Shell::new();
    assert_eq!(shell.get_xdg_surface(8), Ok(()));
    shell.set_window_geometry(8, Rectangle { x: 1, y: 2, width: 30, height: 40 });
    assert_eq!(shell.get_xdg_surface(8), Err(ShellError::RoleConflict));
    assert_eq!(ShellError::RoleConflict.code(), 0);
    assert_eq!(shell.roles.len(), 1);
    assert_eq!(
        role(&shell, 8).window_geometry,
        Some(Rectangle { x: 1, y: 2, width: 30, height: 40 })
    );
    assert_eq!(shell.get_xdg_surface(9), Ok(()));
    assert_eq!(shell.roles.len(), 2);
    assert!(shell.is_shell_surface(9));
    assert!(!shell.is_shell_surface(10));
}

#[test]
fn destroying_toplevel_of_live_surface_resets_role() {
    let mut shell = toplevel_shell(4);
    send_toplevel_configure(&mut shell, 4, ToplevelConfigure { size: None, states: Vec::new(), serial: 2 });
    assert_eq!(shell.ack_configure(4, 2), Ok(()));
    assert_eq!(shell.destroy_surface(4), Err(ShellError::DestroyedBeforeRole));
    shell.destroy_toplevel(4);
    assert!(matches!(role(&shell, 4).pending_state, PendingState::NoRole));
    assert!(!role(&shell, 4).configured);
    assert_eq!(shell.destroy_surface(4), Ok(()));
    assert_eq!(shell.toplevels(), Vec::<u64>::new());
    shell.get_toplevel(4);
    assert_eq!(shell.toplevels(), vec![4]);
}

#[test]
fn destroying_one_toplevel_keeps_the_others_listed() {
    let mut shell = Shell::new();
    for s in [1u64, 2, 3] {
        assert_eq!(shell.get_xdg_surface(s), Ok(()));
        shell.get_toplevel(s);
    }
    shell.get_popup(3, 1, &PositionerState::new());
    shell.surface_destroyed(3);
    shell.destroy_toplevel(2);
    assert_eq!(shell.known_toplevels, vec![1]);
    assert_eq!(shell.known_popups, vec![3]);
    shell.destroy_popup(3);
    assert_eq!(shell.known_popups, Vec::<u64>::new());
}

#[test]
fn destroying_toplevel_of_dead_surface_changes_nothing() {
    let mut shell = toplevel_shell(4);
    assert_eq!(shell.get_xdg_surface(5), Ok(()));
    shell.get_toplevel(5);
    shell.surface_destroyed(4);
    assert!(!shell.is_shell_surface(4));
    assert_eq!(shell.destroy_surface(4), Ok(()));
    shell.destroy_toplevel(4);
    assert_eq!(shell.roles.len(), 1);
    assert!(matches!(role(&shell, 5).pending_state, PendingState::Toplevel(_)));
    assert_eq!(shell.toplevels(), vec![5]);
}

#[test]
fn registry_reads_prune_dead_surfaces() {
    let mut shell = Shell::new();
    for s in [1u64, 2, 3] {
        assert_eq!(shell.get_xdg_surface(s), Ok(()));
        shell.get_toplevel(s);
    }
    shell.surface_destroyed(2);
    assert_eq!(shell.known_toplevels, vec![1, 2, 3]);
    assert_eq!(shell.toplevels(), vec![1, 3]);
    assert_eq!(shell.known_toplevels, vec![1, 3]);
    assert_eq!(shell.live_of(&vec![3, 2, 1, 7]), vec![3, 1]);
}

#[test]
fn popup_keeps_positioner_snapshot() {
    let mut shell = Shell::new();
    assert_eq!(shell.get_xdg_surface(1), Ok(()));
    assert_eq!(shell.get_xdg_surface(2), Ok(()));
    shell.get_toplevel(1);
    let mut pos = PositionerState::new();
    assert_eq!(pos.set_size(50, 20), Ok(()));
    assert_eq!(pos.set_anchor_rect(0, 0, 10, 10), Ok(()));
    shell.get_popup(2, 1, &pos);
    assert_eq!(pos.set_size(99, 99), Ok(()));
    match &role(&shell, 2).pending_state {
        PendingState::Popup(p) => {
            assert_eq!(p.parent, 1);
            assert_eq!(p.positioner.rect_size, (50, 20));
            assert_eq!(p.positioner.anchor_rect, Rectangle { x: 0, y: 0, width: 10, height: 10 });
        }
        _ => panic!("surface 2 should be a popup"),
    }
    assert_eq!(shell.popups(), vec![2]);
    assert_eq!(shell.known_popups, vec![2]);
    let ev = send_popup_configure(
        &mut shell,
        2,
        PopupConfigure { position: (5, 6), size: (50, 20), serial: 11 },
    );
    assert_eq!((ev.x, ev.y, ev.width, ev.height, ev.serial), (5, 6, 50, 20, 11));
    assert_eq!(role(&shell, 2).pending_configures, vec![11]);
    shell.destroy_popup(2);
    assert!(matches!(role(&shell, 2).pending_state, PendingState::NoRole));
    assert_eq!(shell.popups(), Vec::<u64>::new());
}

#[test]
fn toplevel_configure_encodes_states() {
    let mut shell = toplevel_shell(1);
    let ev = send_toplevel_configure(
        &mut shell,
        1,
        ToplevelConfigure {
            size: None,
            states: vec![WindowState::Maximized, WindowState::Activated, WindowState::TiledBottom],
            serial: 4,
        },
    );
    assert_eq!((ev.width, ev.height), (0, 0));
    let expected: Vec<u8> = [1u32, 4, 8].iter().flat_map(|v| v.to_ne_bytes()).collect();
    assert_eq!(ev.states, expected);
    send_toplevel_configure(&mut shell, 1, ToplevelConfigure { size: None, states: Vec::new(), serial: 4 });
    assert_eq!(role(&shell, 1).pending_configures, vec![4, 4]);
}

#[test]
fn toplevel_requests_update_buffered_state() {
    let mut shell = toplevel_shell(1);
    assert_eq!(shell.get_xdg_surface(2), Ok(()));
    shell.get_toplevel(2);
    shell.set_title(1, "editor".to_string());
    shell.set_app_id(1, "org.example.Editor".to_string());
    shell.set_min_size(1, 100, 50);
    shell.set_max_size(1, 800, 600);
    shell.set_parent(1, Some(2));
    match &role(&shell, 1).pending_state {
        PendingState::Toplevel(t) => {
            assert_eq!(t.title, "editor");
            assert_eq!(t.app_id, "org.example.Editor");
            assert_eq!(t.min_size, (100, 50));
            assert_eq!(t.max_size, (800, 600));
            assert_eq!(t.parent, Some(2));
        }
        _ => panic!("surface 1 should be a toplevel"),
    }
    shell.set_parent(1, None);
    match &role(&shell, 1).pending_state {
        PendingState::Toplevel(t) => {
            assert_eq!(t.parent, None);
            assert_eq!(t.title, "editor");
        }
        _ => panic!("surface 1 should be a toplevel"),
    }
    match &role(&shell, 2).pending_state {
        PendingState::Toplevel(t) => assert!(t.title.is_empty() && t.min_size == (0, 0)),
        _ => panic!("surface 2 should be a toplevel"),
    }
}

#[test]
fn pong_must_answer_the_ping_in_flight() {
    let mut client = ShellClientData::new();
    assert!(!client.pong(0));
    client.pending_ping = 42;
    assert!(!client.pong(41));
    assert_eq!(client.pending_ping, 42);
    assert!(client.pong(42));
    assert_eq!(client.pending_ping, 0);
    assert!(!client.pong(42));
}

#[test]
fn host_byte_order_is_detected() {
    assert_eq!(host_is_little_endian(), 1u32.to_ne_bytes()[0] == 1);
}

#[test]
fn state_words_in_either_byte_order() {
    let states = vec![WindowState::Fullscreen, WindowState::TiledLeft];
    assert_eq!(encode_states(&states, true), vec![2, 0, 0, 0, 5, 0, 0, 0]);
    assert_eq!(encode_states(&states, false), vec![0, 0, 0, 2, 0, 0, 0, 5]);
    assert!(encode_states(&Vec::new(), true).is_empty());
}
