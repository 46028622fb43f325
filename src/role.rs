//! The shell-surface role of one surface: its pending sub-role, window
//! geometry, and the configure/acknowledge handshake.
use vstd::prelude::*;

use crate::positioner::{PositionerState, Rectangle};

verus! {

/// A protocol violation by the client, raised on the shell object.
#[derive(Clone, Copy, Debug, PartialEq, Eq, Structural)]
pub enum ShellError {
    /// The surface already has a role.
    RoleConflict,
    /// The shell surface was destroyed while its toplevel or popup still existed.
    DestroyedBeforeRole,
    /// An acknowledged configure serial that was never sent, or was already
    /// acknowledged.
    WrongSerial(u32),
}

/// Wire code of the shell's `role` error.
pub const SHELL_ERROR_ROLE: u32 = 0;

/// Wire code of the shell's `invalid_surface_state` error.
pub const SHELL_ERROR_INVALID_SURFACE_STATE: u32 = 4;

/// The protocol error code of a shell error.
pub open spec fn shell_error_code(e: ShellError) -> u32 {
    match e {
        ShellError::RoleConflict => SHELL_ERROR_ROLE,
        ShellError::DestroyedBeforeRole => SHELL_ERROR_ROLE,
        ShellError::WrongSerial(_) => SHELL_ERROR_INVALID_SURFACE_STATE,
    }
}

impl ShellError {
    /// The protocol error code reported for this violation.
    pub fn code(&self) -> (r: u32)
        ensures
            r == shell_error_code(*self),
    {
        match self {
            ShellError::RoleConflict => SHELL_ERROR_ROLE,
            ShellError::DestroyedBeforeRole => SHELL_ERROR_ROLE,
            ShellError::WrongSerial(_) => SHELL_ERROR_INVALID_SURFACE_STATE,
        }
    }
}

/// Buffered state of a toplevel window. Surfaces are named by the integer
/// identity the compositor gives them.
#[derive(Debug)]
pub struct ToplevelState {
    pub parent: Option<u64>,
    pub title: String,
    pub app_id: String,
    pub min_size: (i32, i32),
    pub max_size: (i32, i32),
}

/// State of a popup: its parent surface and the placement rules copied from
/// the positioner it was created with.
#[derive(Clone, Copy, Debug)]
pub struct PopupState {
    pub parent: u64,
    pub positioner: PositionerState,
}

/// The sub-role a shell surface has asked for.
#[derive(Debug)]
pub enum PendingState {
    NoRole,
    Toplevel(ToplevelState),
    Popup(PopupState),
}

/// Role data of a shell surface.
#[derive(Debug)]
pub struct XdgSurfaceRole {
    pub pending_state: PendingState,
    pub window_geometry: Option<Rectangle>,
    /// Serials of the configures sent and not yet acknowledged, in send order.
    pub pending_configures: Vec<u32>,
    /// Whether the client has acknowledged a configure since the role began.
    pub configured: bool,
}

/// The serials that stay pending after `serial` is acknowledged.
pub open spec fn kept_after_ack(pending: Seq<u32>, serial: u32) -> Seq<u32> {
    pending.filter(|s: u32| s > serial)
}

/// Acknowledging `serial` keeps exactly the pending serials above it, in
/// their order, whether or not they were sent in increasing order: every
/// pending serial at or below `serial` is gone, every one above it stays.
pub proof fn lemma_ack_keeps_exactly_later(pending: Seq<u32>, serial: u32)
    ensures
        forall|x: u32|
            #[trigger] kept_after_ack(pending, serial).contains(x) <==> (pending.contains(x) && x
                > serial),
        forall|i: int|
            0 <= i < kept_after_ack(pending, serial).len() ==> #[trigger] kept_after_ack(
                pending,
                serial,
            )[i] > serial,
{
    let f = |s: u32| s > serial;
    let kept = pending.filter(f);
    assert forall|i: int| 0 <= i < kept.len() implies #[trigger] kept[i] > serial by {
        pending.lemma_filter_pred(f, i);
    }
    assert forall|x: u32| #[trigger] kept.contains(x) <==> (pending.contains(x) && x > serial) by {
        if pending.contains(x) && x > serial {
            let k = choose|k: int| 0 <= k < pending.len() && pending[k] == x;
            pending.lemma_filter_contains(f, k);
        }
        if kept.contains(x) {
            let k = choose|k: int| 0 <= k < kept.len() && kept[k] == x;
            pending.lemma_filter_pred(f, k);
            pending.lemma_filter_contains_rev(f, x);
        }
    }
}

/// What an acknowledgement of `serial` does to a role: it drops every pending
/// serial not above `serial`, marks the surface configured, and fails when
/// `serial` was not pending.
pub open spec fn ack_post(
    prev: XdgSurfaceRole,
    next: XdgSurfaceRole,
    serial: u32,
    r: Result<(), ShellError>,
) -> bool {
    &&& next.pending_configures@ == kept_after_ack(prev.pending_configures@, serial)
    &&& next.configured
    &&& next.pending_state == prev.pending_state
    &&& next.window_geometry == prev.window_geometry
    &&& r == if prev.pending_configures@.contains(serial) {
        Ok::<(), ShellError>(())
    } else {
        Err(ShellError::WrongSerial(serial))
    }
}

/// What tearing down the sub-role does: no sub-role is pending and the
/// surface counts as not configured.
pub open spec fn cleared_post(prev: XdgSurfaceRole, next: XdgSurfaceRole) -> bool {
    &&& next.pending_state is NoRole
    &&& !next.configured
    &&& next.window_geometry == prev.window_geometry
    &&& next.pending_configures@ == prev.pending_configures@
}

/// `next` has the window geometry and handshake state of `prev`.
pub open spec fn keeps_handshake(prev: XdgSurfaceRole, next: XdgSurfaceRole) -> bool {
    &&& next.window_geometry == prev.window_geometry
    &&& next.pending_configures@ == prev.pending_configures@
    &&& next.configured == prev.configured
}

/// A toplevel as first requested: no parent, empty title and application id,
/// no size hints.
pub open spec fn is_fresh_toplevel(p: PendingState) -> bool {
    p matches PendingState::Toplevel(t) && t.parent is None && t.title@ == Seq::<char>::empty()
        && t.app_id@ == Seq::<char>::empty() && t.min_size == (0i32, 0i32) && t.max_size == (
    0i32, 0i32)
}

impl XdgSurfaceRole {
    /// Role data of a surface that has just become a shell surface.
    pub fn new() -> (r: XdgSurfaceRole)
        ensures
            r.pending_state is NoRole,
            r.window_geometry is None,
            r.pending_configures@ == Seq::<u32>::empty(),
            !r.configured,
    {
        XdgSurfaceRole {
            pending_state: PendingState::NoRole,
            window_geometry: None,
            pending_configures: Vec::new(),
            configured: false,
        }
    }

    /// `ack_configure`: the acknowledgement covers `serial` and every earlier
    /// pending serial. The surface is marked configured even when the serial
    /// was unknown, in which case the error is returned as well.
    pub fn ack_configure(&mut self, serial: u32) -> (r: Result<(), ShellError>)
        ensures
            ack_post(*old(self), *final(self), serial, r),
    {
        let ghost prev = self.pending_configures@;
        let mut kept: Vec<u32> = Vec::new();
        let mut found = false;
        let mut i: usize = 0;
        while i < self.pending_configures.len()
            invariant
                self.pending_configures@ == prev,
                0 <= i <= prev.len(),
                kept@ == kept_after_ack(prev.subrange(0, i as int), serial),
                found == prev.subrange(0, i as int).contains(serial),
            decreases prev.len() - i,
        {
            let s = self.pending_configures[i];
            proof {
                let next = prev.subrange(0, i as int + 1);
                assert(next.drop_last() == prev.subrange(0, i as int));
                assert(next.last() == s);
                reveal(Seq::filter);
                assert(next.contains(serial) <==> (prev.subrange(0, i as int).contains(serial)
                    || s == serial)) by {
                    if s == serial {
                        assert(next[i as int] == serial);
                    }
                    if next.contains(serial) {
                        let k = choose|k: int| 0 <= k < next.len() && next[k] == serial;
                        if k < i {
                            assert(prev.subrange(0, i as int)[k] == serial);
                        }
                    }
                    if prev.subrange(0, i as int).contains(serial) {
                        let k = choose|k: int|
                            0 <= k < i && prev.subrange(0, i as int)[k] == serial;
                        assert(next[k] == serial);
                    }
                }
            }
            if s == serial {
                found = true;
            }
            if s > serial {
                kept.push(s);
            }
            i = i + 1;
        }
        assert(prev.subrange(0, prev.len() as int) == prev);
        self.pending_configures = kept;
        self.configured = true;
        if found {
            Ok(())
        } else {
            Err(ShellError::WrongSerial(serial))
        }
    }

    /// Records a configure that was just sent as pending.
    pub fn push_configure(&mut self, serial: u32)
        ensures
            final(self).pending_configures@ == old(self).pending_configures@.push(serial),
            final(self).pending_state == old(self).pending_state,
            final(self).window_geometry == old(self).window_geometry,
            final(self).configured == old(self).configured,
    {
        self.pending_configures.push(serial);
    }

    /// The surface becomes a toplevel with no parent, empty title and
    /// application id, and no size hints.
    pub fn set_toplevel(&mut self)
        ensures
            is_fresh_toplevel(final(self).pending_state),
            keeps_handshake(*old(self), *final(self)),
    {
        self.pending_state = PendingState::Toplevel(
            ToplevelState {
                parent: None,
                title: String::new(),
                app_id: String::new(),
                min_size: (0, 0),
                max_size: (0, 0),
            },
        );
    }

    /// The surface becomes a popup of `parent`, placed by a copy of
    /// `positioner` as it is now.
    pub fn set_popup(&mut self, parent: u64, positioner: &PositionerState)
        ensures
            final(self).pending_state == PendingState::Popup(
                PopupState { parent, positioner: *positioner },
            ),
            keeps_handshake(*old(self), *final(self)),
    {
        self.pending_state = PendingState::Popup(PopupState { parent, positioner: *positioner });
    }

    /// `set_window_geometry`: stored as given.
    pub fn set_window_geometry(&mut self, geometry: Rectangle)
        ensures
            final(self).window_geometry == Some(geometry),
            final(self).pending_state == old(self).pending_state,
            final(self).pending_configures@ == old(self).pending_configures@,
            final(self).configured == old(self).configured,
    {
        self.window_geometry = Some(geometry);
    }

    /// Tears the sub-role down, as when its toplevel or popup object goes away.
    pub fn clear_role(&mut self)
        ensures
            cleared_post(*old(self), *final(self)),
    {
        self.pending_state = PendingState::NoRole;
        self.configured = false;
    }

    /// Whether the shell surface may be destroyed now: not while a toplevel
    /// or popup is pending on it.
    pub fn check_destroy(&self) -> (r: Result<(), ShellError>)
        ensures
            r == if self.pending_state is NoRole {
                Ok::<(), ShellError>(())
            } else {
                Err(ShellError::DestroyedBeforeRole)
            },
    {
        match self.pending_state {
            PendingState::NoRole => Ok(()),
            _ => Err(ShellError::DestroyedBeforeRole),
        }
    }

    /// `set_parent` of a toplevel: `None` makes it a top-most window.
    pub fn set_parent(&mut self, parent: Option<u64>)
        requires
            old(self).pending_state is Toplevel,
        ensures
            final(self).pending_state == PendingState::Toplevel(
                ToplevelState { parent, ..old(self).pending_state->Toplevel_0 },
            ),
            keeps_handshake(*old(self), *final(self)),
    {
        match &mut self.pending_state {
            PendingState::Toplevel(t) => {
                t.parent = parent;
            },
            _ => {},
        }
    }

    /// `set_title` of a toplevel.
    pub fn set_title(&mut self, title: String)
        requires
            old(self).pending_state is Toplevel,
        ensures
            final(self).pending_state == PendingState::Toplevel(
                ToplevelState { title, ..old(self).pending_state->Toplevel_0 },
            ),
            keeps_handshake(*old(self), *final(self)),
    {
        match &mut self.pending_state {
            PendingState::Toplevel(t) => {
                t.title = title;
            },
            _ => {},
        }
    }

    /// `set_app_id` of a toplevel.
    pub fn set_app_id(&mut self, app_id: String)
        requires
            old(self).pending_state is Toplevel,
        ensures
            final(self).pending_state == PendingState::Toplevel(
                ToplevelState { app_id, ..old(self).pending_state->Toplevel_0 },
            ),
            keeps_handshake(*old(self), *final(self)),
    {
        match &mut self.pending_state {
            PendingState::Toplevel(t) => {
                t.app_id = app_id;
            },
            _ => {},
        }
    }

    /// `set_min_size` of a toplevel.
    pub fn set_min_size(&mut self, width: i32, height: i32)
        requires
            old(self).pending_state is Toplevel,
        ensures
            final(self).pending_state == PendingState::Toplevel(
                ToplevelState { min_size: (width, height), ..old(self).pending_state->Toplevel_0 },
            ),
            keeps_handshake(*old(self), *final(self)),
    {
        match &mut self.pending_state {
            PendingState::Toplevel(t) => {
                t.min_size = (width, height);
            },
            _ => {},
        }
    }

    /// `set_max_size` of a toplevel.
    pub fn set_max_size(&mut self, width: i32, height: i32)
        requires
            old(self).pending_state is Toplevel,
        ensures
            final(self).pending_state == PendingState::Toplevel(
                ToplevelState { max_size: (width, height), ..old(self).pending_state->Toplevel_0 },
            ),
            keeps_handshake(*old(self), *final(self)),
    {
        match &mut self.pending_state {
            PendingState::Toplevel(t) => {
                t.max_size = (width, height);
            },
            _ => {},
        }
    }
}

} // verus!
