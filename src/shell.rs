//! State shared by one shell global: the shell role of each surface, keyed by
//! the surface's identity, and the lists of live toplevels and popups.
//!
//! A surface is alive while it has a slot here; when the compositor destroys
//! it, `surface_destroyed` removes the slot.
use vstd::prelude::*;

use crate::configure::{
    encode_states, host_is_little_endian, states_bytes, PopupConfigure, PopupConfigureEvent, ToplevelConfigure,
    ToplevelConfigureEvent,
};
use crate::positioner::{PositionerState, Rectangle};
use crate::role::{
    ack_post, cleared_post, is_fresh_toplevel, keeps_handshake, PendingState, PopupState,
    ShellError, ToplevelState, XdgSurfaceRole,
};

verus! {

/// The shell role of one surface.
#[derive(Debug)]
pub struct RoleSlot {
    pub surface: u64,
    pub role: XdgSurfaceRole,
}

/// Role data of every shell surface, and the registry of live toplevels and
/// popups in creation order.
#[derive(Debug)]
pub struct Shell {
    pub roles: Vec<RoleSlot>,
    pub known_toplevels: Vec<u64>,
    pub known_popups: Vec<u64>,
}

/// Per-client record of the ping in flight; zero when none is.
#[derive(Clone, Copy, Debug, PartialEq, Eq, Structural)]
pub struct ShellClientData {
    pub pending_ping: u32,
}

impl ShellClientData {
    /// A client with no ping in flight.
    pub fn new() -> (r: ShellClientData)
        ensures
            r.pending_ping == 0,
    {
        ShellClientData { pending_ping: 0 }
    }

    /// `pong`: valid only when it answers the ping in flight, which it then
    /// clears. Any other pong is ignored.
    pub fn pong(&mut self, serial: u32) -> (r: bool)
        ensures
            r == (old(self).pending_ping != 0 && old(self).pending_ping == serial),
            r ==> final(self).pending_ping == 0,
            !r ==> *final(self) == *old(self),
    {
        if self.pending_ping != 0 && self.pending_ping == serial {
            self.pending_ping = 0;
            true
        } else {
            false
        }
    }
}

/// No two slots belong to the same surface.
pub open spec fn slots_unique(roles: Seq<RoleSlot>) -> bool {
    forall|i: int, j: int|
        0 <= i < roles.len() && 0 <= j < roles.len() && roles[i].surface == roles[j].surface
            ==> i == j
}

/// Slot `i` holds the role of `surface`.
pub open spec fn slot_of(roles: Seq<RoleSlot>, surface: u64, i: int) -> bool {
    0 <= i < roles.len() && roles[i].surface == surface
}

/// Some slot holds the role of `surface`.
pub open spec fn slots_have(roles: Seq<RoleSlot>, surface: u64) -> bool {
    exists|i: int| slot_of(roles, surface, i)
}

/// The role data in the slot of `surface`.
pub open spec fn role_in(roles: Seq<RoleSlot>, surface: u64) -> XdgSurfaceRole {
    roles[choose|i: int| slot_of(roles, surface, i)].role
}

/// What `get_xdg_surface` does: a surface that already has the role keeps
/// its role data untouched and the request fails; any other surface gets a
/// new slot, at the end, with fresh role data.
pub open spec fn assign_post(prev: Shell, next: Shell, surface: u64, r: Result<(), ShellError>) -> bool {
    &&& next.has_role(surface)
    &&& prev.has_role(surface) ==> r == Err::<(), _>(ShellError::RoleConflict) && next == prev
    &&& !prev.has_role(surface) ==> {
        &&& r is Ok
        &&& next.roles@.drop_last() == prev.roles@
        &&& next.roles@.last().surface == surface
        &&& next.known_toplevels@ == prev.known_toplevels@
        &&& next.known_popups@ == prev.known_popups@
        &&& next.role_of(surface).pending_state is NoRole
        &&& next.role_of(surface).window_geometry is None
        &&& next.role_of(surface).pending_configures@.len() == 0
        &&& !next.role_of(surface).configured
    }
}

/// A surface cannot take the shell-surface role twice: whatever the first
/// `get_xdg_surface` did, a second one on the same surface fails with a role
/// conflict and leaves every role, the surface's own included, as it was.
pub proof fn lemma_role_given_once(
    s0: Shell,
    s1: Shell,
    s2: Shell,
    surface: u64,
    r1: Result<(), ShellError>,
    r2: Result<(), ShellError>,
)
    requires
        assign_post(s0, s1, surface, r1),
        assign_post(s1, s2, surface, r2),
    ensures
        r2 == Err::<(), ShellError>(ShellError::RoleConflict),
        s2 == s1,
        s2.role_of(surface) == s1.role_of(surface),
{
}

impl Shell {
    /// No surface has more than one slot.
    pub open spec fn wf(&self) -> bool {
        slots_unique(self.roles@)
    }

    /// Slot `i` holds the role of `surface`.
    pub open spec fn slot_at(&self, surface: u64, i: int) -> bool {
        slot_of(self.roles@, surface, i)
    }

    /// Whether `surface` is alive and has the shell-surface role.
    pub open spec fn has_role(&self, surface: u64) -> bool {
        slots_have(self.roles@, surface)
    }

    /// The role data of `surface`, when it has the role.
    pub open spec fn role_of(&self, surface: u64) -> XdgSurfaceRole {
        role_in(self.roles@, surface)
    }

    /// `next` differs from `self` at most in the role data of `surface`.
    pub open spec fn only_role_changed(&self, next: &Shell, surface: u64) -> bool {
        &&& next.roles@.len() == self.roles@.len()
        &&& forall|i: int|
            #![trigger next.roles@[i]]
            0 <= i < self.roles@.len() ==> next.roles@[i].surface == self.roles@[i].surface && (
            self.roles@[i].surface != surface ==> next.roles@[i] == self.roles@[i])
        &&& next.known_toplevels@ == self.known_toplevels@
        &&& next.known_popups@ == self.known_popups@
    }

    /// The role of a surface is the one in its slot.
    proof fn lemma_role_at(&self, surface: u64, i: int)
        requires
            self.wf(),
            self.slot_at(surface, i),
        ensures
            self.has_role(surface),
            self.role_of(surface) == self.roles@[i].role,
    {
    }

    /// A change confined to the slot of `surface` keeps the slots unique,
    /// keeps which surfaces have the role, and keeps every other role.
    proof fn lemma_only_role_changed(&self, next: &Shell, surface: u64, i: int)
        requires
            self.wf(),
            self.slot_at(surface, i),
            self.only_role_changed(next, surface),
        ensures
            next.wf(),
            next.slot_at(surface, i),
            next.has_role(surface),
            next.role_of(surface) == next.roles@[i].role,
            forall|s: u64| #[trigger] next.has_role(s) == self.has_role(s),
            forall|s: u64| s != surface && self.has_role(s) ==> #[trigger] next.role_of(s)
                == self.role_of(s),
    {
        assert forall|a: int, b: int|
            0 <= a < next.roles@.len() && 0 <= b < next.roles@.len() && next.roles@[a].surface
                == next.roles@[b].surface implies a == b by {
            assert(self.roles@[a].surface == next.roles@[a].surface);
            assert(self.roles@[b].surface == next.roles@[b].surface);
        }
        assert(next.slot_at(surface, i));
        next.lemma_role_at(surface, i);
        assert forall|s: u64| #[trigger] next.has_role(s) == self.has_role(s) by {
            if next.has_role(s) {
                let k = choose|k: int| slot_of(next.roles@, s, k);
                assert(self.slot_at(s, k));
            }
            if self.has_role(s) {
                let k = choose|k: int| slot_of(self.roles@, s, k);
                assert(next.slot_at(s, k));
            }
        }
        assert forall|s: u64| s != surface && self.has_role(s) implies #[trigger] next.role_of(s)
            == self.role_of(s) by {
            let k = choose|k: int| slot_of(self.roles@, s, k);
            assert(next.slot_at(s, k));
        }
    }

    /// A shell with no surfaces.
    pub fn new() -> (r: Shell)
        ensures
            r.wf(),
            r.roles@.len() == 0,
            r.known_toplevels@ == Seq::<u64>::empty(),
            r.known_popups@ == Seq::<u64>::empty(),
    {
        Shell { roles: Vec::new(), known_toplevels: Vec::new(), known_popups: Vec::new() }
    }

    /// The slot of `surface`, if it has one.
    pub fn find(&self, surface: u64) -> (r: Option<usize>)
        requires
            self.wf(),
        ensures
            match r {
                Some(i) => self.slot_at(surface, i as int),
                None => !self.has_role(surface),
            },
    {
        let mut i: usize = 0;
        while i < self.roles.len()
            invariant
                0 <= i <= self.roles@.len(),
                forall|k: int| 0 <= k < i ==> self.roles@[k].surface != surface,
            decreases self.roles@.len() - i,
        {
            if self.roles[i].surface == surface {
                return Some(i);
            }
            i = i + 1;
        }
        None
    }

    /// Whether `surface` is alive and has the shell-surface role.
    pub fn is_shell_surface(&self, surface: u64) -> (r: bool)
        requires
            self.wf(),
        ensures
            r == self.has_role(surface),
    {
        match self.find(surface) {
            Some(_) => true,
            None => false,
        }
    }

    /// `get_xdg_surface`: gives `surface` the shell-surface role. A surface
    /// that already has it keeps its role data, and the request fails.
    pub fn get_xdg_surface(&mut self, surface: u64) -> (r: Result<(), ShellError>)
        requires
            old(self).wf(),
        ensures
            final(self).wf(),
            assign_post(*old(self), *final(self), surface, r),
    {
        match self.find(surface) {
            Some(i) => {
                proof {
                    self.lemma_role_at(surface, i as int);
                }
                Err(ShellError::RoleConflict)
            },
            None => {
                let ghost prev = self.roles@;
                self.roles.push(RoleSlot { surface, role: XdgSurfaceRole::new() });
                proof {
                    assert(self.roles@.drop_last() == prev);
                    assert forall|i: int, j: int|
                        0 <= i < self.roles@.len() && 0 <= j < self.roles@.len()
                            && self.roles@[i].surface == self.roles@[j].surface implies i
                        == j by {
                        if i < prev.len() {
                            assert(old(self).slot_at(self.roles@[i].surface, i));
                        }
                        if j < prev.len() {
                            assert(old(self).slot_at(self.roles@[j].surface, j));
                        }
                    }
                    self.lemma_role_at(surface, prev.len() as int);
                }
                Ok(())
            },
        }
    }
    /// The slot of a surface known to have the role.
    fn index_of(&self, surface: u64) -> (r: usize)
        requires
            self.wf(),
            self.has_role(surface),
        ensures
            self.slot_at(surface, r as int),
            self.role_of(surface) == self.roles@[r as int].role,
    {
        match self.find(surface) {
            Some(i) => {
                proof {
                    self.lemma_role_at(surface, i as int);
                }
                i
            },
            None => {
                proof {
                    assert(false);
                }
                0
            },
        }
    }

    /// `ack_configure` on the shell surface of `surface`.
    pub fn ack_configure(&mut self, surface: u64, serial: u32) -> (r: Result<(), ShellError>)
        requires
            old(self).wf(),
            old(self).has_role(surface),
        ensures
            final(self).wf(),
            old(self).only_role_changed(&*final(self), surface),
            final(self).has_role(surface),
            ack_post(old(self).role_of(surface), final(self).role_of(surface), serial, r),
    {
        let ghost prev = *self;
        let i = self.index_of(surface);
        let r = self.roles[i].role.ack_configure(serial);
        proof {
            prev.lemma_only_role_changed(&*self, surface, i as int);
        }
        r
    }
    /// `get_toplevel`: the surface's pending sub-role becomes a fresh
    /// toplevel, which joins the registry of toplevels.
    pub fn get_toplevel(&mut self, surface: u64)
        requires
            old(self).wf(),
            old(self).has_role(surface),
        ensures
            final(self).wf(),
            final(self).has_role(surface),
            is_fresh_toplevel(final(self).role_of(surface).pending_state),
            keeps_handshake(old(self).role_of(surface), final(self).role_of(surface)),
            (Shell { known_toplevels: old(self).known_toplevels, ..*final(self) }).only_role_changed(
                &*old(self), surface),
            final(self).known_toplevels@ == old(self).known_toplevels@.push(surface),
    {
        self.known_toplevels.push(surface);
        let ghost prev = *self;
        assert(prev.roles@ == old(self).roles@);
        let i = self.index_of(surface);
        self.roles[i].role.set_toplevel();
        proof {
            prev.lemma_only_role_changed(&*self, surface, i as int);
        }
    }
    /// `get_popup`: the surface's pending sub-role becomes a popup of
    /// `parent`, placed by a copy of `positioner`; the popup joins the
    /// registry of popups.
    pub fn get_popup(&mut self, surface: u64, parent: u64, positioner: &PositionerState)
        requires
            old(self).wf(),
            old(self).has_role(surface),
        ensures
            final(self).wf(),
            final(self).has_role(surface),
            final(self).role_of(surface).pending_state == PendingState::Popup(
                PopupState { parent, positioner: *positioner },
            ),
            keeps_handshake(old(self).role_of(surface), final(self).role_of(surface)),
            (Shell { known_popups: old(self).known_popups, ..*final(self) }).only_role_changed(
                &*old(self), surface),
            final(self).known_popups@ == old(self).known_popups@.push(surface),
    {
        self.known_popups.push(surface);
        let ghost prev = *self;
        assert(prev.roles@ == old(self).roles@);
        let i = self.index_of(surface);
        self.roles[i].role.set_popup(parent, positioner);
        proof {
            prev.lemma_only_role_changed(&*self, surface, i as int);
        }
    }

    /// `set_window_geometry` on the shell surface of `surface`.
    pub fn set_window_geometry(&mut self, surface: u64, geometry: Rectangle)
        requires
            old(self).wf(),
            old(self).has_role(surface),
        ensures
            final(self).wf(),
            old(self).only_role_changed(&*final(self), surface),
            final(self).has_role(surface),
            final(self).role_of(surface).window_geometry == Some(geometry),
            final(self).role_of(surface).pending_state == old(self).role_of(surface).pending_state,
            final(self).role_of(surface).pending_configures@ == old(self).role_of(
                surface,
            ).pending_configures@,
            final(self).role_of(surface).configured == old(self).role_of(surface).configured,
    {
        let ghost prev = *self;
        let i = self.index_of(surface);
        self.roles[i].role.set_window_geometry(geometry);
        proof {
            prev.lemma_only_role_changed(&*self, surface, i as int);
        }
    }

    /// `set_parent` of the toplevel of `surface`.
    pub fn set_parent(&mut self, surface: u64, parent: Option<u64>)
        requires
            old(self).wf(),
            old(self).has_role(surface),
            old(self).role_of(surface).pending_state is Toplevel,
        ensures
            final(self).wf(),
            old(self).only_role_changed(&*final(self), surface),
            final(self).has_role(surface),
            final(self).role_of(surface).pending_state == PendingState::Toplevel(
                ToplevelState { parent, ..old(self).role_of(surface).pending_state->Toplevel_0 },
            ),
            keeps_handshake(old(self).role_of(surface), final(self).role_of(surface)),
    {
        let ghost prev = *self;
        let i = self.index_of(surface);
        self.roles[i].role.set_parent(parent);
        proof {
            prev.lemma_only_role_changed(&*self, surface, i as int);
        }
    }

    /// `set_title` of the toplevel of `surface`.
    pub fn set_title(&mut self, surface: u64, title: String)
        requires
            old(self).wf(),
            old(self).has_role(surface),
            old(self).role_of(surface).pending_state is Toplevel,
        ensures
            final(self).wf(),
            old(self).only_role_changed(&*final(self), surface),
            final(self).has_role(surface),
            final(self).role_of(surface).pending_state == PendingState::Toplevel(
                ToplevelState { title, ..old(self).role_of(surface).pending_state->Toplevel_0 },
            ),
            keeps_handshake(old(self).role_of(surface), final(self).role_of(surface)),
    {
        let ghost prev = *self;
        let i = self.index_of(surface);
        self.roles[i].role.set_title(title);
        proof {
            prev.lemma_only_role_changed(&*self, surface, i as int);
        }
    }

    /// `set_app_id` of the toplevel of `surface`.
    pub fn set_app_id(&mut self, surface: u64, app_id: String)
        requires
            old(self).wf(),
            old(self).has_role(surface),
            old(self).role_of(surface).pending_state is Toplevel,
        ensures
            final(self).wf(),
            old(self).only_role_changed(&*final(self), surface),
            final(self).has_role(surface),
            final(self).role_of(surface).pending_state == PendingState::Toplevel(
                ToplevelState { app_id, ..old(self).role_of(surface).pending_state->Toplevel_0 },
            ),
            keeps_handshake(old(self).role_of(surface), final(self).role_of(surface)),
    {
        let ghost prev = *self;
        let i = self.index_of(surface);
        self.roles[i].role.set_app_id(app_id);
        proof {
            prev.lemma_only_role_changed(&*self, surface, i as int);
        }
    }

    /// `set_min_size` of the toplevel of `surface`.
    pub fn set_min_size(&mut self, surface: u64, width: i32, height: i32)
        requires
            old(self).wf(),
            old(self).has_role(surface),
            old(self).role_of(surface).pending_state is Toplevel,
        ensures
            final(self).wf(),
            old(self).only_role_changed(&*final(self), surface),
            final(self).has_role(surface),
            final(self).role_of(surface).pending_state == PendingState::Toplevel(
                ToplevelState { min_size: (width, height), ..old(self).role_of(surface).pending_state->Toplevel_0 },
            ),
            keeps_handshake(old(self).role_of(surface), final(self).role_of(surface)),
    {
        let ghost prev = *self;
        let i = self.index_of(surface);
        self.roles[i].role.set_min_size(width, height);
        proof {
            prev.lemma_only_role_changed(&*self, surface, i as int);
        }
    }

    /// `set_max_size` of the toplevel of `surface`.
    pub fn set_max_size(&mut self, surface: u64, width: i32, height: i32)
        requires
            old(self).wf(),
            old(self).has_role(surface),
            old(self).role_of(surface).pending_state is Toplevel,
        ensures
            final(self).wf(),
            old(self).only_role_changed(&*final(self), surface),
            final(self).has_role(surface),
            final(self).role_of(surface).pending_state == PendingState::Toplevel(
                ToplevelState { max_size: (width, height), ..old(self).role_of(surface).pending_state->Toplevel_0 },
            ),
            keeps_handshake(old(self).role_of(surface), final(self).role_of(surface)),
    {
        let ghost prev = *self;
        let i = self.index_of(surface);
        self.roles[i].role.set_max_size(width, height);
        proof {
            prev.lemma_only_role_changed(&*self, surface, i as int);
        }
    }

    /// The entries of `list` whose surface is still alive, in order.
    pub fn live_of(&self, list: &Vec<u64>) -> (r: Vec<u64>)
        requires
            self.wf(),
        ensures
            r@ == list@.filter(|h: u64| self.has_role(h)),
    {
        let mut out: Vec<u64> = Vec::new();
        let mut i: usize = 0;
        while i < list.len()
            invariant
                self.wf(),
                0 <= i <= list@.len(),
                out@ == list@.subrange(0, i as int).filter(|h: u64| self.has_role(h)),
            decreases list@.len() - i,
        {
            let h = list[i];
            proof {
                let next = list@.subrange(0, i as int + 1);
                assert(next.drop_last() == list@.subrange(0, i as int));
                assert(next.last() == h);
                reveal(Seq::filter);
            }
            if self.is_shell_surface(h) {
                out.push(h);
            }
            i = i + 1;
        }
        assert(list@.subrange(0, list@.len() as int) == list@);
        out
    }

    /// The entries of `list` other than `gone` whose surface is still alive,
    /// in order.
    pub fn live_except(&self, list: &Vec<u64>, gone: u64) -> (r: Vec<u64>)
        requires
            self.wf(),
        ensures
            r@ == list@.filter(|h: u64| h != gone && self.has_role(h)),
    {
        let mut out: Vec<u64> = Vec::new();
        let mut i: usize = 0;
        while i < list.len()
            invariant
                self.wf(),
                0 <= i <= list@.len(),
                out@ == list@.subrange(0, i as int).filter(|h: u64| h != gone && self.has_role(h)),
            decreases list@.len() - i,
        {
            let h = list[i];
            proof {
                let next = list@.subrange(0, i as int + 1);
                assert(next.drop_last() == list@.subrange(0, i as int));
                assert(next.last() == h);
                reveal(Seq::filter);
            }
            if h != gone && self.is_shell_surface(h) {
                out.push(h);
            }
            i = i + 1;
        }
        assert(list@.subrange(0, list@.len() as int) == list@);
        out
    }

    /// Whether the shell surface of `surface` may be destroyed: a surface
    /// that is already gone may always be, a live one only once its toplevel
    /// or popup is gone.
    pub fn destroy_surface(&self, surface: u64) -> (r: Result<(), ShellError>)
        requires
            self.wf(),
        ensures
            r == if self.has_role(surface) && !(self.role_of(surface).pending_state is NoRole) {
                Err::<(), _>(ShellError::DestroyedBeforeRole)
            } else {
                Ok(())
            },
    {
        match self.find(surface) {
            Some(i) => {
                proof {
                    self.lemma_role_at(surface, i as int);
                }
                self.roles[i].role.check_destroy()
            },
            None => Ok(()),
        }
    }

    /// Clears the sub-role of `surface` if it is still alive; a surface that
    /// died first is left alone.
    fn clear_role_if_alive(&mut self, surface: u64)
        requires
            old(self).wf(),
        ensures
            final(self).wf(),
            old(self).only_role_changed(&*final(self), surface),
            forall|s: u64| #[trigger] final(self).has_role(s) == old(self).has_role(s),
            old(self).has_role(surface) ==> cleared_post(
                old(self).role_of(surface),
                final(self).role_of(surface),
            ),
            !old(self).has_role(surface) ==> final(self).roles@ == old(self).roles@,
    {
        let ghost prev = *self;
        match self.find(surface) {
            Some(i) => {
                proof {
                    self.lemma_role_at(surface, i as int);
                }
                self.roles[i].role.clear_role();
                proof {
                    prev.lemma_only_role_changed(&*self, surface, i as int);
                }
            },
            None => {},
        }
    }

    /// The toplevel object of `surface` is gone: if the surface is alive its
    /// sub-role is torn down. The registry of toplevels drops the entries of
    /// `surface`, whose toplevel this was, and every entry whose surface has
    /// died.
    pub fn destroy_toplevel(&mut self, surface: u64)
        requires
            old(self).wf(),
        ensures
            final(self).wf(),
            (Shell { known_toplevels: old(self).known_toplevels, ..*final(self) }).only_role_changed(
                &*old(self), surface),
            old(self).has_role(surface) ==> final(self).has_role(surface) && cleared_post(
                old(self).role_of(surface),
                final(self).role_of(surface),
            ),
            !old(self).has_role(surface) ==> final(self).roles@ == old(self).roles@,
            final(self).known_toplevels@ == old(self).known_toplevels@.filter(
                |h: u64| h != surface && old(self).has_role(h),
            ),
    {
        let live = self.live_except(&self.known_toplevels, surface);
        self.clear_role_if_alive(surface);
        let ghost mid = *self;
        self.known_toplevels = live;
        assert(self.roles@ == mid.roles@);
        assert(self.has_role(surface) == mid.has_role(surface));
        assert(self.role_of(surface) == mid.role_of(surface));
    }

    /// The popup object of `surface` is gone: if the surface is alive its
    /// sub-role is torn down. The registry of popups drops the entries of
    /// `surface`, whose popup this was, and every entry whose surface has
    /// died.
    pub fn destroy_popup(&mut self, surface: u64)
        requires
            old(self).wf(),
        ensures
            final(self).wf(),
            (Shell { known_popups: old(self).known_popups, ..*final(self) }).only_role_changed(
                &*old(self), surface),
            old(self).has_role(surface) ==> final(self).has_role(surface) && cleared_post(
                old(self).role_of(surface),
                final(self).role_of(surface),
            ),
            !old(self).has_role(surface) ==> final(self).roles@ == old(self).roles@,
            final(self).known_popups@ == old(self).known_popups@.filter(
                |h: u64| h != surface && old(self).has_role(h),
            ),
    {
        let live = self.live_except(&self.known_popups, surface);
        self.clear_role_if_alive(surface);
        let ghost mid = *self;
        self.known_popups = live;
        assert(self.roles@ == mid.roles@);
        assert(self.has_role(surface) == mid.has_role(surface));
        assert(self.role_of(surface) == mid.role_of(surface));
    }

    /// The compositor destroyed `surface`: its role data goes away. The
    /// registries keep its entries until their next pruning.
    pub fn surface_destroyed(&mut self, surface: u64)
        requires
            old(self).wf(),
        ensures
            final(self).wf(),
            !final(self).has_role(surface),
            forall|s: u64| s != surface ==> #[trigger] final(self).has_role(s) == old(self).has_role(s),
            forall|s: u64|
                s != surface && old(self).has_role(s) ==> #[trigger] final(self).role_of(s) == old(
                    self,
                ).role_of(s),
            final(self).known_toplevels@ == old(self).known_toplevels@,
            final(self).known_popups@ == old(self).known_popups@,
    {
        let ghost prev = *self;
        match self.find(surface) {
            Some(i) => {
                let _gone = self.roles.remove(i);
                proof {
                    let n = self.roles@;
                    let p = prev.roles@;
                    assert(n == p.remove(i as int));
                    assert forall|a: int, b: int|
                        0 <= a < n.len() && 0 <= b < n.len() && n[a].surface == n[b].surface
                            implies a == b by {
                        let pa = if a < i { a } else { a + 1 };
                        let pb = if b < i { b } else { b + 1 };
                        assert(n[a] == p[pa]);
                        assert(n[b] == p[pb]);
                    }
                    assert(!self.has_role(surface)) by {
                        if self.has_role(surface) {
                            let k = choose|k: int| slot_of(n, surface, k);
                            let pk = if k < i { k } else { k + 1 };
                            assert(n[k] == p[pk]);
                        }
                    }
                    assert forall|s: u64|
                        #![trigger self.has_role(s)]
                        #![trigger self.role_of(s)]
                        s != surface implies self.has_role(s) == prev.has_role(s) && (
                        prev.has_role(s) ==> self.role_of(s) == prev.role_of(s)) by {
                        if prev.has_role(s) {
                            let k = choose|k: int| slot_of(p, s, k);
                            let nk = if k < i { k } else { k - 1 };
                            assert(n[nk] == p[k]);
                            assert(self.slot_at(s, nk));
                            self.lemma_role_at(s, nk);
                            prev.lemma_role_at(s, k);
                        }
                        if self.has_role(s) {
                            let k = choose|k: int| slot_of(n, s, k);
                            let pk = if k < i { k } else { k + 1 };
                            assert(n[k] == p[pk]);
                            assert(prev.slot_at(s, pk));
                        }
                    }
                }
            },
            None => {},
        }
    }

    /// The live toplevels, oldest first. Reading prunes the registry of
    /// toplevels whose surface has died.
    pub fn toplevels(&mut self) -> (r: Vec<u64>)
        requires
            old(self).wf(),
        ensures
            final(self).wf(),
            r@ == old(self).known_toplevels@.filter(|h: u64| old(self).has_role(h)),
            final(self).known_toplevels@ == r@,
            final(self).roles@ == old(self).roles@,
            final(self).known_popups@ == old(self).known_popups@,
    {
        let live = self.live_of(&self.known_toplevels);
        self.known_toplevels = live.clone();
        live
    }

    /// The live popups, oldest first. Reading prunes the registry of popups
    /// whose surface has died.
    pub fn popups(&mut self) -> (r: Vec<u64>)
        requires
            old(self).wf(),
        ensures
            final(self).wf(),
            r@ == old(self).known_popups@.filter(|h: u64| old(self).has_role(h)),
            final(self).known_popups@ == r@,
            final(self).roles@ == old(self).roles@,
            final(self).known_toplevels@ == old(self).known_toplevels@,
    {
        let live = self.live_of(&self.known_popups);
        self.known_popups = live.clone();
        live
    }
}

/// The width and height a toplevel configure carries: the proposed size, or
/// zero for "the client chooses".
pub open spec fn configure_size(size: Option<(i32, i32)>) -> (i32, i32) {
    match size {
        Some(wh) => wh,
        None => (0i32, 0i32),
    }
}

/// Sends a configure to the toplevel of `surface`: returns the event to put
/// on the wire, with the state array in the host's byte order, and records
/// its serial as pending on the surface.
pub fn send_toplevel_configure(shell: &mut Shell, surface: u64, configure: ToplevelConfigure) -> (r:
    ToplevelConfigureEvent)
    requires
        old(shell).wf(),
        old(shell).has_role(surface),
    ensures
        final(shell).wf(),
        old(shell).only_role_changed(&*final(shell), surface),
        final(shell).has_role(surface),
        (r.width, r.height) == configure_size(configure.size),
        r.states@ == states_bytes(configure.states@, true) || r.states@ == states_bytes(
            configure.states@,
            false,
        ),
        r.serial == configure.serial,
        final(shell).role_of(surface).pending_configures@ == old(shell).role_of(
            surface,
        ).pending_configures@.push(configure.serial),
        final(shell).role_of(surface).pending_state == old(shell).role_of(surface).pending_state,
        final(shell).role_of(surface).window_geometry == old(shell).role_of(
            surface,
        ).window_geometry,
        final(shell).role_of(surface).configured == old(shell).role_of(surface).configured,
{
    let (width, height) = match configure.size {
        Some(wh) => wh,
        None => (0, 0),
    };
    let little_endian = host_is_little_endian();
    let states = encode_states(&configure.states, little_endian);
    let serial = configure.serial;
    let ghost prev = *shell;
    let i = shell.index_of(surface);
    shell.roles[i].role.push_configure(serial);
    proof {
        prev.lemma_only_role_changed(&*shell, surface, i as int);
    }
    ToplevelConfigureEvent { width, height, states, serial }
}

/// Sends a configure to the popup of `surface`: returns the event to put on
/// the wire, and records its serial as pending on the surface.
pub fn send_popup_configure(shell: &mut Shell, surface: u64, configure: PopupConfigure) -> (r:
    PopupConfigureEvent)
    requires
        old(shell).wf(),
        old(shell).has_role(surface),
    ensures
        final(shell).wf(),
        old(shell).only_role_changed(&*final(shell), surface),
        final(shell).has_role(surface),
        (r.x, r.y) == configure.position,
        (r.width, r.height) == configure.size,
        r.serial == configure.serial,
        final(shell).role_of(surface).pending_configures@ == old(shell).role_of(
            surface,
        ).pending_configures@.push(configure.serial),
        final(shell).role_of(surface).pending_state == old(shell).role_of(surface).pending_state,
        final(shell).role_of(surface).window_geometry == old(shell).role_of(
            surface,
        ).window_geometry,
        final(shell).role_of(surface).configured == old(shell).role_of(surface).configured,
{
    let (x, y) = configure.position;
    let (width, height) = configure.size;
    let serial = configure.serial;
    let ghost prev = *shell;
    let i = shell.index_of(surface);
    shell.roles[i].role.push_configure(serial);
    proof {
        prev.lemma_only_role_changed(&*shell, surface, i as int);
    }
    PopupConfigureEvent { x, y, width, height, serial }
}

} // verus!
