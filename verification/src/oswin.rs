//! The window/surface lifecycle state machine.
//!
//! [`OswinManager`] owns the bookkeeping of every OS window the application
//! has: the per-window surface state (`Active` with a device binding and
//! physical size, or `Suspended` with no GPU resources), the per-window
//! scene buffer, and the device-keyed renderer pool. The unverified shell
//! performs the GPU work — creating surfaces and renderers, submitting and
//! presenting frames — and consults the manager for every decision: which
//! windows need a surface, whether a device still needs a renderer, whether
//! a resize or redraw applies at all, and when the process should exit.

use vstd::prelude::*;
use crate::app_core::Core;
use crate::canvas::Canvas;
use crate::canvas::Color;
use crate::canvas::GlyphRunCmd;

verus! {

/// The surface state of one window: exactly one of the two holds at any
/// time. `Active` records the identity of the GPU device the presentation
/// surface was created on and the surface's physical size in pixels;
/// `Suspended` holds no GPU resources.
#[derive(Clone, Copy, PartialEq, Eq, Structural, Debug)]
pub enum OswinState {
    Active { dev_id: u64, width: u32, height: u32 },
    Suspended,
}

/// One managed window: its identity, its surface state, and its own scene
/// buffer.
#[derive(PartialEq, Debug)]
pub struct Oswin {
    pub id: u64,
    pub state: OswinState,
    pub canvas: Canvas,
}

/// The antialiasing mode a frame is rendered with: area coverage, or 8x or
/// 16x multisampling.
#[derive(Clone, Copy, PartialEq, Eq, Structural, Debug)]
pub enum AaMode {
    Area,
    Msaa8,
    Msaa16,
}

/// The presentation mode a window's surface is created with.
#[derive(Clone, Copy, PartialEq, Eq, Structural, Debug)]
pub enum PresentMode {
    Immediate,
    Fifo,
    AutoVsync,
}

/// Everything the shell needs to submit one frame of an active window: the
/// renderer pool key, the surface's physical size, and the render
/// parameters.
#[derive(Clone, Copy, PartialEq, Eq, Structural, Debug)]
pub struct FramePlan {
    pub dev_id: u64,
    pub width: u32,
    pub height: u32,
    pub background: Color,
    pub aa: AaMode,
}

/// A window after the `Suspended -> Active` transition with the given
/// surface; a window already active is left as it is.
pub open spec fn resumed_window(o: Oswin, dev_id: u64, width: u32, height: u32) -> Oswin {
    if o.state is Suspended {
        Oswin { state: OswinState::Active { dev_id, width, height }, ..o }
    } else {
        o
    }
}

/// A window after the `Active -> Suspended` transition: the surface is
/// dropped, the identity and scene buffer stay.
pub open spec fn suspended_window(o: Oswin) -> Oswin {
    Oswin { state: OswinState::Suspended, ..o }
}

/// A window after a resize: an active surface keeps its device binding and
/// takes the new physical size; a suspended window is untouched.
pub open spec fn resized_window(o: Oswin, width: u32, height: u32) -> Oswin {
    match o.state {
        OswinState::Active { dev_id, .. } => Oswin {
            state: OswinState::Active { dev_id, width, height },
            ..o
        },
        OswinState::Suspended => o,
    }
}

/// The window sequence with the first window of identity `id` removed.
pub open spec fn remove_window(s: Seq<Oswin>, id: u64) -> Seq<Oswin>
    decreases s.len(),
{
    if s.len() == 0 {
        Seq::empty()
    } else if s[0].id == id {
        s.drop_first()
    } else {
        seq![s[0]] + remove_window(s.drop_first(), id)
    }
}

/// The ids of the suspended windows, in bookkeeping order.
pub open spec fn suspended_ids(s: Seq<Oswin>) -> Seq<u64>
    decreases s.len(),
{
    if s.len() == 0 {
        Seq::empty()
    } else {
        let rest = suspended_ids(s.drop_first());
        if s[0].state is Suspended {
            seq![s[0].id] + rest
        } else {
            rest
        }
    }
}

/// Removing an identity that is not present leaves the windows as they are.
proof fn lemma_remove_window_none(s: Seq<Oswin>, id: u64)
    requires
        forall|j: int| 0 <= j < s.len() ==> s[j].id != id,
    ensures
        remove_window(s, id) == s,
    decreases s.len(),
{
    if s.len() > 0 {
        lemma_remove_window_none(s.drop_first(), id);
        assert(seq![s[0]] + s.drop_first() =~= s);
    }
}

/// Removing an identity whose first occurrence stands at `idx` removes
/// exactly that element.
proof fn lemma_remove_window_at(s: Seq<Oswin>, id: u64, idx: int)
    requires
        0 <= idx < s.len(),
        s[idx].id == id,
        forall|j: int| 0 <= j < idx ==> s[j].id != id,
    ensures
        remove_window(s, id) == s.remove(idx),
    decreases idx,
{
    if idx == 0 {
        assert(s.remove(0) =~= s.drop_first());
    } else {
        lemma_remove_window_at(s.drop_first(), id, idx - 1);
        assert(seq![s[0]] + s.drop_first().remove(idx - 1) =~= s.remove(idx));
    }
}

/// Whether the renderer pool already holds an entry for `dev_id`.
fn pool_contains(renderers: &Vec<u64>, dev_id: u64) -> (r: bool)
    ensures
        r == renderers@.contains(dev_id),
{
    let n = renderers.len();
    let mut i: usize = 0;
    while i < n
        invariant
            i <= n,
            n == renderers@.len(),
            forall|j: int| 0 <= j < i ==> renderers@[j] != dev_id,
        decreases n - i,
    {
        if renderers[i] == dev_id {
            return true;
        }
        i = i + 1;
    }
    false
}

/// The mapping from window identity to per-window state, plus the
/// device-keyed renderer pool, tracked as the ids of the devices a renderer
/// was created for.
#[derive(PartialEq, Debug)]
pub struct OswinManager {
    pub oswins: Vec<Oswin>,
    pub renderers: Vec<u64>,
}

impl OswinManager {
    /// Whether a window of identity `id` is present.
    pub open spec fn has_window(self, id: u64) -> bool {
        exists|i: int|
            0 <= i < self.oswins@.len() && self.oswins@[i].id == id
    }

    /// The manager's invariant: window identities are unique, the renderer
    /// pool holds at most one entry per device identity, and every active
    /// window's device has a renderer in the pool.
    pub open spec fn wf(self) -> bool {
        &&& forall|i: int, j: int|
            0 <= i < self.oswins@.len() && 0 <= j < self.oswins@.len() && i != j
                ==> self.oswins@[i].id != self.oswins@[j].id
        &&& forall|i: int, j: int|
            0 <= i < self.renderers@.len() && 0 <= j < self.renderers@.len() && i != j
                ==> self.renderers@[i] != self.renderers@[j]
        &&& forall|i: int|
            0 <= i < self.oswins@.len() ==> (#[trigger] self.oswins@[i].state matches
                OswinState::Active { dev_id, .. } ==> self.renderers@.contains(dev_id))
    }

    /// Starts the bookkeeping with the single main window, suspended, an
    /// empty scene buffer at the given DPI scale factor, and an empty
    /// renderer pool.
    pub fn new(main_window_id: u64, scale_factor_milli: u32) -> (r: OswinManager)
        ensures
            r.wf(),
            r.oswins@.len() == 1,
            r.oswins@[0].id == main_window_id,
            r.oswins@[0].state == OswinState::Suspended,
            r.oswins@[0].canvas.scene_view() == Seq::<GlyphRunCmd>::empty(),
            r.oswins@[0].canvas.scale_factor_milli == scale_factor_milli,
            r.renderers@ == Seq::<u64>::empty(),
    {
        let main_oswin = Oswin {
            id: main_window_id,
            state: OswinState::Suspended,
            canvas: Canvas::new(scale_factor_milli),
        };
        let mut oswins: Vec<Oswin> = Vec::new();
        oswins.push(main_oswin);
        OswinManager { oswins, renderers: Vec::new() }
    }

    /// Finds the index of the window of identity `id`: the first match,
    /// which under the invariant is the only one.
    fn find_window_idx(&self, id: u64) -> (r: Option<usize>)
        ensures
            r matches Some(i) ==> i < self.oswins@.len() && self.oswins@[i as int].id == id
                && (forall|j: int| 0 <= j < i ==> self.oswins@[j].id != id),
            r is None ==> forall|j: int|
                0 <= j < self.oswins@.len() ==> self.oswins@[j].id != id,
    {
        let n = self.oswins.len();
        let mut i: usize = 0;
        while i < n
            invariant
                i <= n,
                n == self.oswins@.len(),
                forall|j: int| 0 <= j < i ==> self.oswins@[j].id != id,
            decreases n - i,
        {
            if self.oswins[i].id == id {
                return Some(i);
            }
            i = i + 1;
        }
        None
    }

    /// The ids of the windows currently suspended: the windows a resume
    /// pass must create presentation surfaces for, in bookkeeping order.
    pub fn suspended_windows(&self) -> (r: Vec<u64>)
        ensures
            r@ == suspended_ids(self.oswins@),
    {
        let ghost all = self.oswins@;
        let n = self.oswins.len();
        let mut r: Vec<u64> = Vec::new();
        let mut i: usize = 0;
        proof {
            assert(all.skip(0) =~= all);
        }
        while i < n
            invariant
                i <= n,
                n == all.len(),
                self.oswins@ == all,
                r@ + suspended_ids(all.skip(i as int)) == suspended_ids(all),
            decreases n - i,
        {
            proof {
                assert(all.skip(i as int)[0] == all[i as int]);
                assert(all.skip(i as int).drop_first() =~= all.skip(i as int + 1));
            }
            let ghost r_before = r@;
            if matches!(self.oswins[i].state, OswinState::Suspended) {
                r.push(self.oswins[i].id);
                proof {
                    assert(r_before + (seq![all[i as int].id] + suspended_ids(
                        all.skip(i as int + 1),
                    )) =~= r@ + suspended_ids(all.skip(i as int + 1)));
                }
            }
            i = i + 1;
        }
        proof {
            assert(suspended_ids(all.skip(n as int)) =~= Seq::<u64>::empty());
            assert(r@ + suspended_ids(all.skip(n as int)) =~= r@);
        }
        r
    }

    /// Completes the `Suspended -> Active` transition of window `id` after
    /// the shell created its presentation surface on device `dev_id` with
    /// the given physical size. The check for a missing renderer and its
    /// registration happen in this one step, so two windows resuming
    /// against the same device can never register it twice. Returns whether
    /// the shell must now create the renderer for `dev_id`. A window
    /// already active, and an unknown id, are left untouched.
    pub fn resume(&mut self, id: u64, dev_id: u64, width: u32, height: u32) -> (need_renderer:
        bool)
        requires
            old(self).wf(),
        ensures
            final(self).wf(),
            final(self).oswins@.len() == old(self).oswins@.len(),
            forall|i: int|
                0 <= i < old(self).oswins@.len() ==> final(self).oswins@[i] == (if old(
                    self,
                ).oswins@[i].id == id {
                    resumed_window(old(self).oswins@[i], dev_id, width, height)
                } else {
                    old(self).oswins@[i]
                }),
            ({
                let was_suspended = exists|i: int|
                    0 <= i < old(self).oswins@.len() && old(self).oswins@[i].id == id && old(
                        self,
                    ).oswins@[i].state is Suspended;
                let needs = was_suspended && !old(self).renderers@.contains(dev_id);
                &&& need_renderer == needs
                &&& final(self).renderers@ == (if needs {
                    old(self).renderers@.push(dev_id)
                } else {
                    old(self).renderers@
                })
            }),
    {
        let idx = match self.find_window_idx(id) {
            Some(i) => i,
            None => {
                return false;
            },
        };
        match self.oswins[idx].state {
            OswinState::Active { .. } => {
                proof {
                    assert(forall|i: int|
                        0 <= i < self.oswins@.len() && self.oswins@[i].id == id ==> i == idx);
                }
                false
            },
            OswinState::Suspended => {
                self.oswins[idx].state = OswinState::Active { dev_id, width, height };
                proof {
                    assert(forall|i: int|
                        0 <= i < old(self).oswins@.len() && old(self).oswins@[i].id == id ==> i
                            == idx);
                }
                if pool_contains(&self.renderers, dev_id) {
                    false
                } else {
                    self.renderers.push(dev_id);
                    proof {
                        assert(self.renderers@.contains(dev_id)) by {
                            assert(self.renderers@[self.renderers@.len() - 1] == dev_id);
                        }
                        assert(forall|d: u64|
                            old(self).renderers@.contains(d) ==> #[trigger] self.renderers@
                                .contains(d)) by {
                            assert forall|d: u64|
                                old(self).renderers@.contains(d) implies #[trigger] self
                                .renderers@.contains(d) by {
                                let k = choose|k: int|
                                    0 <= k < old(self).renderers@.len() && old(self).renderers@[k]
                                        == d;
                                assert(self.renderers@[k] == d);
                            }
                        }
                    }
                    true
                }
            },
        }
    }

    /// Suspends every window: each drops its surface, keeps its identity
    /// and scene buffer, and the renderer pool is retained.
    pub fn suspend(&mut self)
        requires
            old(self).wf(),
        ensures
            final(self).wf(),
            final(self).oswins@.len() == old(self).oswins@.len(),
            forall|i: int|
                0 <= i < old(self).oswins@.len() ==> final(self).oswins@[i] == suspended_window(
                    old(self).oswins@[i],
                ),
            final(self).renderers@ == old(self).renderers@,
    {
        let n = self.oswins.len();
        let mut i: usize = 0;
        while i < n
            invariant
                i <= n,
                n == old(self).oswins@.len(),
                self.oswins@.len() == n,
                self.renderers@ == old(self).renderers@,
                forall|j: int|
                    0 <= j < i ==> self.oswins@[j] == suspended_window(old(self).oswins@[j]),
                forall|j: int| i <= j < n ==> self.oswins@[j] == old(self).oswins@[j],
            decreases n - i,
        {
            self.oswins[i].state = OswinState::Suspended;
            i = i + 1;
        }
    }

    /// Closes window `id`: removes its entry, whose surface and scene
    /// buffer are thereby released, and keeps every other window and the
    /// renderer pool. Afterwards `id` is absent. Returns whether the
    /// application should exit: exactly when this call removed the last
    /// window. An unknown id changes nothing and never asks for an exit.
    pub fn close(&mut self, id: u64) -> (should_exit: bool)
        requires
            old(self).wf(),
        ensures
            final(self).wf(),
            final(self).oswins@ == remove_window(old(self).oswins@, id),
            final(self).renderers@ == old(self).renderers@,
            !final(self).has_window(id),
            should_exit == (old(self).has_window(id) && remove_window(old(self).oswins@, id).len()
                == 0),
    {
        let idx = match self.find_window_idx(id) {
            Some(i) => i,
            None => {
                proof {
                    lemma_remove_window_none(self.oswins@, id);
                }
                return false;
            },
        };
        let ghost s1 = self.oswins@;
        let _closed = self.oswins.remove(idx);
        proof {
            lemma_remove_window_at(s1, id, idx as int);
            let s2 = self.oswins@;
            assert forall|i: int|
                0 <= i < s2.len() implies #[trigger] s2[i] == (if i < idx {
                s1[i]
            } else {
                s1[i + 1]
            }) by {
                assert(s2 == s1.subrange(0, idx as int) + s1.subrange(
                    idx as int + 1,
                    s1.len() as int,
                ));
            }
            assert forall|i: int|
                0 <= i < s2.len() implies #[trigger] s2[i].id != id by {
                if i < idx {
                    assert(s2[i] == s1[i]);
                } else {
                    assert(s2[i] == s1[i + 1]);
                }
            }
        }
        self.oswins.is_empty()
    }

    /// Resizes window `id` in place: an active surface keeps its device
    /// binding and takes the new physical size, so neither the renderer
    /// pool nor anything else changes. A suspended window, and an unknown
    /// id, are left untouched. Returns whether a surface was resized, so
    /// the shell knows whether to resize the presentation surface.
    pub fn resize(&mut self, id: u64, width: u32, height: u32) -> (resized: bool)
        requires
            old(self).wf(),
        ensures
            final(self).wf(),
            final(self).oswins@.len() == old(self).oswins@.len(),
            forall|i: int|
                0 <= i < old(self).oswins@.len() ==> final(self).oswins@[i] == (if old(
                    self,
                ).oswins@[i].id == id {
                    resized_window(old(self).oswins@[i], width, height)
                } else {
                    old(self).oswins@[i]
                }),
            final(self).renderers@ == old(self).renderers@,
            resized == exists|i: int|
                0 <= i < old(self).oswins@.len() && old(self).oswins@[i].id == id && old(
                    self,
                ).oswins@[i].state is Active,
    {
        let idx = match self.find_window_idx(id) {
            Some(i) => i,
            None => {
                return false;
            },
        };
        proof {
            assert(forall|i: int|
                0 <= i < self.oswins@.len() && self.oswins@[i].id == id ==> i == idx);
        }
        match self.oswins[idx].state {
            OswinState::Active { dev_id, .. } => {
                self.oswins[idx].state = OswinState::Active { dev_id, width, height };
                true
            },
            OswinState::Suspended => false,
        }
    }

    /// Redraws window `id` if it is active: resets that window's scene
    /// buffer, renders the frame from `core` into it, and returns the plan
    /// the shell submits — the window's device and physical size, a black
    /// background and 16x multisampling. A suspended window, and an unknown
    /// id, are left untouched and yield no plan.
    pub fn redraw(&mut self, id: u64, core: &Core) -> (r: Option<FramePlan>)
        requires
            old(self).wf(),
            core.wf(),
        ensures
            final(self).wf(),
            final(self).oswins@.len() == old(self).oswins@.len(),
            final(self).renderers@ == old(self).renderers@,
            forall|i: int|
                0 <= i < old(self).oswins@.len() ==> (#[trigger] final(self).oswins@[i]).id == old(
                    self,
                ).oswins@[i].id && final(self).oswins@[i].state == old(self).oswins@[i].state,
            forall|i: int|
                0 <= i < old(self).oswins@.len() && !(old(self).oswins@[i].id == id && old(
                    self,
                ).oswins@[i].state is Active) ==> final(self).oswins@[i] == old(self).oswins@[i],
            r is None <==> !(exists|i: int|
                0 <= i < old(self).oswins@.len() && old(self).oswins@[i].id == id && old(
                    self,
                ).oswins@[i].state is Active),
            forall|i: int|
                0 <= i < old(self).oswins@.len() && old(self).oswins@[i].id == id ==> (old(
                    self,
                ).oswins@[i].state matches OswinState::Active { dev_id, width, height } ==> ({
                    let c = final(self).oswins@[i].canvas;
                    &&& r == Some(
                        FramePlan {
                            dev_id,
                            width,
                            height,
                            background: Color { r: 0, g: 0, b: 0, a: 255 },
                            aa: AaMode::Msaa16,
                        },
                    )
                    &&& c.scale_factor_milli == old(self).oswins@[i].canvas.scale_factor_milli
                    &&& c.scene_view().len() == 1
                    &&& core.frame_cmd_matches(c.scene_view()[0])
                })),
    {
        let idx = match self.find_window_idx(id) {
            Some(i) => i,
            None => {
                return None;
            },
        };
        proof {
            assert(forall|i: int|
                0 <= i < self.oswins@.len() && self.oswins@[i].id == id ==> i == idx);
        }
        match self.oswins[idx].state {
            OswinState::Active { dev_id, width, height } => {
                // the scene buffer is reset, not reallocated, every frame
                self.oswins[idx].canvas.reset();
                core.render(&mut self.oswins[idx].canvas);
                proof {
                    let c = self.oswins@[idx as int].canvas;
                    assert(c.scene_view().drop_last() =~= Seq::<GlyphRunCmd>::empty());
                    assert(c.scene_view()[0] == c.scene_view().last());
                }
                Some(
                    FramePlan {
                        dev_id,
                        width,
                        height,
                        background: Color { r: 0, g: 0, b: 0, a: 255 },
                        aa: AaMode::Msaa16,
                    },
                )
            },
            OswinState::Suspended => None,
        }
    }

    /// The presentation mode the shell creates every window's surface
    /// with: vertical synchronisation, chosen automatically by the backend.
    pub fn surface_present_mode(&self) -> (r: PresentMode)
        ensures
            r == PresentMode::AutoVsync,
    {
        PresentMode::AutoVsync
    }

    /// The scene buffer of window `id`, for the presentation step to
    /// consume after a redraw; `None` exactly for an unknown id.
    pub fn window_canvas(&self, id: u64) -> (r: Option<&Canvas>)
        requires
            self.wf(),
        ensures
            r is Some <==> self.has_window(id),
            r matches Some(c) ==> exists|i: int|
                0 <= i < self.oswins@.len() && self.oswins@[i].id == id && c == self.oswins@[i]
                    .canvas,
    {
        match self.find_window_idx(id) {
            Some(i) => Some(&self.oswins[i].canvas),
            None => None,
        }
    }
}

/// A window's surface state alternates correctly: resuming a suspended
/// window makes it active on the given surface, suspending any window makes
/// it suspended, and a resize of a suspended window changes nothing at all.
pub proof fn lemma_state_alternation(o: Oswin, dev_id: u64, width: u32, height: u32)
    ensures
        o.state is Suspended ==> resumed_window(o, dev_id, width, height).state
            == (OswinState::Active { dev_id, width, height }),
        suspended_window(o).state is Suspended,
        o.state is Active ==> resumed_window(o, dev_id, width, height) == o,
        o.state is Suspended ==> resized_window(o, width, height) == o,
        suspended_window(resumed_window(o, dev_id, width, height)) == suspended_window(o),
{
}

/// The application is asked to exit exactly once: only the close that
/// removes the last window returns `true`, and on the emptied manager every
/// further close finds no window, changes nothing, and returns `false`.
pub proof fn lemma_exit_signaled_once(m: OswinManager, id: u64)
    requires
        m.wf(),
        m.oswins@.len() == 0,
    ensures
        !m.has_window(id),
        remove_window(m.oswins@, id) == m.oswins@,
{
    assert(remove_window(m.oswins@, id) =~= m.oswins@);
}

/// The renderer pool never holds two entries for the same device identity:
/// under the manager's invariant, which every operation preserves, any two
/// equal pool entries are the same entry — lazy renderer creation is
/// idempotent per device.
pub proof fn lemma_renderer_pool_unique(m: OswinManager)
    requires
        m.wf(),
    ensures
        forall|i: int, j: int|
            0 <= i < m.renderers@.len() && 0 <= j < m.renderers@.len() && m.renderers@[i]
                == m.renderers@[j] ==> i == j,
{
}

} // verus!
