//! The registry of preview surfaces.
//!
//! Every graph node may own one presentation surface. The registry keeps the
//! surfaces by node id, remembers which of them show the placeholder and
//! which are hidden, and decides what is drawn. It never draws: the caller
//! acquires the next image of the surface that [`PreviewManager::clear_target`]
//! or [`PreviewManager::preview_target`] names, reports the outcome as a
//! [`Frame`], and carries out the [`Draw`] that comes back.

use vstd::prelude::*;
use std::collections::HashMap;
use std::collections::HashSet;
use vstd::std_specs::iter::IteratorSpec;
use crate::letterbox::letterbox_uniforms;
use crate::letterbox::uniforms_for;
use crate::letterbox::LetterboxUniforms;
use crate::surface::preview_config;
use crate::surface::surface_config;
use crate::surface::SurfaceConfig;

verus! {

broadcast use vstd::std_specs::hash::group_hash_axioms;

/// What asking a surface for its next presentable image gave.
#[derive(Debug, Clone, Copy, PartialEq, Eq, Structural)]
pub enum Frame {
    /// An image of this size is ready to be drawn into.
    Acquired { width: u32, height: u32 },
    /// The surface was lost, outdated or timed out: skip this cycle.
    Unavailable,
}

/// What the caller has to do with the image it acquired.
#[derive(Debug, Clone, Copy, PartialEq, Eq, Structural)]
pub enum Draw {
    /// Nothing: drop the image, if there is one, without presenting it.
    Skip,
    /// Fill the image with black, submit and present.
    Clear,
    /// Write the inputs, bind the source texture, run the letterbox pass into
    /// the image and present.
    Composite(LetterboxUniforms),
}

/// The registry as the decisions see it: the registered ids, each with its
/// `cleared` flag, and the hidden ids.
pub struct PreviewState {
    pub cleared: Map<usize, bool>,
    pub hidden: Set<usize>,
}

impl PreviewState {
    /// No surface, nothing hidden.
    pub open spec fn empty() -> PreviewState {
        PreviewState { cleared: Map::empty(), hidden: Set::empty() }
    }

    /// Only registered ids are hidden.
    pub open spec fn wf(self) -> bool {
        self.hidden.subset_of(self.cleared.dom())
    }

    /// Whether node `id` has a surface.
    pub open spec fn registered(self, id: usize) -> bool {
        self.cleared.dom().contains(id)
    }

    /// A surface enters with stale content; whether the id is hidden stays.
    pub open spec fn register_surface(self, id: usize) -> PreviewState {
        PreviewState { cleared: self.cleared.insert(id, false), hidden: self.hidden }
    }

    /// The surface of `id` leaves, and with it the mark that hid it.
    pub open spec fn remove_surface(self, id: usize) -> PreviewState {
        PreviewState { cleared: self.cleared.remove(id), hidden: self.hidden.remove(id) }
    }

    /// Hiding and showing applies to registered ids only.
    pub open spec fn set_hidden(self, id: usize, hidden: bool) -> PreviewState {
        if !self.registered(id) {
            self
        } else if hidden {
            PreviewState { cleared: self.cleared, hidden: self.hidden.insert(id) }
        } else {
            PreviewState { cleared: self.cleared, hidden: self.hidden.remove(id) }
        }
    }

    /// The ids to redraw: registered and not hidden.
    pub open spec fn dirty(self) -> Set<usize> {
        self.cleared.dom().difference(self.hidden)
    }

    /// Whether a clear of `id` has anything to draw.
    pub open spec fn wants_clear(self, id: usize) -> bool {
        self.registered(id) && !self.cleared[id]
    }

    /// The same registry with the `cleared` flag of `id` set.
    pub open spec fn with_cleared(self, id: usize, cleared: bool) -> PreviewState {
        PreviewState { cleared: self.cleared.insert(id, cleared), hidden: self.hidden }
    }

    /// State and action after a clear of `id` for which `frame` was acquired.
    pub open spec fn clear(self, id: usize, frame: Frame) -> (PreviewState, Draw) {
        if self.wants_clear(id) && frame is Acquired {
            (self.with_cleared(id, true), Draw::Clear)
        } else {
            (self, Draw::Skip)
        }
    }

    /// State and action after an update of `id` for which `frame` was
    /// acquired.
    pub open spec fn update_preview(self, id: usize, frame: Frame) -> (PreviewState, Draw) {
        if !self.registered(id) {
            (self, Draw::Skip)
        } else {
            match frame {
                Frame::Acquired { width, height } => match uniforms_for(width, height) {
                    Some(uniforms) => (self.with_cleared(id, false), Draw::Composite(uniforms)),
                    None => (self, Draw::Skip),
                },
                Frame::Unavailable => (self, Draw::Skip),
            }
        }
    }
}

/// One registered surface.
struct SurfaceMeta<S> {
    surface: S,
    cleared: bool,
}

/// Owns the preview surface of every node; `S` is the surface handle.
pub struct PreviewManager<S> {
    hidden: HashSet<usize>,
    surfaces: HashMap<usize, SurfaceMeta<S>>,
}

impl<S> View for PreviewManager<S> {
    type V = PreviewState;

    closed spec fn view(&self) -> PreviewState {
        PreviewState {
            cleared: self.surfaces@.map_values(|meta: SurfaceMeta<S>| meta.cleared),
            hidden: self.hidden@,
        }
    }
}

/// Sets the `cleared` flag of the entry of `id`, which must exist.
fn set_cleared<S>(surfaces: &mut HashMap<usize, SurfaceMeta<S>>, id: usize, cleared: bool)
    requires
        old(surfaces)@.contains_key(id),
    ensures
        final(surfaces)@ == old(surfaces)@.insert(
            id,
            SurfaceMeta { surface: old(surfaces)@[id].surface, cleared },
        ),
{
    match surfaces.remove(&id) {
        Some(meta) => {
            surfaces.insert(id, SurfaceMeta { surface: meta.surface, cleared });
        },
        None => {},
    }
}

impl<S> PreviewManager<S> {
    /// The surface handles by node id.
    pub closed spec fn surfaces(&self) -> Map<usize, S> {
        self.surfaces@.map_values(|meta: SurfaceMeta<S>| meta.surface)
    }

    /// The ids that have a surface are the ids that have a `cleared` flag.
    pub proof fn lemma_surfaces_are_registered(&self)
        ensures
            self.surfaces().dom() == self@.cleared.dom(),
    {
        assert(self.surfaces().dom() =~= self@.cleared.dom());
    }

    /// An empty registry.
    pub fn new() -> (manager: Self)
        ensures
            manager@ == PreviewState::empty(),
            manager@.wf(),
            manager.surfaces() == Map::<usize, S>::empty(),
    {
        let manager = PreviewManager { hidden: HashSet::new(), surfaces: HashMap::new() };
        assert(manager@.cleared =~= Map::empty());
        assert(manager.surfaces() =~= Map::empty());
        manager
    }

    /// Takes ownership of the surface that was made for node `id` on a
    /// target of `width` by `height` pixels, and returns the configuration
    /// that the caller has to apply to it. The surface's content counts as
    /// stale; a surface that `id` had before is released.
    pub fn register_surface(&mut self, id: usize, surface: S, width: u32, height: u32) -> (config:
        SurfaceConfig)
        ensures
            config == preview_config(width, height),
            final(self)@ == old(self)@.register_surface(id),
            final(self).surfaces() == old(self).surfaces().insert(id, surface),
            old(self)@.wf() ==> final(self)@.wf(),
    {
        self.surfaces.insert(id, SurfaceMeta { surface, cleared: false });
        assert(self@.cleared =~= old(self)@.register_surface(id).cleared);
        assert(self.surfaces() =~= old(self).surfaces().insert(id, surface));
        surface_config(width, height)
    }

    /// Releases the surface of node `id` and forgets that it was hidden.
    /// Nothing happens where `id` has no surface.
    pub fn remove_surface(&mut self, id: usize)
        ensures
            final(self)@ == old(self)@.remove_surface(id),
            final(self).surfaces() == old(self).surfaces().remove(id),
            old(self)@.wf() ==> final(self)@.wf(),
    {
        self.hidden.remove(&id);
        self.surfaces.remove(&id);
        assert(self@.cleared =~= old(self)@.remove_surface(id).cleared);
        assert(self.surfaces() =~= old(self).surfaces().remove(id));
    }

    /// The surface of node `id`, if it has one.
    pub fn surface(&self, id: usize) -> (surface: Option<&S>)
        ensures
            match surface {
                Some(s) => self@.registered(id) && self.surfaces()[id] == *s,
                None => !self@.registered(id),
            },
    {
        match self.surfaces.get(&id) {
            Some(meta) => Some(&meta.surface),
            None => None,
        }
    }

    /// The surface whose next image a clear of `id` needs: none where `id`
    /// has no surface or the surface shows the placeholder already.
    pub fn clear_target(&self, id: usize) -> (surface: Option<&S>)
        ensures
            match surface {
                Some(s) => self@.wants_clear(id) && self.surfaces()[id] == *s,
                None => !self@.wants_clear(id),
            },
    {
        match self.surfaces.get(&id) {
            Some(meta) => if meta.cleared {
                None
            } else {
                Some(&meta.surface)
            },
            None => None,
        }
    }

    /// The surface whose next image an update of `id` needs: none where `id`
    /// has no surface.
    pub fn preview_target(&self, id: usize) -> (surface: Option<&S>)
        ensures
            match surface {
                Some(s) => self@.registered(id) && self.surfaces()[id] == *s,
                None => !self@.registered(id),
            },
    {
        self.surface(id)
    }

    /// Decides a clear of node `id`, given what acquiring the surface's next
    /// image gave. The surface is filled with black, and marked as cleared,
    /// where it exists, is not cleared already and the image was acquired;
    /// otherwise nothing is drawn and nothing changes.
    pub fn clear(&mut self, id: usize, frame: Frame) -> (draw: Draw)
        ensures
            (final(self)@, draw) == old(self)@.clear(id, frame),
            final(self).surfaces() == old(self).surfaces(),
            old(self)@.wf() ==> final(self)@.wf(),
    {
        let wanted = match self.surfaces.get(&id) {
            Some(meta) => !meta.cleared,
            None => false,
        };
        let acquired = match frame {
            Frame::Acquired { .. } => true,
            Frame::Unavailable => false,
        };
        if wanted && acquired {
            set_cleared(&mut self.surfaces, id, true);
            assert(self@.cleared =~= old(self)@.with_cleared(id, true).cleared);
            assert(self.surfaces() =~= old(self).surfaces());
            Draw::Clear
        } else {
            Draw::Skip
        }
    }

    /// Decides an update of node `id`, given what acquiring the surface's
    /// next image gave. Where the surface exists and an image with height was
    /// acquired, the letterbox pass is to be run with inputs for that image,
    /// and the surface no longer counts as cleared; otherwise nothing is
    /// drawn and nothing changes.
    pub fn update_preview(&mut self, id: usize, frame: Frame) -> (draw: Draw)
        ensures
            (final(self)@, draw) == old(self)@.update_preview(id, frame),
            final(self).surfaces() == old(self).surfaces(),
            old(self)@.wf() ==> final(self)@.wf(),
    {
        if !self.surfaces.contains_key(&id) {
            return Draw::Skip;
        }
        match frame {
            Frame::Acquired { width, height } => match letterbox_uniforms(width, height) {
                Some(uniforms) => {
                    set_cleared(&mut self.surfaces, id, false);
                    assert(self@.cleared =~= old(self)@.with_cleared(id, false).cleared);
                    assert(self.surfaces() =~= old(self).surfaces());
                    Draw::Composite(uniforms)
                },
                None => Draw::Skip,
            },
            Frame::Unavailable => Draw::Skip,
        }
    }

    /// Hides the surface of node `id` from the redraw list, or shows it
    /// again. Returns whether `id` has a surface; where it has none, nothing
    /// changes.
    pub fn set_hidden(&mut self, id: usize, hidden: bool) -> (registered: bool)
        ensures
            registered == old(self)@.registered(id),
            final(self)@ == old(self)@.set_hidden(id, hidden),
            final(self).surfaces() == old(self).surfaces(),
            old(self)@.wf() ==> final(self)@.wf(),
    {
        if !self.surfaces.contains_key(&id) {
            return false;
        }
        if hidden {
            self.hidden.insert(id);
        } else {
            self.hidden.remove(&id);
        }
        true
    }

    /// Whether node `id` is hidden.
    pub fn is_hidden(&self, id: usize) -> (hidden: bool)
        ensures
            hidden == self@.hidden.contains(id),
    {
        self.hidden.contains(&id)
    }

    /// Whether the surface of node `id` shows the placeholder; `None` where
    /// `id` has no surface.
    pub fn is_cleared(&self, id: usize) -> (cleared: Option<bool>)
        ensures
            cleared == if self@.registered(id) {
                Some(self@.cleared[id])
            } else {
                None
            },
    {
        match self.surfaces.get(&id) {
            Some(meta) => Some(meta.cleared),
            None => None,
        }
    }

    /// The nodes to redraw: every node that has a surface and is not hidden,
    /// each once, in no particular order.
    pub fn dirty_nodes(&self) -> (nodes: Vec<usize>)
        ensures
            nodes@.to_set() == self@.dirty(),
            nodes@.no_duplicates(),
            forall|id: usize|
                self@.registered(id) ==> (!#[trigger] nodes@.contains(id) <==> self@.hidden.contains(
                    id,
                )),
            forall|id: usize| #[trigger] nodes@.contains(id) ==> self@.registered(id),
    {
        let mut nodes: Vec<usize> = Vec::new();
        let ghost keys: Seq<usize> = self.surfaces.keys().remaining().unref();
        let ghost mut seen: int = 0;
        let ghost mut picked: Seq<int> = Seq::empty();
        for key in iter: self.surfaces.keys()
            invariant
                iter.seq().unref() == keys,
                seen == iter.index(),
                0 <= seen <= keys.len(),
                picked.len() == nodes@.len(),
                forall|j: int|
                    0 <= j < picked.len() ==> 0 <= #[trigger] picked[j] < seen && nodes@[j]
                        == keys[picked[j]],
                forall|j: int, k: int| 0 <= j < k < picked.len() ==> picked[j] < picked[k],
                forall|i: int|
                    0 <= i < seen && !self.hidden@.contains(#[trigger] keys[i])
                        ==> nodes@.contains(keys[i]),
                forall|j: int|
                    0 <= j < nodes@.len() ==> !self.hidden@.contains(#[trigger] nodes@[j]),
        {
            let ghost before = nodes@;
            assert(*key == keys[seen]);
            if !self.hidden.contains(key) {
                nodes.push(*key);
                proof {
                    picked = picked.push(seen);
                }
            }
            proof {
                assert forall|i: int|
                    0 <= i < seen + 1 && !self.hidden@.contains(#[trigger] keys[i])
                        implies nodes@.contains(keys[i]) by {
                    if i < seen {
                        let j = choose|j: int| 0 <= j < before.len() && before[j] == keys[i];
                        assert(nodes@[j] == keys[i]);
                    } else {
                        assert(nodes@[nodes@.len() - 1] == keys[i]);
                    }
                }
                seen = seen + 1;
            }
        }
        proof {
            assert(seen == keys.len());
            assert(keys.to_set() == self.surfaces@.dom());
            assert(keys.no_duplicates());
            assert forall|j: int, k: int| 0 <= j < k < nodes@.len() implies nodes@[j] != nodes@[k] by {
                assert(keys[picked[j]] != keys[picked[k]]);
            }
            assert forall|id: usize| nodes@.to_set().contains(id) <==> self@.dirty().contains(
                id,
            ) by {
                if nodes@.to_set().contains(id) {
                    let j = choose|j: int| 0 <= j < nodes@.len() && nodes@[j] == id;
                    assert(keys[picked[j]] == id);
                    assert(keys.to_set().contains(id));
                }
                if self@.dirty().contains(id) {
                    assert(keys.to_set().contains(id));
                    let i = choose|i: int| 0 <= i < keys.len() && keys[i] == id;
                    assert(nodes@.contains(keys[i]));
                }
            }
            assert(nodes@.to_set() =~= self@.dirty());
            assert forall|id: usize| #[trigger] nodes@.contains(id) <==> self@.dirty().contains(
                id,
            ) by {
                assert(nodes@.to_set().contains(id) <==> nodes@.contains(id));
            }
        }
        nodes
    }
}

/// Every decision keeps the hidden ids among the registered ones.
pub proof fn lemma_hidden_stay_registered(state: PreviewState, id: usize, frame: Frame, hidden: bool)
    requires
        state.wf(),
    ensures
        PreviewState::empty().wf(),
        state.register_surface(id).wf(),
        state.remove_surface(id).wf(),
        state.set_hidden(id, hidden).wf(),
        state.clear(id, frame).0.wf(),
        state.update_preview(id, frame).0.wf(),
{
}

/// A registered node is on the redraw list exactly while it is not hidden.
pub proof fn lemma_dirty_excludes_hidden(state: PreviewState, id: usize)
    requires
        state.registered(id),
    ensures
        state.dirty().contains(id) <==> !state.hidden.contains(id),
        !state.set_hidden(id, true).dirty().contains(id),
        state.set_hidden(id, false).dirty().contains(id),
        state.register_surface(id).dirty().contains(id) <==> !state.hidden.contains(id),
{
}

/// Once the surface of a node is removed, an update of that node does
/// nothing: there is no surface to acquire an image from, and whatever frame
/// is reported, nothing is drawn and the registry stays as it is. The same
/// holds of a clear.
pub proof fn lemma_update_after_remove_is_noop(state: PreviewState, id: usize, frame: Frame)
    ensures
        ({
            let removed = state.remove_surface(id);
            &&& !removed.registered(id)
            &&& !removed.wants_clear(id)
            &&& removed.update_preview(id, frame) == (removed, Draw::Skip)
            &&& removed.clear(id, frame) == (removed, Draw::Skip)
        }),
{
}

/// Clearing is idempotent. Of two clears of one node in a row, with nothing
/// in between, at most one fills the surface; exactly one does where the
/// surface exists, was not cleared before, and an image was acquired for the
/// first clear. After a clear that filled the surface, a second one asks for
/// no image and changes nothing.
pub proof fn lemma_clear_twice_draws_once(
    state: PreviewState,
    id: usize,
    first: Frame,
    second: Frame,
)
    ensures
        ({
            let (after_first, draw_first) = state.clear(id, first);
            let (after_second, draw_second) = after_first.clear(id, second);
            &&& !(draw_first == Draw::Clear && draw_second == Draw::Clear)
            &&& state.wants_clear(id) && first is Acquired ==> draw_first == Draw::Clear
                && draw_second == Draw::Skip
            &&& draw_first == Draw::Clear ==> !after_first.wants_clear(id) && after_second
                == after_first
            &&& first == second ==> after_second == after_first
        }),
{
}

/// Where the registry names no surface to acquire an image from, the
/// decision is to draw nothing and to change nothing, whatever frame is
/// reported: a caller that then acquires no image has skipped nothing.
pub proof fn lemma_no_target_no_draw(state: PreviewState, id: usize, frame: Frame)
    ensures
        !state.wants_clear(id) ==> state.clear(id, frame) == (state, Draw::Skip),
        !state.registered(id) ==> state.update_preview(id, frame) == (state, Draw::Skip),
        frame is Unavailable ==> state.clear(id, frame) == (state, Draw::Skip)
            && state.update_preview(id, frame) == (state, Draw::Skip),
{
}

/// Surfaces are independent. A clear or an update of one node leaves the
/// flag of every other node, the registered ids and the hidden ids as they
/// were, and decisions about two different nodes give the same draws and the
/// same registry in either order.
pub proof fn lemma_nodes_are_independent(
    state: PreviewState,
    id: usize,
    other: usize,
    frame: Frame,
    other_frame: Frame,
)
    requires
        id != other,
    ensures
        ({
            let cleared = state.clear(id, frame).0;
            let updated = state.update_preview(id, frame).0;
            &&& cleared.cleared.dom() == state.cleared.dom()
            &&& updated.cleared.dom() == state.cleared.dom()
            &&& cleared.hidden == state.hidden
            &&& updated.hidden == state.hidden
            &&& state.registered(other) ==> cleared.cleared[other] == state.cleared[other]
                && updated.cleared[other] == state.cleared[other]
        }),
        ({
            let (first, draw) = state.update_preview(id, frame);
            let (both, other_draw) = first.update_preview(other, other_frame);
            let (swapped_first, swapped_other_draw) = state.update_preview(other, other_frame);
            let (swapped_both, swapped_draw) = swapped_first.update_preview(id, frame);
            both == swapped_both && draw == swapped_draw && other_draw == swapped_other_draw
        }),
        ({
            let (first, draw) = state.clear(id, frame);
            let (both, other_draw) = first.clear(other, other_frame);
            let (swapped_first, swapped_other_draw) = state.clear(other, other_frame);
            let (swapped_both, swapped_draw) = swapped_first.clear(id, frame);
            both == swapped_both && draw == swapped_draw && other_draw == swapped_other_draw
        }),
{
    let cleared = state.clear(id, frame).0;
    let updated = state.update_preview(id, frame).0;
    assert(cleared.cleared.dom() =~= state.cleared.dom());
    assert(updated.cleared.dom() =~= state.cleared.dom());
    let both = state.update_preview(id, frame).0.update_preview(other, other_frame).0;
    let swapped = state.update_preview(other, other_frame).0.update_preview(id, frame).0;
    assert(both.cleared =~= swapped.cleared);
    let both = state.clear(id, frame).0.clear(other, other_frame).0;
    let swapped = state.clear(other, other_frame).0.clear(id, frame).0;
    assert(both.cleared =~= swapped.cleared);
}

} // verus!
