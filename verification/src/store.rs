//! The state store: the single authoritative record of every light's logical
//! state. All mutation funnels through `merge`; `snapshot` hands out a full
//! copy and nothing else reads the interior.

use vstd::prelude::*;

use crate::protocol::{merge_state, overlay, State};

verus! {

/// The per-light error of the store: the command named a light that is not
/// configured.
#[derive(Debug, Clone, Copy, PartialEq, Eq, Structural)]
pub enum StoreError {
    OutOfRange,
}

impl StoreError {
    /// A human-readable description of the error.
    pub fn message(&self) -> (r: String)
        ensures
            r@ == "light index out of range"@,
    {
        let r: String = String::from_str("light index out of range");
        proof {
            reveal_strlit("light index out of range");
        }
        r
    }
}

/// The authoritative container of per-light state, indexed by the light's
/// ordinal. Created once with every field of every light unknown; lights are
/// never added or removed afterwards.
#[derive(Debug, PartialEq)]
pub struct StateStore {
    states: Vec<State>,
}

impl View for StateStore {
    type V = Seq<State>;

    closed spec fn view(&self) -> Seq<State> {
        self.states@
    }
}

impl StateStore {
    /// Creates the store for `num_lights` lights, all fields unknown.
    pub fn new(num_lights: usize) -> (s: StateStore)
        ensures
            s@.len() == num_lights,
            forall|i: int| 0 <= i < num_lights ==> s@[i] == State::unknown_spec(),
    {
        let mut states: Vec<State> = Vec::new();
        let mut n: usize = 0;
        while n < num_lights
            invariant
                n <= num_lights,
                states@.len() == n,
                forall|i: int| 0 <= i < n ==> states@[i] == State::unknown_spec(),
            decreases num_lights - n,
        {
            states.push(State::unknown());
            n = n + 1;
        }
        StateStore { states }
    }

    /// Number of configured lights.
    pub fn len(&self) -> (n: usize)
        ensures
            n == self@.len(),
    {
        self.states.len()
    }

    /// Applies the sticky merge of `patch` to the light at `idx`; fails with
    /// `OutOfRange`, changing nothing, exactly when `idx` names no light.
    pub fn merge(&mut self, idx: usize, patch: &State) -> (r: Result<(), StoreError>)
        ensures
            idx < old(self)@.len() ==> r is Ok && final(self)@ == old(self)@.update(
                idx as int,
                merge_state(old(self)@[idx as int], *patch),
            ),
            idx >= old(self)@.len() ==> r == Result::<(), StoreError>::Err(StoreError::OutOfRange)
                && final(self)@ == old(self)@,
    {
        if idx < self.states.len() {
            let mut merged = self.states[idx];
            crate::protocol::update_state(&mut merged, patch);
            self.states[idx] = merged;
            assert(self.states@ =~= old(self).states@.update(
                idx as int,
                merge_state(old(self)@[idx as int], *patch),
            ));
            Ok(())
        } else {
            Err(StoreError::OutOfRange)
        }
    }

    /// Reads the current state of the light at `idx`.
    pub fn get(&self, idx: usize) -> (s: State)
        requires
            idx < self@.len(),
        ensures
            s == self@[idx as int],
    {
        self.states[idx]
    }

    /// Returns a full copy of every light's state, in ordinal order.
    pub fn snapshot(&self) -> (r: Vec<State>)
        ensures
            r@ == self@,
    {
        let mut copy: Vec<State> = Vec::new();
        let mut n: usize = 0;
        while n < self.states.len()
            invariant
                n <= self.states@.len(),
                copy@ == self.states@.subrange(0, n as int),
            decreases self.states@.len() - n,
        {
            copy.push(self.states[n]);
            assert(copy@ =~= self.states@.subrange(0, n + 1 as int));
            n = n + 1;
        }
        assert(copy@ =~= self.states@);
        copy
    }
}

/// The result of applying a whole sequence of patches to one light, oldest
/// first, under the sticky merge.
pub open spec fn apply_patches(init: State, patches: Seq<State>) -> State
    decreases patches.len(),
{
    if patches.len() == 0 {
        init
    } else {
        merge_state(apply_patches(init, patches.drop_last()), patches.last())
    }
}

/// The fold of `overlay` over a sequence of optional field values.
pub open spec fn apply_overlays<A>(init: Option<A>, fields: Seq<Option<A>>) -> Option<A>
    decreases fields.len(),
{
    if fields.len() == 0 {
        init
    } else {
        overlay(apply_overlays(init, fields.drop_last()), fields.last())
    }
}

/// Overlaying a sequence of optional values lands on the last one that was
/// present: if position `i` holds a value and no later position does, the
/// fold returns exactly that value; if none holds a value, the initial value
/// survives.
pub proof fn lemma_overlay_last_set<A>(init: Option<A>, fields: Seq<Option<A>>, i: int)
    requires
        0 <= i < fields.len(),
        fields[i] is Some,
        forall|j: int| i < j < fields.len() ==> fields[j] is None,
    ensures
        apply_overlays(init, fields) == fields[i],
    decreases fields.len(),
{
    if i == fields.len() - 1 {
    } else {
        assert(fields.last() is None);
        assert(fields.drop_last()[i] == fields[i]);
        lemma_overlay_last_set(init, fields.drop_last(), i);
    }
}

/// If no patch in the sequence supplies a value, the fold keeps the initial
/// value.
pub proof fn lemma_overlay_none_kept<A>(init: Option<A>, fields: Seq<Option<A>>)
    requires
        forall|j: int| 0 <= j < fields.len() ==> fields[j] is None,
    ensures
        apply_overlays(init, fields) == init,
    decreases fields.len(),
{
    if fields.len() > 0 {
        lemma_overlay_none_kept(init, fields.drop_last());
    }
}

/// Applying a sequence of state patches acts field by field: each field of
/// the result is the overlay fold of that field across the patches.
pub proof fn lemma_apply_patches_fields(init: State, patches: Seq<State>)
    ensures
        apply_patches(init, patches).mode == apply_overlays(
            init.mode,
            patches.map_values(|p: State| p.mode),
        ),
        apply_patches(init, patches).dim == apply_overlays(
            init.dim,
            patches.map_values(|p: State| p.dim),
        ),
        apply_patches(init, patches).ct == apply_overlays(
            init.ct,
            patches.map_values(|p: State| p.ct),
        ),
        apply_patches(init, patches).gm == apply_overlays(
            init.gm,
            patches.map_values(|p: State| p.gm),
        ),
        apply_patches(init, patches).hue == apply_overlays(
            init.hue,
            patches.map_values(|p: State| p.hue),
        ),
        apply_patches(init, patches).sat == apply_overlays(
            init.sat,
            patches.map_values(|p: State| p.sat),
        ),
    decreases patches.len(),
{
    if patches.len() > 0 {
        lemma_apply_patches_fields(init, patches.drop_last());
        assert(patches.map_values(|p: State| p.mode).drop_last() =~= patches.drop_last()
            .map_values(|p: State| p.mode));
        assert(patches.map_values(|p: State| p.dim).drop_last() =~= patches.drop_last().map_values(
            |p: State| p.dim,
        ));
        assert(patches.map_values(|p: State| p.ct).drop_last() =~= patches.drop_last().map_values(
            |p: State| p.ct,
        ));
        assert(patches.map_values(|p: State| p.gm).drop_last() =~= patches.drop_last().map_values(
            |p: State| p.gm,
        ));
        assert(patches.map_values(|p: State| p.hue).drop_last() =~= patches.drop_last().map_values(
            |p: State| p.hue,
        ));
        assert(patches.map_values(|p: State| p.sat).drop_last() =~= patches.drop_last().map_values(
            |p: State| p.sat,
        ));
    }
}

/// The sticky law, retention half, for the `mode` field: across any
/// sequence of patches applied to one light, the value set by the last patch
/// that supplied `mode` is retained by every later patch that omits it.
pub proof fn lemma_sticky_mode(init: State, patches: Seq<State>, i: int)
    requires
        0 <= i < patches.len(),
        patches[i].mode is Some,
        forall|j: int| i < j < patches.len() ==> patches[j].mode is None,
    ensures
        apply_patches(init, patches).mode == patches[i].mode,
{
    lemma_apply_patches_fields(init, patches);
    let fields = patches.map_values(|p: State| p.mode);
    assert(fields[i] == patches[i].mode);
    assert forall|j: int| i < j < fields.len() implies fields[j] is None by {
        assert(patches[j].mode is None);
    }
    lemma_overlay_last_set(init.mode, fields, i);
}

/// The sticky law, no-reset half, for the `mode` field: a field that no
/// patch in the sequence ever supplied keeps its initial value.
pub proof fn lemma_unset_mode_kept(init: State, patches: Seq<State>)
    requires
        forall|j: int| 0 <= j < patches.len() ==> patches[j].mode is None,
    ensures
        apply_patches(init, patches).mode == init.mode,
{
    lemma_apply_patches_fields(init, patches);
    let fields = patches.map_values(|p: State| p.mode);
    assert forall|j: int| 0 <= j < fields.len() implies fields[j] is None by {
        assert(patches[j].mode is None);
    }
    lemma_overlay_none_kept(init.mode, fields);
}

/// The sticky law, retention half, for the `dim` field: across any
/// sequence of patches applied to one light, the value set by the last patch
/// that supplied `dim` is retained by every later patch that omits it.
pub proof fn lemma_sticky_dim(init: State, patches: Seq<State>, i: int)
    requires
        0 <= i < patches.len(),
        patches[i].dim is Some,
        forall|j: int| i < j < patches.len() ==> patches[j].dim is None,
    ensures
        apply_patches(init, patches).dim == patches[i].dim,
{
    lemma_apply_patches_fields(init, patches);
    let fields = patches.map_values(|p: State| p.dim);
    assert(fields[i] == patches[i].dim);
    assert forall|j: int| i < j < fields.len() implies fields[j] is None by {
        assert(patches[j].dim is None);
    }
    lemma_overlay_last_set(init.dim, fields, i);
}

/// The sticky law, no-reset half, for the `dim` field: a field that no
/// patch in the sequence ever supplied keeps its initial value.
pub proof fn lemma_unset_dim_kept(init: State, patches: Seq<State>)
    requires
        forall|j: int| 0 <= j < patches.len() ==> patches[j].dim is None,
    ensures
        apply_patches(init, patches).dim == init.dim,
{
    lemma_apply_patches_fields(init, patches);
    let fields = patches.map_values(|p: State| p.dim);
    assert forall|j: int| 0 <= j < fields.len() implies fields[j] is None by {
        assert(patches[j].dim is None);
    }
    lemma_overlay_none_kept(init.dim, fields);
}

/// The sticky law, retention half, for the `ct` field: across any
/// sequence of patches applied to one light, the value set by the last patch
/// that supplied `ct` is retained by every later patch that omits it.
pub proof fn lemma_sticky_ct(init: State, patches: Seq<State>, i: int)
    requires
        0 <= i < patches.len(),
        patches[i].ct is Some,
        forall|j: int| i < j < patches.len() ==> patches[j].ct is None,
    ensures
        apply_patches(init, patches).ct == patches[i].ct,
{
    lemma_apply_patches_fields(init, patches);
    let fields = patches.map_values(|p: State| p.ct);
    assert(fields[i] == patches[i].ct);
    assert forall|j: int| i < j < fields.len() implies fields[j] is None by {
        assert(patches[j].ct is None);
    }
    lemma_overlay_last_set(init.ct, fields, i);
}

/// The sticky law, no-reset half, for the `ct` field: a field that no
/// patch in the sequence ever supplied keeps its initial value.
pub proof fn lemma_unset_ct_kept(init: State, patches: Seq<State>)
    requires
        forall|j: int| 0 <= j < patches.len() ==> patches[j].ct is None,
    ensures
        apply_patches(init, patches).ct == init.ct,
{
    lemma_apply_patches_fields(init, patches);
    let fields = patches.map_values(|p: State| p.ct);
    assert forall|j: int| 0 <= j < fields.len() implies fields[j] is None by {
        assert(patches[j].ct is None);
    }
    lemma_overlay_none_kept(init.ct, fields);
}

/// The sticky law, retention half, for the `gm` field: across any
/// sequence of patches applied to one light, the value set by the last patch
/// that supplied `gm` is retained by every later patch that omits it.
pub proof fn lemma_sticky_gm(init: State, patches: Seq<State>, i: int)
    requires
        0 <= i < patches.len(),
        patches[i].gm is Some,
        forall|j: int| i < j < patches.len() ==> patches[j].gm is None,
    ensures
        apply_patches(init, patches).gm == patches[i].gm,
{
    lemma_apply_patches_fields(init, patches);
    let fields = patches.map_values(|p: State| p.gm);
    assert(fields[i] == patches[i].gm);
    assert forall|j: int| i < j < fields.len() implies fields[j] is None by {
        assert(patches[j].gm is None);
    }
    lemma_overlay_last_set(init.gm, fields, i);
}

/// The sticky law, no-reset half, for the `gm` field: a field that no
/// patch in the sequence ever supplied keeps its initial value.
pub proof fn lemma_unset_gm_kept(init: State, patches: Seq<State>)
    requires
        forall|j: int| 0 <= j < patches.len() ==> patches[j].gm is None,
    ensures
        apply_patches(init, patches).gm == init.gm,
{
    lemma_apply_patches_fields(init, patches);
    let fields = patches.map_values(|p: State| p.gm);
    assert forall|j: int| 0 <= j < fields.len() implies fields[j] is None by {
        assert(patches[j].gm is None);
    }
    lemma_overlay_none_kept(init.gm, fields);
}

/// The sticky law, retention half, for the `hue` field: across any
/// sequence of patches applied to one light, the value set by the last patch
/// that supplied `hue` is retained by every later patch that omits it.
pub proof fn lemma_sticky_hue(init: State, patches: Seq<State>, i: int)
    requires
        0 <= i < patches.len(),
        patches[i].hue is Some,
        forall|j: int| i < j < patches.len() ==> patches[j].hue is None,
    ensures
        apply_patches(init, patches).hue == patches[i].hue,
{
    lemma_apply_patches_fields(init, patches);
    let fields = patches.map_values(|p: State| p.hue);
    assert(fields[i] == patches[i].hue);
    assert forall|j: int| i < j < fields.len() implies fields[j] is None by {
        assert(patches[j].hue is None);
    }
    lemma_overlay_last_set(init.hue, fields, i);
}

/// The sticky law, no-reset half, for the `hue` field: a field that no
/// patch in the sequence ever supplied keeps its initial value.
pub proof fn lemma_unset_hue_kept(init: State, patches: Seq<State>)
    requires
        forall|j: int| 0 <= j < patches.len() ==> patches[j].hue is None,
    ensures
        apply_patches(init, patches).hue == init.hue,
{
    lemma_apply_patches_fields(init, patches);
    let fields = patches.map_values(|p: State| p.hue);
    assert forall|j: int| 0 <= j < fields.len() implies fields[j] is None by {
        assert(patches[j].hue is None);
    }
    lemma_overlay_none_kept(init.hue, fields);
}

/// The sticky law, retention half, for the `sat` field: across any
/// sequence of patches applied to one light, the value set by the last patch
/// that supplied `sat` is retained by every later patch that omits it.
pub proof fn lemma_sticky_sat(init: State, patches: Seq<State>, i: int)
    requires
        0 <= i < patches.len(),
        patches[i].sat is Some,
        forall|j: int| i < j < patches.len() ==> patches[j].sat is None,
    ensures
        apply_patches(init, patches).sat == patches[i].sat,
{
    lemma_apply_patches_fields(init, patches);
    let fields = patches.map_values(|p: State| p.sat);
    assert(fields[i] == patches[i].sat);
    assert forall|j: int| i < j < fields.len() implies fields[j] is None by {
        assert(patches[j].sat is None);
    }
    lemma_overlay_last_set(init.sat, fields, i);
}

/// The sticky law, no-reset half, for the `sat` field: a field that no
/// patch in the sequence ever supplied keeps its initial value.
pub proof fn lemma_unset_sat_kept(init: State, patches: Seq<State>)
    requires
        forall|j: int| 0 <= j < patches.len() ==> patches[j].sat is None,
    ensures
        apply_patches(init, patches).sat == init.sat,
{
    lemma_apply_patches_fields(init, patches);
    let fields = patches.map_values(|p: State| p.sat);
    assert forall|j: int| 0 <= j < fields.len() implies fields[j] is None by {
        assert(patches[j].sat is None);
    }
    lemma_overlay_none_kept(init.sat, fields);
}

} // verus!
