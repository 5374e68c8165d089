//! Shared protocol types: the logical state of a light, inbound commands,
//! outbound responses, and the sticky-merge rule for partial updates.

use vstd::prelude::*;

verus! {

/// The two lighting modes a light can be driven in.
#[derive(Debug, Clone, Copy, PartialEq, Eq, Structural)]
pub enum ModeType {
    CCT,
    HSI,
}

/// Tag of an outbound response.
#[derive(Debug, Clone, Copy, PartialEq, Eq, Structural)]
pub enum ResponseType {
    Error,
    OK,
    State,
}

/// Last-known logical state of one light. Every field is optional: a field
/// stays unknown until some update supplies a value for it.
#[derive(Debug, Clone, Copy, PartialEq)]
pub struct State {
    pub mode: Option<ModeType>,
    pub dim: Option<u16>,
    pub ct: Option<u16>,
    pub gm: Option<i16>,
    pub hue: Option<u16>,
    pub sat: Option<u16>,
}

/// One inbound client command: a partial state update for the light at `idx`.
#[derive(Debug, Clone, Copy, PartialEq)]
pub struct Command {
    pub idx: u16,
    pub state: State,
}

/// One outbound response line. `error` is filled only for `Err` responses,
/// `state` only for `State` responses.
#[derive(Debug, Clone, PartialEq)]
pub struct Response {
    pub response: ResponseType,
    pub error: Option<String>,
    pub state: Option<Vec<State>>,
}

impl State {
    /// The state of a light nothing is known about yet.
    pub open spec fn unknown_spec() -> State {
        State { mode: None, dim: None, ct: None, gm: None, hue: None, sat: None }
    }

    /// Constructs the all-unknown state.
    pub fn unknown() -> (s: State)
        ensures
            s == State::unknown_spec(),
    {
        State { mode: None, dim: None, ct: None, gm: None, hue: None, sat: None }
    }
}

/// Overlay of one optional field: a value supplied by the update wins, an
/// omitted field keeps what the destination already had.
pub open spec fn overlay<A>(dest: Option<A>, src: Option<A>) -> Option<A> {
    if src is Some {
        src
    } else {
        dest
    }
}

/// The sticky merge of a partial update `src` into an existing state `dest`:
/// every field supplied by `src` overwrites, every omitted field is kept.
pub open spec fn merge_state(dest: State, src: State) -> State {
    State {
        mode: overlay(dest.mode, src.mode),
        dim: overlay(dest.dim, src.dim),
        ct: overlay(dest.ct, src.ct),
        gm: overlay(dest.gm, src.gm),
        hue: overlay(dest.hue, src.hue),
        sat: overlay(dest.sat, src.sat),
    }
}

/// Merges the partial update `src_state` into `dest_state` in place, field by
/// field, under the sticky rule: an update never clears a field by omission.
pub fn update_state(dest_state: &mut State, src_state: &State)
    ensures
        *final(dest_state) == merge_state(*old(dest_state), *src_state),
{
    if let Some(mode) = src_state.mode {
        dest_state.mode = Some(mode);
    }
    if let Some(dim) = src_state.dim {
        dest_state.dim = Some(dim);
    }
    if let Some(ct) = src_state.ct {
        dest_state.ct = Some(ct);
    }
    if let Some(gm) = src_state.gm {
        dest_state.gm = Some(gm);
    }
    if let Some(hue) = src_state.hue {
        dest_state.hue = Some(hue);
    }
    if let Some(sat) = src_state.sat {
        dest_state.sat = Some(sat);
    }
}

} // verus!
