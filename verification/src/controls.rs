//! The client-side control state: which light the cursor is on, which lights
//! are selected, which control has focus, and the pending control values.
//! Input events are mapped to these transitions by the surrounding user
//! interface; the transitions themselves are plain state logic over the
//! protocol types.

use vstd::prelude::*;

use crate::protocol::{ModeType, State};

verus! {

/// Whether key presses navigate between controls or edit the focused one.
#[derive(Debug, Clone, Copy, PartialEq, Eq, Structural)]
pub enum InputMode {
    Navigation,
    Editing,
}

/// One adjustable control. `Dim` and `Int` both drive the shared intensity
/// value; the rest are mode-specific.
#[derive(Debug, Clone, Copy, PartialEq, Eq, Structural)]
pub enum ControlTarget {
    Dim,
    CT,
    GM,
    Hue,
    Sat,
    Int,
}

/// What currently has keyboard focus: the light list or one control.
#[derive(Debug, Clone, Copy, PartialEq, Eq, Structural)]
pub enum Focus {
    LightList,
    Control(ControlTarget),
}

/// The inclusive source range of each control.
pub open spec fn range_spec(t: ControlTarget) -> (i32, i32) {
    match t {
        ControlTarget::Dim => (0i32, 100i32),
        ControlTarget::CT => (2700i32, 7500i32),
        ControlTarget::GM => (-100i32, 100i32),
        ControlTarget::Hue => (0i32, 360i32),
        ControlTarget::Sat => (0i32, 100i32),
        ControlTarget::Int => (0i32, 100i32),
    }
}

impl ControlTarget {
    /// The inclusive `(min, max)` range of values this control accepts.
    pub fn range(&self) -> (r: (i32, i32))
        ensures
            r == range_spec(*self),
    {
        match self {
            ControlTarget::Dim => (0, 100),
            ControlTarget::CT => (2700, 7500),
            ControlTarget::GM => (-100, 100),
            ControlTarget::Hue => (0, 360),
            ControlTarget::Sat => (0, 100),
            ControlTarget::Int => (0, 100),
        }
    }
}

/// Restriction of a value to an inclusive range.
pub open spec fn clamp_spec(v: int, lo: int, hi: int) -> int {
    if v < lo {
        lo
    } else if v > hi {
        hi
    } else {
        v
    }
}

/// The vertical order of the three controls shown for a mode, as positions
/// 0, 1, 2.
pub open spec fn control_pos(mode: ModeType, t: ControlTarget) -> Option<int> {
    match mode {
        ModeType::CCT => match t {
            ControlTarget::Dim => Some(0int),
            ControlTarget::CT => Some(1int),
            ControlTarget::GM => Some(2int),
            _ => None,
        },
        ModeType::HSI => match t {
            ControlTarget::Hue => Some(0int),
            ControlTarget::Sat => Some(1int),
            ControlTarget::Int => Some(2int),
            _ => None,
        },
    }
}

/// The control at a given position of a mode's column.
pub open spec fn control_at(mode: ModeType, pos: int) -> ControlTarget {
    match mode {
        ModeType::CCT => if pos == 0 {
            ControlTarget::Dim
        } else if pos == 1 {
            ControlTarget::CT
        } else {
            ControlTarget::GM
        },
        ModeType::HSI => if pos == 0 {
            ControlTarget::Hue
        } else if pos == 1 {
            ControlTarget::Sat
        } else {
            ControlTarget::Int
        },
    }
}

/// The top control of a mode's column, where focus lands when it enters the
/// controls.
pub open spec fn first_control(mode: ModeType) -> ControlTarget {
    control_at(mode, 0)
}

/// The client-side application state: the mirrored light list, the
/// selection, and the pending control values that updates are built from.
#[derive(Debug, PartialEq)]
pub struct App {
    pub first_connect: bool,
    pub lights: Vec<State>,
    pub selected_indices: Vec<usize>,
    pub current_mode: ModeType,
    pub input_mode: InputMode,
    pub focus: Focus,
    pub dim: u8,
    pub ct: u16,
    pub gm: i8,
    pub hue: u16,
    pub sat: u8,
    pub list_cursor: usize,
}

/// The control values pulled from the light under the cursor: every known
/// field of that light overwrites the corresponding pending control value,
/// unknown fields leave it alone.
pub open spec fn synced(a: App) -> App {
    if a.list_cursor < a.lights@.len() {
        let light = a.lights@[a.list_cursor as int];
        App {
            current_mode: if light.mode is Some {
                light.mode->0
            } else {
                a.current_mode
            },
            dim: if light.dim is Some {
                light.dim->0 as u8
            } else {
                a.dim
            },
            ct: if light.ct is Some {
                light.ct->0
            } else {
                a.ct
            },
            gm: if light.gm is Some {
                light.gm->0 as i8
            } else {
                a.gm
            },
            hue: if light.hue is Some {
                light.hue->0
            } else {
                a.hue
            },
            sat: if light.sat is Some {
                light.sat->0 as u8
            } else {
                a.sat
            },
            ..a
        }
    } else {
        a
    }
}

/// One light's state after the pending control values of the current mode
/// are applied to it: the mode and its three values are set, every other
/// field is kept.
pub open spec fn controls_applied(light: State, a: App) -> State {
    match a.current_mode {
        ModeType::CCT => State {
            mode: Some(ModeType::CCT),
            dim: Some(a.dim as u16),
            ct: Some(a.ct),
            gm: Some(a.gm as i16),
            ..light
        },
        ModeType::HSI => State {
            mode: Some(ModeType::HSI),
            hue: Some(a.hue),
            sat: Some(a.sat as u16),
            dim: Some(a.dim as u16),
            ..light
        },
    }
}

impl App {
    /// A selection never lists the same light twice.
    pub open spec fn wf(self) -> bool {
        forall|k1: int, k2: int|
            0 <= k1 < k2 < self.selected_indices@.len() ==> self.selected_indices@[k1]
                != self.selected_indices@[k2]
    }

    /// The freshly started client: no lights known yet, nothing selected,
    /// CCT mode, navigating the light list, every control at its lower
    /// bound except the colour temperature at its coolest.
    pub fn new() -> (a: App)
        ensures
            a.wf(),
            a.first_connect == true,
            a.lights@ == Seq::<State>::empty(),
            a.selected_indices@ == Seq::<usize>::empty(),
            a.current_mode == ModeType::CCT,
            a.input_mode == InputMode::Navigation,
            a.focus == Focus::LightList,
            a.dim == 0u8 && a.ct == 2700u16 && a.gm == 0i8 && a.hue == 0u16 && a.sat == 0u8,
            a.list_cursor == 0usize,
    {
        App {
            first_connect: true,
            lights: Vec::new(),
            selected_indices: Vec::new(),
            current_mode: ModeType::CCT,
            input_mode: InputMode::Navigation,
            focus: Focus::LightList,
            dim: 0,
            ct: 2700,
            gm: 0,
            hue: 0,
            sat: 0,
            list_cursor: 0,
        }
    }

    /// Pulls the control values from the light under the cursor, so the
    /// controls show what that light is known to hold.
    pub fn sync_controls_with_cursor(&mut self)
        ensures
            *final(self) == synced(*old(self)),
    {
        if self.list_cursor < self.lights.len() {
            let light = self.lights[self.list_cursor];
            if let Some(mode) = light.mode {
                self.current_mode = mode;
            }
            if let Some(dim) = light.dim {
                self.dim = dim as u8;
            }
            if let Some(ct) = light.ct {
                self.ct = ct;
            }
            if let Some(gm) = light.gm {
                self.gm = gm as i8;
            }
            if let Some(hue) = light.hue {
                self.hue = hue;
            }
            if let Some(sat) = light.sat {
                self.sat = sat as u8;
            }
        }
    }

    /// Moves focus vertically by `delta`: along the light list (clamped to
    /// its ends, then syncing the controls from the light reached), or
    /// between the three controls of the current mode's column.
    pub fn move_focus(&mut self, delta: i32)
        ensures
            old(self).focus == Focus::LightList && old(self).lights@.len() == 0 ==> *final(self)
                == *old(self),
            old(self).focus == Focus::LightList && old(self).lights@.len() > 0 ==> *final(self)
                == synced(
                (App {
                    list_cursor: clamp_spec(
                        old(self).list_cursor + delta,
                        0,
                        old(self).lights@.len() - 1,
                    ) as usize,
                    ..*old(self)
                }),
            ),
            old(self).focus matches Focus::Control(t) ==> (control_pos(
                old(self).current_mode,
                t,
            ) matches Some(pos) ==> *final(self) == (App {
                focus: Focus::Control(
                    control_at(old(self).current_mode, clamp_spec(pos + delta, 0, 2)),
                ),
                ..*old(self)
            })),
            old(self).focus matches Focus::Control(t) ==> (control_pos(
                old(self).current_mode,
                t,
            ) is None ==> *final(self) == *old(self)),
    {
        match self.focus {
            Focus::LightList => {
                if self.lights.len() == 0 {
                    return ;
                }
                let len = self.lights.len();
                let new_cursor = self.list_cursor as i128 + delta as i128;
                let hi = (len - 1) as i128;
                self.list_cursor = if new_cursor < 0 {
                    0
                } else if new_cursor > hi {
                    len - 1
                } else {
                    new_cursor as usize
                };
                self.sync_controls_with_cursor();
            },
            Focus::Control(target) => {
                let pos_opt: Option<i32> = match (self.current_mode, target) {
                    (ModeType::CCT, ControlTarget::Dim) => Some(0),
                    (ModeType::CCT, ControlTarget::CT) => Some(1),
                    (ModeType::CCT, ControlTarget::GM) => Some(2),
                    (ModeType::HSI, ControlTarget::Hue) => Some(0),
                    (ModeType::HSI, ControlTarget::Sat) => Some(1),
                    (ModeType::HSI, ControlTarget::Int) => Some(2),
                    _ => None,
                };
                if let Some(pos) = pos_opt {
                    let moved = pos as i64 + delta as i64;
                    let new_pos: i32 = if moved < 0 {
                        0
                    } else if moved > 2 {
                        2
                    } else {
                        moved as i32
                    };
                    let next = match (self.current_mode, new_pos) {
                        (ModeType::CCT, 0) => ControlTarget::Dim,
                        (ModeType::CCT, 1) => ControlTarget::CT,
                        (ModeType::CCT, _) => ControlTarget::GM,
                        (ModeType::HSI, 0) => ControlTarget::Hue,
                        (ModeType::HSI, 1) => ControlTarget::Sat,
                        (ModeType::HSI, _) => ControlTarget::Int,
                    };
                    self.focus = Focus::Control(next);
                }
            },
        }
    }

    /// Moves focus horizontally: right jumps from the light list to the top
    /// control of the current mode, left returns from a control to the
    /// light list; anything else stays put.
    pub fn switch_focus(&mut self, right: bool)
        ensures
            right && old(self).focus == Focus::LightList ==> *final(self) == (App {
                focus: Focus::Control(first_control(old(self).current_mode)),
                ..*old(self)
            }),
            right && old(self).focus != Focus::LightList ==> *final(self) == *old(self),
            !right && (old(self).focus matches Focus::Control(_)) ==> *final(self) == (App {
                focus: Focus::LightList,
                ..*old(self)
            }),
            !right && old(self).focus == Focus::LightList ==> *final(self) == *old(self),
    {
        if right {
            if matches!(self.focus, Focus::LightList) {
                self.focus = Focus::Control(
                    match self.current_mode {
                        ModeType::CCT => ControlTarget::Dim,
                        ModeType::HSI => ControlTarget::Hue,
                    },
                );
            }
        } else {
            match self.focus {
                Focus::Control(_) => self.focus = Focus::LightList,
                _ => {},
            }
        }
    }

    /// Whether the light at `idx` is currently selected.
    pub fn is_selected(&self, idx: usize) -> (r: bool)
        ensures
            r == self.selected_indices@.contains(idx),
    {
        let mut k: usize = 0;
        while k < self.selected_indices.len()
            invariant
                k <= self.selected_indices@.len(),
                forall|j: int| 0 <= j < k ==> self.selected_indices@[j] != idx,
            decreases self.selected_indices@.len() - k,
        {
            if self.selected_indices[k] == idx {
                return true;
            }
            k = k + 1;
        }
        false
    }

    /// While the light list has focus and is non-empty, flips whether the
    /// light under the cursor is selected; no other light's selection and
    /// nothing else changes.
    pub fn toggle_selection(&mut self)
        requires
            old(self).wf(),
        ensures
            final(self).wf(),
            final(self).lights == old(self).lights,
            final(self).current_mode == old(self).current_mode,
            final(self).input_mode == old(self).input_mode,
            final(self).focus == old(self).focus,
            final(self).first_connect == old(self).first_connect,
            final(self).dim == old(self).dim && final(self).ct == old(self).ct && final(self).gm
                == old(self).gm && final(self).hue == old(self).hue && final(self).sat == old(self).sat,
            final(self).list_cursor == old(self).list_cursor,
            old(self).focus == Focus::LightList && old(self).lights@.len() > 0 ==> (forall|i: usize|
                #[trigger] final(self).selected_indices@.contains(i) == (if i == old(self).list_cursor {
                    !old(self).selected_indices@.contains(i)
                } else {
                    old(self).selected_indices@.contains(i)
                })),
            !(old(self).focus == Focus::LightList && old(self).lights@.len() > 0) ==> final(self).selected_indices == old(self).selected_indices,
    {
        if matches!(self.focus, Focus::LightList) && self.lights.len() > 0 {
            let cursor = self.list_cursor;
            let mut k: usize = 0;
            let len = self.selected_indices.len();
            while k < len
                invariant
                    *self == *old(self),
                    old(self).wf(),
                    old(self).focus == Focus::LightList,
                    old(self).lights@.len() > 0,
                    cursor == old(self).list_cursor,
                    len == self.selected_indices@.len(),
                    k <= len,
                    forall|j: int| 0 <= j < k ==> self.selected_indices@[j] != cursor,
                decreases len - k,
            {
                if self.selected_indices[k] == cursor {
                    self.selected_indices.remove(k);
                    proof {
                        let olds = old(self).selected_indices@;
                        let news = self.selected_indices@;
                        assert forall|k1: int, k2: int|
                            0 <= k1 < k2 < news.len() implies news[k1] != news[k2] by {
                            let o1: int = if k1 < k {
                                k1
                            } else {
                                k1 + 1
                            };
                            let o2: int = if k2 < k {
                                k2
                            } else {
                                k2 + 1
                            };
                            assert(news[k1] == olds[o1]);
                            assert(news[k2] == olds[o2]);
                            assert(olds[o1] != olds[o2]);
                        }
                        assert forall|i: usize| #[trigger] news.contains(i) == (if i == cursor {
                            !olds.contains(i)
                        } else {
                            olds.contains(i)
                        }) by {
                            if i == cursor {
                                assert forall|j: int| 0 <= j < news.len() implies news[j]
                                    != cursor by {
                                    if j < k {
                                        assert(news[j] == olds[j]);
                                    } else {
                                        assert(news[j] == olds[j + 1]);
                                        assert(olds[j + 1] != olds[k as int]);
                                    }
                                }
                                assert(!news.contains(i));
                                assert(olds[k as int] == cursor);
                                assert(olds.contains(i));
                            } else {
                                if olds.contains(i) {
                                    let j = choose|j: int| 0 <= j < olds.len() && olds[j] == i;
                                    if j < k {
                                        assert(news[j] == i);
                                    } else {
                                        assert(j != k);
                                        assert(news[j - 1] == i);
                                    }
                                    assert(news.contains(i));
                                }
                                if news.contains(i) {
                                    let j = choose|j: int| 0 <= j < news.len() && news[j] == i;
                                    if j < k {
                                        assert(olds[j] == i);
                                    } else {
                                        assert(olds[j + 1] == i);
                                    }
                                    assert(olds.contains(i));
                                }
                            }
                        }
                    }
                    return ;
                }
                k = k + 1;
            }
            self.selected_indices.push(cursor);
            proof {
                let olds = old(self).selected_indices@;
                let news = self.selected_indices@;
                assert(!olds.contains(cursor));
                assert(news[news.len() - 1] == cursor);
                assert forall|i: usize| #[trigger] news.contains(i) == (if i == cursor {
                    !olds.contains(i)
                } else {
                    olds.contains(i)
                }) by {
                    if i != cursor {
                        if olds.contains(i) {
                            let j = choose|j: int| 0 <= j < olds.len() && olds[j] == i;
                            assert(news[j] == i);
                        }
                        if news.contains(i) {
                            let j = choose|j: int| 0 <= j < news.len() && news[j] == i;
                            assert(j < olds.len());
                            assert(olds[j] == i);
                        }
                    }
                }
            }
        }
    }

    /// Switches between the two modes; if a control had focus, focus lands
    /// on the top control of the new mode; the pending controls are then
    /// applied to every selected light under the new mode.
    pub fn toggle_mode(&mut self)
        requires
            old(self).wf(),
        ensures
            final(self).wf(),
            final(self).current_mode == flipped(old(self).current_mode),
            final(self).focus == (if old(self).focus matches Focus::Control(_) {
                Focus::Control(first_control(flipped(old(self).current_mode)))
            } else {
                old(self).focus
            }),
            final(self).selected_indices == old(self).selected_indices,
            final(self).input_mode == old(self).input_mode,
            final(self).first_connect == old(self).first_connect,
            final(self).list_cursor == old(self).list_cursor,
            final(self).dim == old(self).dim && final(self).ct == old(self).ct && final(self).gm
                == old(self).gm && final(self).hue == old(self).hue && final(self).sat == old(self).sat,
            final(self).lights@.len() == old(self).lights@.len(),
            forall|i: int|
                0 <= i < old(self).lights@.len() ==> final(self).lights@[i] == (if old(self).selected_indices@.contains(i as usize) {
                    controls_applied(
                        old(self).lights@[i],
                        (App { current_mode: flipped(old(self).current_mode), ..*old(self) }),
                    )
                } else {
                    old(self).lights@[i]
                }),
    {
        self.current_mode = match self.current_mode {
            ModeType::CCT => ModeType::HSI,
            ModeType::HSI => ModeType::CCT,
        };
        if let Focus::Control(_) = self.focus {
            self.focus = Focus::Control(
                match self.current_mode {
                    ModeType::CCT => ControlTarget::Dim,
                    ModeType::HSI => ControlTarget::Hue,
                },
            );
        }
        self.update_selected_lights();
    }

    /// While a control has focus, switches between navigating and editing.
    pub fn toggle_edit_mode(&mut self)
        ensures
            (old(self).focus matches Focus::Control(_)) ==> *final(self) == (App {
                input_mode: if old(self).input_mode == InputMode::Navigation {
                    InputMode::Editing
                } else {
                    InputMode::Navigation
                },
                ..*old(self)
            }),
            !(old(self).focus matches Focus::Control(_)) ==> *final(self) == *old(self),
    {
        if let Focus::Control(_) = self.focus {
            self.input_mode = if matches!(self.input_mode, InputMode::Navigation) {
                InputMode::Editing
            } else {
                InputMode::Navigation
            };
        }
    }

    /// Applies the pending control values of the current mode to every
    /// selected light that exists; unselected lights and lights beyond the
    /// list are untouched, and nothing but the light list changes.
    pub fn update_selected_lights(&mut self)
        requires
            old(self).wf(),
        ensures
            final(self).wf(),
            *final(self) == (App { lights: final(self).lights, ..*old(self) }),
            final(self).lights@.len() == old(self).lights@.len(),
            forall|i: int|
                0 <= i < old(self).lights@.len() ==> final(self).lights@[i] == (if old(self).selected_indices@.contains(i as usize) {
                    controls_applied(old(self).lights@[i], *old(self))
                } else {
                    old(self).lights@[i]
                }),
    {
        let ghost init = *self;
        let len = self.selected_indices.len();
        let mut k: usize = 0;
        while k < len
            invariant
                *self == (App { lights: self.lights, ..init }),
                len == init.selected_indices@.len(),
                k <= len,
                init.wf(),
                self.lights@.len() == init.lights@.len(),
                forall|i: int|
                    0 <= i < self.lights@.len() ==> self.lights@[i] == (
                    if init.selected_indices@.subrange(0, k as int).contains(i as usize) {
                        controls_applied(init.lights@[i], init)
                    } else {
                        init.lights@[i]
                    }),
            decreases len - k,
        {
            let idx = self.selected_indices[k];
            if idx < self.lights.len() {
                proof {
                    assert(!init.selected_indices@.subrange(0, k as int).contains(idx));
                }
                let updated = match self.current_mode {
                    ModeType::CCT => {
                        let mut light = self.lights[idx];
                        light.mode = Some(ModeType::CCT);
                        light.dim = Some(self.dim as u16);
                        light.ct = Some(self.ct);
                        light.gm = Some(self.gm as i16);
                        light
                    },
                    ModeType::HSI => {
                        let mut light = self.lights[idx];
                        light.mode = Some(ModeType::HSI);
                        light.hue = Some(self.hue);
                        light.sat = Some(self.sat as u16);
                        light.dim = Some(self.dim as u16);
                        light
                    },
                };
                self.lights[idx] = updated;
            }
            proof {
                let prefix_next = init.selected_indices@.subrange(0, k + 1 as int);
                assert forall|i: int| 0 <= i < self.lights@.len() implies self.lights@[i] == (
                if prefix_next.contains(i as usize) {
                    controls_applied(init.lights@[i], init)
                } else {
                    init.lights@[i]
                }) by {
                    let prefix = init.selected_indices@.subrange(0, k as int);
                    if prefix_next.contains(i as usize) {
                        let j = choose|j: int|
                            0 <= j < prefix_next.len() && prefix_next[j] == i as usize;
                        if j < k {
                            assert(prefix[j] == i as usize);
                            assert(prefix.contains(i as usize));
                        }
                    } else {
                        assert(!prefix.contains(i as usize)) by {
                            if prefix.contains(i as usize) {
                                let j = choose|j: int|
                                    0 <= j < prefix.len() && prefix[j] == i as usize;
                                assert(prefix_next[j] == i as usize);
                            }
                        }
                        assert(init.selected_indices@[k as int] != i as usize) by {
                            if init.selected_indices@[k as int] == i as usize {
                                assert(prefix_next[k as int] == i as usize);
                            }
                        }
                    }
                }
            }
            k = k + 1;
        }
        proof {
            assert(init.selected_indices@.subrange(0, len as int) =~= init.selected_indices@);
        }
    }

    /// While a control is focused, nudges its value by `delta` (colour
    /// temperature moves in larger steps), clamped to the control's range,
    /// then applies the pending controls to every selected light.
    pub fn adjust_value(&mut self, delta: i32)
        requires
            old(self).wf(),
        ensures
            final(self).wf(),
            old(self).focus matches Focus::Control(c) ==> (*final(self) == (App {
                lights: final(self).lights,
                ..value_adjusted(*old(self), c, delta as int)
            }) && final(self).lights@.len() == old(self).lights@.len() && (forall|i: int|
                0 <= i < old(self).lights@.len() ==> final(self).lights@[i] == (if old(self).selected_indices@.contains(i as usize) {
                    controls_applied(old(self).lights@[i], value_adjusted(*old(self), c, delta as int))
                } else {
                    old(self).lights@[i]
                }))),
            !(old(self).focus matches Focus::Control(_)) ==> *final(self) == *old(self),
    {
        match self.focus {
            Focus::Control(control) => {
                match control {
                    ControlTarget::Dim | ControlTarget::Int => {
                        let v = self.dim as i64 + delta as i64;
                        self.dim = if v < 0 {
                            0
                        } else if v > 100 {
                            100
                        } else {
                            v as u8
                        };
                    },
                    ControlTarget::CT => {
                        let d = delta as i64;
                        let step: i64 = if d >= 10 || d <= -10 {
                            d * 10
                        } else {
                            d * 50
                        };
                        let v = self.ct as i64 + step;
                        self.ct = if v < 2700 {
                            2700
                        } else if v > 7500 {
                            7500
                        } else {
                            v as u16
                        };
                    },
                    ControlTarget::GM => {
                        let v = self.gm as i64 + delta as i64;
                        self.gm = if v < -100 {
                            -100
                        } else if v > 100 {
                            100
                        } else {
                            v as i8
                        };
                    },
                    ControlTarget::Hue => {
                        let v = self.hue as i64 + delta as i64;
                        self.hue = if v < 0 {
                            0
                        } else if v > 360 {
                            360
                        } else {
                            v as u16
                        };
                    },
                    ControlTarget::Sat => {
                        let v = self.sat as i64 + delta as i64;
                        self.sat = if v < 0 {
                            0
                        } else if v > 100 {
                            100
                        } else {
                            v as u8
                        };
                    },
                }
                self.update_selected_lights();
            },
            _ => {},
        }
    }
}

/// The other of the two modes.
pub open spec fn flipped(mode: ModeType) -> ModeType {
    match mode {
        ModeType::CCT => ModeType::HSI,
        ModeType::HSI => ModeType::CCT,
    }
}

/// The application state after one control is nudged by `delta`: the value
/// is clamped to the control's range, and the colour temperature moves by
/// tens of `delta` for coarse deltas and fifties for fine ones.
pub open spec fn value_adjusted(a: App, control: ControlTarget, delta: int) -> App {
    match control {
        ControlTarget::Dim | ControlTarget::Int => App {
            dim: clamp_spec(a.dim + delta, 0, 100) as u8,
            ..a
        },
        ControlTarget::CT => App {
            ct: clamp_spec(
                a.ct + (if delta >= 10 || delta <= -10 {
                    delta * 10
                } else {
                    delta * 50
                }),
                2700,
                7500,
            ) as u16,
            ..a
        },
        ControlTarget::GM => App { gm: clamp_spec(a.gm + delta, -100, 100) as i8, ..a },
        ControlTarget::Hue => App { hue: clamp_spec(a.hue + delta, 0, 360) as u16, ..a },
        ControlTarget::Sat => App { sat: clamp_spec(a.sat + delta, 0, 100) as u8, ..a },
    }
}

} // verus!

