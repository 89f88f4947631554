//! The render-mode controller: a two-state machine over {Deferred,
//! Forward}, switched by discrete key-press edges.
//!
//! Key "1" selects Deferred shading and key "2" selects Forward shading.
//! Both bindings are edge-triggered: an effect fires only the instant a key
//! goes from up to down, never while it is held. When both edges arrive in
//! one frame the handlers run in order — deferred first, forward second —
//! so the forward selection wins on the shared mode state.

use vstd::prelude::*;

use crate::scene::{Camera, PrepassFlags};

verus! {

/// The two shading strategies.
#[derive(Clone, Copy, Debug, PartialEq, Eq, Structural)]
pub enum RenderMode {
    Deferred,
    Forward,
}

/// Down-state of the two bound keys during one frame.
#[derive(Clone, Copy, Debug, PartialEq, Eq, Structural)]
pub struct KeyboardState {
    pub key1_down: bool,
    pub key2_down: bool,
}

impl KeyboardState {
    /// Keyboard state with neither bound key held.
    pub open spec fn spec_released() -> KeyboardState {
        KeyboardState { key1_down: false, key2_down: false }
    }

    /// Keyboard state with neither bound key held.
    pub fn released() -> (k: KeyboardState)
        ensures
            k == KeyboardState::spec_released(),
    {
        KeyboardState { key1_down: false, key2_down: false }
    }
}

/// A press edge: the key is down this frame and was up on the previous one.
pub open spec fn spec_just_pressed(prev: bool, cur: bool) -> bool {
    cur && !prev
}

/// A press edge: the key is down this frame and was up on the previous one.
pub fn just_pressed(prev: bool, cur: bool) -> (r: bool)
    ensures
        r == spec_just_pressed(prev, cur),
{
    cur && !prev
}

/// The prepass markers a camera carries under deferred shading: depth,
/// motion-vector and deferred attached, no normal prepass.
pub open spec fn deferred_markers() -> PrepassFlags {
    PrepassFlags { depth: true, motion_vector: true, deferred: true, normal: false }
}

/// The prepass markers a camera carries under forward shading: none.
pub open spec fn forward_markers() -> PrepassFlags {
    PrepassFlags { depth: false, motion_vector: false, deferred: false, normal: false }
}

/// The mode after one frame of the toggle, given the two press edges.
/// The deferred handler runs first, so a forward edge wins the frame.
pub open spec fn step_mode(m: RenderMode, select_deferred: bool, select_forward: bool) -> RenderMode {
    if select_forward {
        RenderMode::Forward
    } else if select_deferred {
        RenderMode::Deferred
    } else {
        m
    }
}

/// The camera's prepass markers after one frame of the toggle. Attaching a
/// marker that is already present, and removing one that is absent, are
/// no-ops, so each selection yields one fixed marker set.
pub open spec fn step_markers(
    f: PrepassFlags,
    select_deferred: bool,
    select_forward: bool,
) -> PrepassFlags {
    if select_forward {
        forward_markers()
    } else if select_deferred {
        deferred_markers()
    } else {
        f
    }
}

/// The modes announced by the log during one frame, in handler order.
pub open spec fn step_log(select_deferred: bool, select_forward: bool) -> Seq<RenderMode> {
    let d: Seq<RenderMode> = if select_deferred {
        seq![RenderMode::Deferred]
    } else {
        Seq::empty()
    };
    let f: Seq<RenderMode> = if select_forward {
        seq![RenderMode::Forward]
    } else {
        Seq::empty()
    };
    d + f
}

/// The log line emitted when a mode is selected.
pub open spec fn spec_log_line(mode: RenderMode) -> Seq<char> {
    if mode is Deferred {
        "DefaultOpaqueRendererMethod: Deferred"@
    } else {
        "DefaultOpaqueRendererMethod: Forward"@
    }
}

/// The log line emitted when a mode is selected.
pub fn log_line(mode: RenderMode) -> (s: &'static str)
    ensures
        s@ == spec_log_line(mode),
{
    match mode {
        RenderMode::Deferred => "DefaultOpaqueRendererMethod: Deferred",
        RenderMode::Forward => "DefaultOpaqueRendererMethod: Forward",
    }
}

/// One frame of the mode toggle, on already-detected press edges: updates
/// the process-wide shading strategy and the camera's prepass markers, and
/// returns the modes to announce, in order. Everything on the camera but
/// the prepass markers is left untouched. With no edge, nothing changes
/// and nothing is logged.
pub fn switch_mode(
    mode: &mut RenderMode,
    camera: &mut Camera,
    select_deferred: bool,
    select_forward: bool,
) -> (log: Vec<RenderMode>)
    ensures
        *final(mode) == step_mode(*old(mode), select_deferred, select_forward),
        final(camera).prepass == step_markers(old(camera).prepass, select_deferred, select_forward),
        *final(camera) == (Camera { prepass: final(camera).prepass, ..*old(camera) }),
        log@ == step_log(select_deferred, select_forward),
{
    let mut log: Vec<RenderMode> = Vec::new();
    if select_deferred {
        *mode = RenderMode::Deferred;
        log.push(RenderMode::Deferred);
        // Remove the normal prepass, attach depth, motion-vector, deferred.
        camera.prepass = PrepassFlags {
            depth: true,
            motion_vector: true,
            deferred: true,
            normal: false,
        };
    }
    if select_forward {
        *mode = RenderMode::Forward;
        log.push(RenderMode::Forward);
        // Remove every auxiliary prepass marker.
        camera.prepass = PrepassFlags {
            depth: false,
            motion_vector: false,
            deferred: false,
            normal: false,
        };
    }
    proof {
        assert(log@ =~= step_log(select_deferred, select_forward));
    }
    log
}

/// Selecting Forward removes the depth, motion-vector and deferred markers
/// (and any normal marker), whatever was attached before; selecting it
/// again changes neither the markers nor the mode: the transition is
/// idempotent.
pub proof fn lemma_forward_idempotent(f: PrepassFlags, m: RenderMode)
    ensures
        step_markers(f, false, true) == forward_markers(),
        step_mode(m, false, true) == RenderMode::Forward,
        step_markers(step_markers(f, false, true), false, true) == step_markers(f, false, true),
        step_mode(step_mode(m, false, true), false, true) == step_mode(m, false, true),
{
}

/// Selecting Deferred restores the depth, motion-vector and deferred
/// markers and removes any normal marker, whatever was attached before;
/// selecting it again changes neither the markers nor the mode: the
/// transition is idempotent.
pub proof fn lemma_deferred_idempotent(f: PrepassFlags, m: RenderMode)
    ensures
        step_markers(f, true, false) == deferred_markers(),
        !step_markers(f, true, false).normal,
        step_mode(m, true, false) == RenderMode::Deferred,
        step_markers(step_markers(f, true, false), true, false) == step_markers(f, true, false),
        step_mode(step_mode(m, true, false), true, false) == step_mode(m, true, false),
{
}

/// With no press edge the frame is inert: the mode and the markers keep
/// their values and nothing is logged.
pub proof fn lemma_no_edge_no_change(f: PrepassFlags, m: RenderMode)
    ensures
        step_markers(f, false, false) == f,
        step_mode(m, false, false) == m,
        step_log(false, false) == Seq::<RenderMode>::empty(),
{
    assert(step_log(false, false) =~= Seq::<RenderMode>::empty());
}

} // verus!
