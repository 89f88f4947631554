//! The demo as a whole: startup state and the per-frame update.
//!
//! `startup` builds the scene once and fixes the initial shading strategy;
//! `frame` is the only thing that runs afterwards, once per rendered frame.
//! Edge detection is explicit: the state keeps the keyboard state seen on
//! the previous frame and compares it with the current one, so a held key
//! produces its effect exactly once, on the press edge.

use vstd::prelude::*;

use crate::controller::{
    deferred_markers, spec_just_pressed, step_log, step_markers, step_mode, switch_mode,
    just_pressed, KeyboardState, RenderMode,
};
use crate::scene::{is_demo_scene, setup, Camera, Scene};

verus! {

/// Everything the demo mutates at runtime: the scene (only the camera's
/// prepass markers ever change), the process-wide shading strategy, and
/// the keyboard state of the previous frame.
#[derive(Clone, Debug)]
pub struct DemoState {
    pub scene: Scene,
    pub mode: RenderMode,
    pub prev_keys: KeyboardState,
}

/// The state after one frame with current keyboard state `keys`, and the
/// modes announced during that frame: press edges are computed against the
/// previous frame's keys, the toggle is applied to the mode and to the
/// camera's prepass markers, and the keys are remembered for the next
/// frame. Nothing else changes.
pub open spec fn spec_frame(st: DemoState, keys: KeyboardState) -> (DemoState, Seq<RenderMode>) {
    let e1 = spec_just_pressed(st.prev_keys.key1_down, keys.key1_down);
    let e2 = spec_just_pressed(st.prev_keys.key2_down, keys.key2_down);
    (
        DemoState {
            scene: Scene {
                camera: Camera {
                    prepass: step_markers(st.scene.camera.prepass, e1, e2),
                    ..st.scene.camera
                },
                ..st.scene
            },
            mode: step_mode(st.mode, e1, e2),
            prev_keys: keys,
        },
        step_log(e1, e2),
    )
}

/// Builds the scene and the startup render state: shading strategy
/// Deferred, no bound key considered held.
pub fn startup() -> (st: DemoState)
    ensures
        is_demo_scene(st.scene),
        st.mode == RenderMode::Deferred,
        st.prev_keys == KeyboardState::spec_released(),
{
    DemoState { scene: setup(), mode: RenderMode::Deferred, prev_keys: KeyboardState::released() }
}

/// One frame of the update logic, exactly as `spec_frame` describes it;
/// returns the modes to announce, in order.
pub fn frame(st: &mut DemoState, keys: KeyboardState) -> (log: Vec<RenderMode>)
    ensures
        *final(st) == spec_frame(*old(st), keys).0,
        log@ == spec_frame(*old(st), keys).1,
{
    let e1 = just_pressed(st.prev_keys.key1_down, keys.key1_down);
    let e2 = just_pressed(st.prev_keys.key2_down, keys.key2_down);
    let log = switch_mode(&mut st.mode, &mut st.scene.camera, e1, e2);
    st.prev_keys = keys;
    log
}

/// At startup the camera carries exactly the markers of deferred shading:
/// depth, motion-vector and deferred prepass attached, no normal prepass.
pub proof fn lemma_startup_markers(s: Scene)
    requires
        is_demo_scene(s),
    ensures
        s.camera.prepass == deferred_markers(),
        s.camera.prepass.depth,
        s.camera.prepass.motion_vector,
        s.camera.prepass.deferred,
        !s.camera.prepass.normal,
{
}

/// A held key fires only on its press edge: once a frame has seen a
/// keyboard state, a further frame with the very same keys still held (or
/// still released) changes nothing and announces nothing.
pub proof fn lemma_held_key_fires_once(st: DemoState, keys: KeyboardState)
    requires
        st.prev_keys == keys,
    ensures
        spec_frame(st, keys).0 == st,
        spec_frame(st, keys).1 == Seq::<RenderMode>::empty(),
{
    assert(spec_frame(st, keys).1 =~= Seq::<RenderMode>::empty());
}

/// A fresh press of key "1", with no simultaneous fresh press of key "2",
/// announces Deferred exactly once and switches the mode to Deferred —
/// and by `lemma_held_key_fires_once`, frames that keep the key held
/// add nothing further.
pub proof fn lemma_press_edge_fires(st: DemoState, keys: KeyboardState)
    requires
        !st.prev_keys.key1_down,
        keys.key1_down,
        keys.key2_down ==> st.prev_keys.key2_down,
    ensures
        spec_frame(st, keys).1 == seq![RenderMode::Deferred],
        spec_frame(st, keys).0.mode == RenderMode::Deferred,
        spec_frame(st, keys).0.prev_keys == keys,
{
    assert(spec_frame(st, keys).1 =~= seq![RenderMode::Deferred]);
}

} // verus!
