use glowy::controller::{log_line, KeyboardState, RenderMode};
use glowy::demo::{frame, startup};

fn keys(key1_down: bool, key2_down: bool) -> KeyboardState {
    KeyboardState { key1_down, key2_down }
}

#[test]
fn startup_is_deferred_with_default_prepasses() {
    let st = startup();
    assert_eq!(st.mode, RenderMode::Deferred);
    let p = st.scene.camera.prepass;
    assert!(p.depth);
    assert!(p.motion_vector);
    assert!(p.deferred);
    assert!(!p.normal);
    assert!(!st.prev_keys.key1_down);
    assert!(!st.prev_keys.key2_down);
}

#[test]
fn pressing_two_switches_to_forward_and_strips_markers() {
    let mut st = startup();
    let log = frame(&mut st, keys(false, true));
    assert_eq!(st.mode, RenderMode::Forward);
    let p = st.scene.camera.prepass;
    assert!(!p.depth);
    assert!(!p.motion_vector);
    assert!(!p.deferred);
    assert!(!p.normal);
    assert_eq!(log, vec![RenderMode::Forward]);
}

#[test]
fn pressing_two_again_is_a_no_op_on_markers() {
    let mut st = startup();
    frame(&mut st, keys(false, true));
    let after_first = st.scene.camera.prepass;
    // Release, then press "2" a second time: a fresh edge, same markers.
    frame(&mut st, keys(false, false));
    let log = frame(&mut st, keys(false, true));
    assert_eq!(st.mode, RenderMode::Forward);
    assert_eq!(st.scene.camera.prepass, after_first);
    assert_eq!(log, vec![RenderMode::Forward]);
}

#[test]
fn pressing_one_restores_deferred_markers() {
    let mut st = startup();
    frame(&mut st, keys(false, true));
    frame(&mut st, keys(false, false));
    let log = frame(&mut st, keys(true, false));
    assert_eq!(st.mode, RenderMode::Deferred);
    let p = st.scene.camera.prepass;
    assert!(p.depth);
    assert!(p.motion_vector);
    assert!(p.deferred);
    assert!(!p.normal);
    assert_eq!(log, vec![RenderMode::Deferred]);
}

#[test]
fn pressing_one_twice_is_idempotent() {
    let mut st = startup();
    frame(&mut st, keys(true, false));
    let after_first = st.scene.camera.prepass;
    frame(&mut st, keys(false, false));
    frame(&mut st, keys(true, false));
    assert_eq!(st.mode, RenderMode::Deferred);
    assert_eq!(st.scene.camera.prepass, after_first);
}

#[test]
fn holding_a_key_fires_exactly_once() {
    let mut st = startup();
    frame(&mut st, keys(false, true));
    frame(&mut st, keys(false, false));
    // Press "1" and hold it down for several consecutive frames.
    let mut announcements = 0;
    for _ in 0..5 {
        announcements += frame(&mut st, keys(true, false)).len();
    }
    assert_eq!(announcements, 1);
    assert_eq!(st.mode, RenderMode::Deferred);
}

#[test]
fn unbound_input_changes_nothing() {
    let mut st = startup();
    let before_mode = st.mode;
    let before_prepass = st.scene.camera.prepass;
    let log = frame(&mut st, keys(false, false));
    assert!(log.is_empty());
    assert_eq!(st.mode, before_mode);
    assert_eq!(st.scene.camera.prepass, before_prepass);
}

#[test]
fn both_keys_in_one_frame_resolve_to_forward() {
    let mut st = startup();
    let log = frame(&mut st, keys(true, true));
    // Handlers run deferred-first, so the forward edge wins the frame.
    assert_eq!(log, vec![RenderMode::Deferred, RenderMode::Forward]);
    assert_eq!(st.mode, RenderMode::Forward);
    assert!(!st.scene.camera.prepass.depth);
}

#[test]
fn log_lines_name_the_new_mode() {
    assert_eq!(log_line(RenderMode::Deferred), "DefaultOpaqueRendererMethod: Deferred");
    assert_eq!(log_line(RenderMode::Forward), "DefaultOpaqueRendererMethod: Forward");
}
