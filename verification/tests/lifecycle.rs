use oswin::app_core::Core;
use oswin::canvas::Canvas;
use oswin::canvas::Color;
use oswin::font::DefaultFonts;
use oswin::oswin::AaMode;
use oswin::oswin::FramePlan;
use oswin::oswin::Oswin;
use oswin::oswin::OswinManager;
use oswin::oswin::OswinState;
use oswin::ui_text::Glyph;
use oswin::ui_text::UiFont;

fn two_window_manager() -> OswinManager {
    OswinManager {
        oswins: vec![
            Oswin { id: 1, state: OswinState::Suspended, canvas: Canvas::new(1000) },
            Oswin { id: 2, state: OswinState::Suspended, canvas: Canvas::new(1000) },
        ],
        renderers: vec![],
    }
}

fn test_core() -> Core {
    let font = UiFont::new(
        0,
        vec![('N', 1), ('O', 2), ('R', 3), ('M', 4), ('A', 5), ('L', 6)],
        vec![(1, 5), (2, 6), (3, 7), (4, 8), (5, 9), (6, 10)],
        20,
        0,
        0,
    )
    .unwrap();
    Core::new(DefaultFonts::new(font))
}

#[test]
fn a_new_manager_has_one_suspended_window() {
    let mgr = OswinManager::new(42, 1000);
    assert_eq!(mgr.oswins.len(), 1);
    assert_eq!(mgr.oswins[0].id, 42);
    assert_eq!(mgr.oswins[0].state, OswinState::Suspended);
    assert_eq!(mgr.oswins[0].canvas.scene.len(), 0);
    assert_eq!(mgr.oswins[0].canvas.scale_factor_milli, 1000);
    assert!(mgr.renderers.is_empty());
}

#[test]
fn resume_activates_and_registers_the_renderer_once() {
    let mut mgr = OswinManager::new(7, 1000);
    assert_eq!(mgr.suspended_windows(), vec![7]);
    let need = mgr.resume(7, 5, 800, 600);
    assert!(need);
    assert_eq!(mgr.oswins[0].state, OswinState::Active { dev_id: 5, width: 800, height: 600 });
    assert_eq!(mgr.renderers, vec![5]);
    assert!(mgr.suspended_windows().is_empty());
    // resuming an already active window changes nothing and asks for nothing
    let again = mgr.resume(7, 9, 100, 100);
    assert!(!again);
    assert_eq!(mgr.oswins[0].state, OswinState::Active { dev_id: 5, width: 800, height: 600 });
    assert_eq!(mgr.renderers, vec![5]);
}

#[test]
fn two_windows_on_one_device_share_one_renderer() {
    let mut mgr = two_window_manager();
    let first = mgr.resume(1, 5, 800, 600);
    let second = mgr.resume(2, 5, 640, 480);
    assert!(first);
    assert!(!second);
    assert_eq!(mgr.renderers, vec![5]);
    assert_eq!(mgr.oswins[0].state, OswinState::Active { dev_id: 5, width: 800, height: 600 });
    assert_eq!(mgr.oswins[1].state, OswinState::Active { dev_id: 5, width: 640, height: 480 });
}

#[test]
fn windows_on_different_devices_get_their_own_renderers() {
    let mut mgr = two_window_manager();
    assert!(mgr.resume(1, 5, 800, 600));
    assert!(mgr.resume(2, 6, 640, 480));
    assert_eq!(mgr.renderers, vec![5, 6]);
}

#[test]
fn suspend_drops_surfaces_and_keeps_the_pool() {
    let mut mgr = two_window_manager();
    mgr.resume(1, 5, 800, 600);
    mgr.resume(2, 6, 640, 480);
    mgr.suspend();
    assert_eq!(mgr.oswins[0].state, OswinState::Suspended);
    assert_eq!(mgr.oswins[1].state, OswinState::Suspended);
    assert_eq!(mgr.renderers, vec![5, 6]);
    assert_eq!(mgr.suspended_windows(), vec![1, 2]);
    // a later resume on the same device reuses the pooled renderer
    assert!(!mgr.resume(1, 5, 800, 600));
    assert_eq!(mgr.renderers, vec![5, 6]);
}

#[test]
fn resize_of_an_active_window_keeps_its_device_binding() {
    let mut mgr = OswinManager::new(1, 1000);
    mgr.resume(1, 5, 800, 600);
    let resized = mgr.resize(1, 1024, 768);
    assert!(resized);
    assert_eq!(mgr.oswins[0].state, OswinState::Active { dev_id: 5, width: 1024, height: 768 });
    // the renderer pool is untouched: nothing was recreated
    assert_eq!(mgr.renderers, vec![5]);
}

#[test]
fn resize_of_a_suspended_window_is_a_no_op() {
    let mut mgr = OswinManager::new(1, 1000);
    let before = OswinManager::new(1, 1000);
    let resized = mgr.resize(1, 1024, 768);
    assert!(!resized);
    assert_eq!(mgr, before);
}

#[test]
fn resize_of_an_unknown_window_is_a_no_op() {
    let mut mgr = OswinManager::new(1, 1000);
    mgr.resume(1, 5, 800, 600);
    let resized = mgr.resize(99, 1024, 768);
    assert!(!resized);
    assert_eq!(mgr.oswins[0].state, OswinState::Active { dev_id: 5, width: 800, height: 600 });
}

#[test]
fn close_removes_the_window_and_signals_exit_on_the_last() {
    let mut mgr = two_window_manager();
    let exit_first = mgr.close(1);
    assert!(!exit_first);
    assert_eq!(mgr.oswins.len(), 1);
    assert_eq!(mgr.oswins[0].id, 2);
    let exit_second = mgr.close(2);
    assert!(exit_second);
    assert!(mgr.oswins.is_empty());
    // with every window gone, no further close may signal exit again
    assert!(!mgr.close(2));
}

#[test]
fn close_of_an_unknown_window_changes_nothing() {
    let mut mgr = OswinManager::new(1, 1000);
    let exit = mgr.close(99);
    assert!(!exit);
    assert_eq!(mgr.oswins.len(), 1);
    assert_eq!(mgr.oswins[0].id, 1);
}

#[test]
fn close_keeps_the_renderer_pool() {
    let mut mgr = two_window_manager();
    mgr.resume(1, 5, 800, 600);
    mgr.close(1);
    assert_eq!(mgr.renderers, vec![5]);
}

#[test]
fn redraw_of_an_active_window_fills_its_scene_and_plans_the_frame() {
    let core = test_core();
    let mut mgr = OswinManager::new(1, 1000);
    mgr.resume(1, 5, 800, 600);
    let plan = mgr.redraw(1, &core);
    assert_eq!(
        plan,
        Some(FramePlan {
            dev_id: 5,
            width: 800,
            height: 600,
            background: Color { r: 0, g: 0, b: 0, a: 255 },
            aa: AaMode::Msaa16,
        })
    );
    let canvas = mgr.window_canvas(1).unwrap();
    assert_eq!(canvas.scene.len(), 1);
    assert_eq!(canvas.scene[0].glyphs[0], Glyph { id: 1, x: 0, y: 0 });
    assert_eq!(canvas.scene[0].glyphs.len(), 6);
}

#[test]
fn redraw_resets_the_scene_between_frames() {
    let core = test_core();
    let mut mgr = OswinManager::new(1, 1000);
    mgr.resume(1, 5, 800, 600);
    mgr.redraw(1, &core);
    mgr.redraw(1, &core);
    // the second frame replaced the first; nothing accumulated
    assert_eq!(mgr.window_canvas(1).unwrap().scene.len(), 1);
}

#[test]
fn redraw_of_a_suspended_window_is_a_no_op() {
    let core = test_core();
    let mut mgr = OswinManager::new(1, 1000);
    let before = OswinManager::new(1, 1000);
    let plan = mgr.redraw(1, &core);
    assert_eq!(plan, None);
    assert_eq!(mgr, before);
}

#[test]
fn redraw_of_an_unknown_window_is_a_no_op() {
    let core = test_core();
    let mut mgr = OswinManager::new(1, 1000);
    mgr.resume(1, 5, 800, 600);
    let snapshot_state = mgr.oswins[0].state;
    let plan = mgr.redraw(99, &core);
    assert_eq!(plan, None);
    // no entry was created for the unknown id, nothing changed
    assert_eq!(mgr.oswins.len(), 1);
    assert_eq!(mgr.oswins[0].state, snapshot_state);
    assert_eq!(mgr.window_canvas(99).map(|_| ()), None);
}

#[test]
fn resume_of_an_unknown_window_is_a_no_op() {
    let mut mgr = OswinManager::new(1, 1000);
    let before = OswinManager::new(1, 1000);
    let need = mgr.resume(99, 5, 800, 600);
    assert!(!need);
    assert_eq!(mgr, before);
    assert!(mgr.renderers.is_empty());
}

#[test]
fn suspended_windows_lists_only_the_suspended_ones() {
    let mut mgr = two_window_manager();
    mgr.resume(1, 5, 800, 600);
    assert_eq!(mgr.suspended_windows(), vec![2]);
}
