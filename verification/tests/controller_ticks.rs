//! The frame controller: pipelining, event dispatch, the deferred mode
//! switch, and the single live frame.

use scene_pipeline::camera::{Camera, CameraGeometry, Mode, Transform2D};
use scene_pipeline::controller::{
    CameraOp, Event, FrameController, Key, MessageAction, SceneLoad, Stats, SwitchData, UIAction,
    UIEvent, UiRound, UiState, WindowSize,
};
use scene_pipeline::geom::{Scalar, Vector2I, ViewBox};
use scene_pipeline::options::{Background, Options, SvgPath, UIVisibility};
use scene_pipeline::worker::{BuildCommand, BuiltFrame, SceneWorker, Scene, SceneViewBox};

fn scalar(v: f32) -> Scalar {
    Scalar { bits: v.to_bits() }
}

fn affine(tx: f32) -> Transform2D {
    Transform2D {
        m00: scalar(1.0),
        m01: scalar(0.0),
        m10: scalar(0.0),
        m11: scalar(1.0),
        tx: scalar(tx),
        ty: scalar(0.0),
    }
}

fn view_box() -> ViewBox {
    ViewBox {
        origin_x: scalar(0.0),
        origin_y: scalar(0.0),
        size_x: scalar(640.0),
        size_y: scalar(480.0),
    }
}

fn window() -> WindowSize {
    WindowSize {
        logical_size: Vector2I { x: 640, y: 480 },
        backing_scale_factor: scalar(2.0),
        backing_scale_trunc: 2,
        scaled_font_size: scalar(32.0),
    }
}

fn geometry_2d() -> CameraGeometry {
    CameraGeometry::TwoD(affine(5.0))
}

fn geometry_3d() -> CameraGeometry {
    CameraGeometry::ThreeD {
        projection: scene_pipeline::camera::Transform3D {
            m00: scalar(1.5), m01: scalar(0.0), m02: scalar(0.0), m03: scalar(0.0),
            m10: scalar(0.0), m11: scalar(2.0), m12: scalar(0.0), m13: scalar(0.0),
            m20: scalar(0.0), m21: scalar(0.0), m22: scalar(-1.0), m23: scalar(-0.02),
            m30: scalar(0.0), m31: scalar(0.0), m32: scalar(-1.0), m33: scalar(0.0),
        },
        position: scene_pipeline::geom::Vector3S {
            x: scalar(320.0),
            y: scalar(-240.0),
            z: scalar(1.5),
        },
        scale: scalar(0.002),
    }
}

fn load_for(mode: Mode) -> SceneLoad {
    SceneLoad {
        scene: Scene {
            content_id: 1,
            view_box: SceneViewBox::Native(view_box()),
        },
        view_box: view_box(),
        monochrome_color: None,
        message: String::new(),
        view_box_size: Vector2I { x: 640, y: 480 },
        camera_geometry: match mode {
            Mode::TwoD => geometry_2d(),
            _ => geometry_3d(),
        },
        velocity_magnitude: scalar(0.02 * 480.0),
    }
}

fn controller(mode: Mode, pipeline: bool) -> (FrameController, Vec<BuildCommand>) {
    let options = Options {
        jobs: Some(1),
        mode,
        input_path: SvgPath::Default,
        ui: UIVisibility::Hidden,
        background: Background::Light,
        pipeline,
    };
    let (ctrl, cmds, timer) = FrameController::new(options, window(), 99, load_for(mode));
    assert!(timer.is_none());
    (ctrl, cmds)
}

fn frame_for(worker: &mut SceneWorker, cmds: &[BuildCommand]) -> Vec<BuiltFrame> {
    worker.run_batch(&cmds.to_vec())
}

#[test]
fn pipelining_sends_two_builds_on_the_first_tick_only() {
    let (mut ctrl, _) = controller(Mode::TwoD, true);
    let out = ctrl.handle_events(Vec::new());
    assert!(out.commands.is_empty());
    let cmds = ctrl.plan_build(None);
    assert_eq!(cmds.len(), 2);
    assert_eq!(cmds[0], cmds[1]);

    // Consume one result, finish the frame, and the next tick sends one.
    let mut worker = SceneWorker::new(load_for(Mode::TwoD).scene, Some(1));
    let frames = frame_for(&mut worker, &cmds);
    assert_eq!(frames.len(), 2);
    let mut frames = frames.into_iter();
    let count = ctrl.receive_frame(frames.next().unwrap(), out.ui_events);
    assert_eq!(count, 1);
    ctrl.finish_frame(None, None);
    assert_eq!(ctrl.frame_counter, 1);
    let cmds = ctrl.plan_build(None);
    assert_eq!(cmds.len(), 1);
}

#[test]
fn without_pipelining_exactly_one_build_goes_out() {
    let (mut ctrl, _) = controller(Mode::TwoD, false);
    ctrl.handle_events(Vec::new());
    let cmds = ctrl.plan_build(None);
    assert_eq!(cmds.len(), 1);
}

#[test]
fn the_build_carries_the_2d_camera_transform() {
    let (mut ctrl, _) = controller(Mode::TwoD, false);
    let cmds = ctrl.plan_build(None);
    match &cmds[0] {
        BuildCommand::Build(opts) => {
            assert_eq!(opts.render_transforms.len(), 1);
            match &opts.render_transforms[0] {
                scene_pipeline::worker::RenderTransform::Transform2D(t) => {
                    assert_eq!(*t, affine(5.0));
                },
                _ => panic!("a 2D camera builds a 2D transform"),
            }
        },
        _ => panic!("plan_build sends Build commands"),
    }
}

#[test]
fn vr_builds_one_transform_per_viewport() {
    let (mut ctrl, _) = controller(Mode::VR, false);
    let cmds = ctrl.plan_build(Some(scene_pipeline::worker::BarrelDistortion {
        k0: scalar(0.9),
        k1: scalar(0.1),
    }));
    match &cmds[0] {
        BuildCommand::Build(opts) => {
            assert_eq!(opts.render_transforms.len(), 2);
            assert!(opts.barrel_distortion.is_some());
        },
        _ => panic!("plan_build sends Build commands"),
    }
}

#[test]
fn mode_switch_discards_accumulated_camera_state() {
    let (mut ctrl, _) = controller(Mode::TwoD, false);
    // Accumulate a pan: the 2D transform moves away from the fresh one.
    ctrl.set_2d_transform(affine(123.0));
    assert_eq!(ctrl.camera, Camera::TwoD(affine(123.0)));

    // A tick whose UI round asks for 3D: the camera is rebuilt purely from
    // the stored view box geometry and the new viewport size.
    let cmds = ctrl.plan_build(None);
    let mut worker = SceneWorker::new(load_for(Mode::TwoD).scene, Some(1));
    let frames = frame_for(&mut worker, &cmds);
    ctrl.receive_frame(frames.into_iter().next().unwrap(), Vec::new());
    let switch = SwitchData {
        view_box_size: Vector2I { x: 640, y: 480 },
        geometry: geometry_3d(),
    };
    ctrl.finish_frame(
        Some(UiRound {
            action: UIAction::Idle,
            returned_events: Vec::new(),
            new_ui: UiState {
                mode: Mode::ThreeD,
                background: Background::Light,
                stem_darkening_effect_enabled: false,
                subpixel_aa_effect_enabled: false,
                gamma_correction_effect_enabled: false,
                show_text_effects: false,
            },
        }),
        Some(switch),
    );
    // Fresh 3D camera: zero velocity, no rotation, placement from geometry.
    match &ctrl.camera {
        Camera::ThreeD { mode, transform, velocity, transforms } => {
            assert_eq!(*mode, Mode::ThreeD);
            assert!(velocity.x.is_zero() && velocity.y.is_zero() && velocity.z.is_zero());
            assert_eq!(transform.yaw, scalar(0.0));
            assert_eq!(transform.pitch, scalar(0.0));
            assert!(transforms.secondary.is_none());
        },
        _ => panic!("the switch must build a 3D camera"),
    }

    // Switching back rebuilds the 2D camera from scratch: the old pan to
    // 123 is gone, the camera equals the freshly derived transform again.
    let cmds = ctrl.plan_build(None);
    let frames = frame_for(&mut worker, &cmds);
    ctrl.receive_frame(frames.into_iter().next().unwrap(), Vec::new());
    ctrl.finish_frame(
        Some(UiRound {
            action: UIAction::Idle,
            returned_events: Vec::new(),
            new_ui: UiState {
                mode: Mode::TwoD,
                background: Background::Light,
                stem_darkening_effect_enabled: false,
                subpixel_aa_effect_enabled: false,
                gamma_correction_effect_enabled: false,
                show_text_effects: false,
            },
        }),
        Some(SwitchData {
            view_box_size: Vector2I { x: 640, y: 480 },
            geometry: geometry_2d(),
        }),
    );
    assert_eq!(ctrl.camera, Camera::TwoD(affine(5.0)));
}

#[test]
fn stale_user_event_does_not_clear_and_matching_one_does() {
    let options = Options {
        jobs: None,
        mode: Mode::TwoD,
        input_path: SvgPath::Default,
        ui: UIVisibility::Hidden,
        background: Background::Light,
        pipeline: false,
    };
    let mut load = load_for(Mode::TwoD);
    load.message = String::from("Warning: unsupported content.");
    let (mut ctrl, _, timer) = FrameController::new(options, window(), 99, load);
    let timer = timer.expect("a non-empty message starts a timer");
    assert_eq!(ctrl.message_epoch, 1);

    // A stale epoch is filtered out.
    let out = ctrl.handle_events(vec![Event::User { message_type: 99, message_data: 0 }]);
    assert!(out.message_actions.is_empty());

    // The live timer clears.
    let out = ctrl.handle_events(vec![Event::User {
        message_type: timer.event_id,
        message_data: timer.expected_epoch,
    }]);
    assert_eq!(out.message_actions, vec![MessageAction::Clear]);
    assert!(ctrl.dirty);
}

#[test]
fn movement_keys_set_and_clear_velocity_axes() {
    let (mut ctrl, _) = controller(Mode::ThreeD, false);
    let magnitude = scalar(0.02 * 480.0);
    ctrl.handle_events(vec![Event::KeyDown(Key::Char(b'w'))]);
    match &ctrl.camera {
        Camera::ThreeD { velocity, .. } => {
            assert_eq!(velocity.z.bits, (-(0.02f32 * 480.0)).to_bits());
            assert_eq!(velocity.x, scalar(0.0));
        },
        _ => panic!(),
    }
    ctrl.handle_events(vec![Event::KeyDown(Key::Char(b'd'))]);
    match &ctrl.camera {
        Camera::ThreeD { velocity, .. } => {
            assert_eq!(velocity.x, magnitude);
        },
        _ => panic!(),
    }
    ctrl.handle_events(vec![
        Event::KeyUp(Key::Char(b'w')),
        Event::KeyUp(Key::Char(b'd')),
    ]);
    match &ctrl.camera {
        Camera::ThreeD { velocity, .. } => {
            assert!(velocity.is_zero());
        },
        _ => panic!(),
    }
    // The motion request follows the velocity: none once it is zero.
    assert!(ctrl.begin_motion().is_none());
}

#[test]
fn mouse_positions_scale_and_subtract() {
    let (mut ctrl, _) = controller(Mode::TwoD, false);
    let out = ctrl.handle_events(vec![
        Event::MouseDown(Vector2I { x: 10, y: 20 }),
        Event::MouseDragged(Vector2I { x: 13, y: 19 }),
    ]);
    assert_eq!(out.ui_events.len(), 2);
    match out.ui_events[0] {
        UIEvent::MouseDown(p) => {
            // Scaled by the truncated backing factor of two.
            assert_eq!(p.absolute, Vector2I { x: 20, y: 40 });
            assert_eq!(p.relative, Vector2I { x: 20, y: 40 });
        },
        _ => panic!(),
    }
    match out.ui_events[1] {
        UIEvent::MouseDragged(p) => {
            assert_eq!(p.absolute, Vector2I { x: 26, y: 38 });
            assert_eq!(p.relative, Vector2I { x: 6, y: -2 });
        },
        _ => panic!(),
    }
}

#[test]
fn zoom_only_reaches_a_2d_camera() {
    let (mut ctrl, _) = controller(Mode::TwoD, false);
    let out = ctrl.handle_events(vec![Event::Zoom(scalar(0.5))]);
    assert_eq!(out.camera_ops, vec![CameraOp::ZoomGesture { d_dist: scalar(0.5) }]);

    let (mut ctrl3, _) = controller(Mode::ThreeD, false);
    let out = ctrl3.handle_events(vec![Event::Zoom(scalar(0.5))]);
    assert!(out.camera_ops.is_empty());
}

#[test]
fn resize_propagates_the_viewport_size_to_the_worker() {
    let (mut ctrl, _) = controller(Mode::TwoD, false);
    let new_window = WindowSize {
        logical_size: Vector2I { x: 800, y: 600 },
        backing_scale_factor: scalar(1.0),
        backing_scale_trunc: 1,
        scaled_font_size: scalar(16.0),
    };
    let out = ctrl.handle_events(vec![Event::WindowResized {
        new_size: new_window,
        view_box_size: Vector2I { x: 800, y: 600 },
    }]);
    assert_eq!(
        out.commands,
        vec![BuildCommand::SetViewportSize(Vector2I { x: 800, y: 600 })]
    );
    assert_eq!(ctrl.window_size, new_window);
    assert!(ctrl.dirty);
}

#[test]
fn tab_cycles_ui_visibility() {
    let (mut ctrl, _) = controller(Mode::TwoD, false);
    assert_eq!(ctrl.options.ui, UIVisibility::Hidden);
    ctrl.handle_events(vec![Event::KeyDown(Key::Tab)]);
    assert_eq!(ctrl.options.ui, UIVisibility::Stats);
    ctrl.handle_events(vec![Event::KeyDown(Key::Tab)]);
    assert_eq!(ctrl.options.ui, UIVisibility::All);
    ctrl.handle_events(vec![Event::KeyDown(Key::Tab)]);
    assert_eq!(ctrl.options.ui, UIVisibility::Hidden);
}

#[test]
fn escape_requests_exit() {
    let (mut ctrl, _) = controller(Mode::TwoD, false);
    assert!(!ctrl.should_exit);
    ctrl.handle_events(vec![Event::KeyDown(Key::Escape)]);
    assert!(ctrl.should_exit);
}

#[test]
fn stats_accumulate_across_viewports() {
    let (mut ctrl, _) = controller(Mode::VR, false);
    let cmds = ctrl.plan_build(Some(scene_pipeline::worker::BarrelDistortion {
        k0: scalar(0.0),
        k1: scalar(0.0),
    }));
    let mut worker = SceneWorker::new(load_for(Mode::VR).scene, None);
    let frames = frame_for(&mut worker, &cmds);
    let count = ctrl.receive_frame(frames.into_iter().next().unwrap(), Vec::new());
    assert_eq!(count, 2);
    let s1 = Stats { object_count: 10, solid_tile_count: 5, alpha_tile_count: 2, pending_fills: 1 };
    let s2 = Stats { object_count: 1, solid_tile_count: 1, alpha_tile_count: 1, pending_fills: 1 };
    ctrl.record_viewport_render(s1, Some(1000));
    ctrl.record_viewport_render(s2, None);
    let frame = ctrl.current_frame.as_ref().unwrap();
    let rs = frame.render_stats.unwrap();
    assert_eq!(rs.rendering_time_nanos, Some(1000));
    assert_eq!(rs.stats.object_count, 11);
    assert_eq!(rs.stats.solid_tile_count, 6);
    assert_eq!(rs.stats.alpha_tile_count, 3);
    assert_eq!(rs.stats.pending_fills, 2);
}

#[test]
fn a_pending_screenshot_goes_out_on_the_next_finish() {
    let (mut ctrl, _) = controller(Mode::TwoD, false);
    ctrl.handle_events(vec![Event::KeyDown(Key::Tab)]); // ui: Stats
    let cmds = ctrl.plan_build(None);
    let mut worker = SceneWorker::new(load_for(Mode::TwoD).scene, Some(1));
    let frames = frame_for(&mut worker, &cmds);
    ctrl.receive_frame(frames.into_iter().next().unwrap(), Vec::new());
    let _input = ctrl.finish_frame_ui_input().expect("stats visibility shows a UI");
    let out = ctrl.finish_frame(
        Some(UiRound {
            action: UIAction::TakeScreenshot(String::from("shot.png")),
            returned_events: Vec::new(),
            new_ui: ctrl.ui,
        }),
        None,
    );
    // Requested this tick, taken on the next finish.
    assert!(out.screenshot.is_none());
    assert_eq!(ctrl.pending_screenshot_path.as_deref(), Some("shot.png"));

    let cmds = ctrl.plan_build(None);
    let frames = frame_for(&mut worker, &cmds);
    ctrl.receive_frame(frames.into_iter().next().unwrap(), Vec::new());
    ctrl.finish_frame_ui_input();
    let out = ctrl.finish_frame(
        Some(UiRound {
            action: UIAction::Idle,
            returned_events: Vec::new(),
            new_ui: ctrl.ui,
        }),
        None,
    );
    assert_eq!(out.screenshot.as_deref(), Some("shot.png"));
    assert!(ctrl.pending_screenshot_path.is_none());
}

#[test]
fn unconsumed_mouse_down_toggles_mouselook_in_3d() {
    let (mut ctrl, _) = controller(Mode::ThreeD, false);
    let cmds = ctrl.plan_build(None);
    let mut worker = SceneWorker::new(load_for(Mode::ThreeD).scene, Some(1));
    let frames = frame_for(&mut worker, &cmds);
    let down = UIEvent::MouseDown(scene_pipeline::controller::MousePosition {
        absolute: Vector2I { x: 0, y: 0 },
        relative: Vector2I { x: 0, y: 0 },
    });
    ctrl.receive_frame(frames.into_iter().next().unwrap(), vec![down]);
    assert!(!ctrl.mouselook_enabled);
    ctrl.finish_frame(None, None);
    assert!(ctrl.mouselook_enabled);
}

#[test]
fn drags_pan_a_2d_camera_after_dispatch() {
    let (mut ctrl, _) = controller(Mode::TwoD, false);
    let cmds = ctrl.plan_build(None);
    let mut worker = SceneWorker::new(load_for(Mode::TwoD).scene, Some(1));
    let frames = frame_for(&mut worker, &cmds);
    let drag = UIEvent::MouseDragged(scene_pipeline::controller::MousePosition {
        absolute: Vector2I { x: 10, y: 10 },
        relative: Vector2I { x: 3, y: 4 },
    });
    ctrl.receive_frame(frames.into_iter().next().unwrap(), vec![drag]);
    let out = ctrl.finish_frame(None, None);
    assert_eq!(
        out.camera_ops,
        vec![CameraOp::Pan { relative: Vector2I { x: 3, y: 4 } }]
    );
}

#[test]
fn open_scene_reloads_camera_view_box_and_worker() {
    let (mut ctrl, _) = controller(Mode::TwoD, false);
    ctrl.set_2d_transform(affine(50.0));
    let new_box = ViewBox {
        origin_x: scalar(0.0),
        origin_y: scalar(0.0),
        size_x: scalar(100.0),
        size_y: scalar(100.0),
    };
    let load = SceneLoad {
        scene: Scene { content_id: 8, view_box: SceneViewBox::Native(new_box) },
        view_box: new_box,
        monochrome_color: Some(scene_pipeline::controller::Color { r: 1, g: 2, b: 3, a: 255 }),
        message: String::from("Warning: unsupported features."),
        view_box_size: Vector2I { x: 640, y: 480 },
        camera_geometry: geometry_2d(),
        velocity_magnitude: scalar(0.0002),
    };
    let out = ctrl.handle_events(vec![Event::OpenScene(load)]);
    assert_eq!(ctrl.scene_view_box, new_box);
    assert_eq!(ctrl.camera, Camera::TwoD(affine(5.0)));
    assert_eq!(out.commands.len(), 1);
    match &out.commands[0] {
        BuildCommand::LoadScene { scene, viewport_size } => {
            assert_eq!(scene.content_id, 8);
            assert_eq!(*viewport_size, Vector2I { x: 640, y: 480 });
        },
        _ => panic!(),
    }
    assert_eq!(
        out.message_actions,
        vec![MessageAction::Show(String::from("Warning: unsupported features."))]
    );
}
