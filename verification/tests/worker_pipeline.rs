//! The scene-build worker: ordering, pairing, fault screening.

use scene_pipeline::camera::{CameraTransform, CameraTransform3D, PerspectiveCam, Transform3D};
use scene_pipeline::geom::{Scalar, Vector2I, Vector3S};
use scene_pipeline::worker::{
    build_scene, check_build_outcomes, BuildCommand, BuildOptions, RenderTransform, Scene,
    SceneViewBox, SceneWorker,
};
use scene_pipeline::camera::Transform2D;

fn scalar(v: f32) -> Scalar {
    Scalar { bits: v.to_bits() }
}

fn affine(tx: f32) -> Transform2D {
    Transform2D {
        m00: scalar(1.0),
        m01: scalar(0.0),
        m10: scalar(0.0),
        m11: scalar(1.0),
        tx: scalar(tx),
        ty: scalar(0.0),
    }
}

fn transform(tx: f32) -> RenderTransform {
    RenderTransform::Transform2D(affine(tx))
}

fn scene(id: u64) -> Scene {
    Scene {
        content_id: id,
        view_box: SceneViewBox::Drawable(Vector2I { x: 640, y: 480 }),
    }
}

fn options(transforms: Vec<RenderTransform>) -> BuildOptions {
    BuildOptions {
        render_transforms: transforms,
        stem_darkening_font_size: None,
        barrel_distortion: None,
        subpixel_aa_enabled: false,
    }
}

#[test]
fn built_pairs_follow_request_order() {
    let worker = SceneWorker::new(scene(1), Some(1));
    let ts = vec![transform(1.0), transform(2.0), transform(3.0)];
    let opts = options(ts.clone());
    let result = worker.build_frame(&opts);
    assert_eq!(result.len(), 3);
    for i in 0..3 {
        assert_eq!(result[i].transform, ts[i]);
        assert_eq!(result[i].built_scene.transform, ts[i]);
        assert_eq!(result[i].built_scene.scene, scene(1));
    }
}

#[test]
fn independent_sub_jobs_assemble_to_the_sequential_result() {
    // Build each viewport on its own, in reverse completion order, and
    // assemble by request index: the list must equal the sequential build.
    let worker = SceneWorker::new(scene(7), None);
    let ts = vec![transform(10.0), transform(20.0), transform(30.0)];
    let opts = options(ts.clone());
    let sequential = worker.build_frame(&opts);

    let mut assembled = vec![None, None, None];
    for i in (0..3).rev() {
        let built = build_scene(&scene(7), &opts, ts[i]);
        assembled[i] = Some(scene_pipeline::worker::RenderScene {
            built_scene: built,
            transform: ts[i],
        });
    }
    let assembled: Vec<_> = assembled.into_iter().map(|x| x.unwrap()).collect();
    assert_eq!(assembled, sequential);
}

#[test]
fn nth_result_answers_nth_build_command() {
    let mut worker = SceneWorker::new(scene(3), Some(1));
    let mut commands = Vec::new();
    for k in 0..5 {
        commands.push(BuildCommand::Build(options(vec![transform(k as f32)])));
    }
    let results = worker.run_batch(&commands);
    assert_eq!(results.len(), 5);
    for k in 0..5 {
        assert_eq!(results[k].render_scenes.len(), 1);
        assert_eq!(results[k].render_scenes[0].transform, transform(k as f32));
        // No scene load intervened: every result is built from the same scene.
        assert_eq!(results[k].render_scenes[0].built_scene.scene, scene(3));
    }
}

#[test]
fn load_scene_resets_view_box_and_later_builds_see_it() {
    let mut worker = SceneWorker::new(scene(3), None);
    let commands = vec![
        BuildCommand::Build(options(vec![transform(0.0)])),
        BuildCommand::LoadScene {
            scene: Scene {
                content_id: 9,
                view_box: SceneViewBox::Drawable(Vector2I { x: 1, y: 1 }),
            },
            viewport_size: Vector2I { x: 800, y: 600 },
        },
        BuildCommand::Build(options(vec![transform(0.0)])),
    ];
    let results = worker.run_batch(&commands);
    assert_eq!(results.len(), 2);
    assert_eq!(results[0].render_scenes[0].built_scene.scene, scene(3));
    assert_eq!(
        results[1].render_scenes[0].built_scene.scene,
        Scene {
            content_id: 9,
            view_box: SceneViewBox::Drawable(Vector2I { x: 800, y: 600 }),
        }
    );
    assert_eq!(
        worker.scene,
        Scene {
            content_id: 9,
            view_box: SceneViewBox::Drawable(Vector2I { x: 800, y: 600 }),
        }
    );
}

#[test]
fn set_viewport_size_resets_only_the_view_box() {
    let mut worker = SceneWorker::new(scene(4), None);
    let out = worker.handle_command(&BuildCommand::SetViewportSize(Vector2I { x: 320, y: 200 }));
    assert!(out.is_none());
    assert_eq!(worker.scene.content_id, 4);
    assert_eq!(
        worker.scene.view_box,
        SceneViewBox::Drawable(Vector2I { x: 320, y: 200 })
    );
}

#[test]
fn perspective_transforms_pass_through_unchanged() {
    let ct = CameraTransform {
        perspective: PerspectiveCam {
            transform: Transform3D {
                m00: scalar(1.5), m01: scalar(0.0), m02: scalar(0.0), m03: scalar(0.0),
                m10: scalar(0.0), m11: scalar(1.5), m12: scalar(0.0), m13: scalar(0.0),
                m20: scalar(0.0), m21: scalar(0.0), m22: scalar(-1.0), m23: scalar(-0.02),
                m30: scalar(0.0), m31: scalar(0.0), m32: scalar(-1.0), m33: scalar(0.0),
            },
            window_size: Vector2I { x: 640, y: 480 },
        },
        view: Transform3D {
            m00: scalar(1.0), m01: scalar(0.0), m02: scalar(0.0), m03: scalar(0.0),
            m10: scalar(0.0), m11: scalar(1.0), m12: scalar(0.0), m13: scalar(0.0),
            m20: scalar(0.0), m21: scalar(0.0), m22: scalar(1.0), m23: scalar(0.0),
            m30: scalar(0.0), m31: scalar(0.0), m32: scalar(0.0), m33: scalar(1.0),
        },
    };
    let model = CameraTransform3D {
        position: Vector3S { x: scalar(0.5), y: scalar(-0.5), z: scalar(3.0) },
        yaw: scalar(0.1),
        pitch: scalar(0.2),
        scale: scalar(0.01),
    };
    let t = RenderTransform::Perspective { camera: ct, model };
    let worker = SceneWorker::new(scene(5), None);
    let result = worker.build_frame(&options(vec![t]));
    assert_eq!(result.len(), 1);
    assert_eq!(result[0].transform, t);
}

#[test]
fn all_built_viewports_come_back_in_order() {
    let outcomes: Vec<Option<u32>> = vec![Some(10), Some(20), Some(30)];
    let s = scene(1);
    let r = check_build_outcomes(outcomes, &s);
    assert_eq!(r, Ok(vec![10, 20, 30]));
}

#[test]
fn a_faulted_viewport_yields_the_scene_diagnostic() {
    let outcomes: Vec<Option<u32>> = vec![Some(10), None, Some(30)];
    let s = scene(42);
    let r = check_build_outcomes(outcomes, &s);
    match r {
        Err(fault) => assert_eq!(fault.scene, s),
        Ok(_) => panic!("a faulted build must not assemble"),
    }
}

#[test]
fn derived_settings_flow_into_every_built_scene() {
    let worker = SceneWorker::new(scene(6), None);
    let opts = BuildOptions {
        render_transforms: vec![transform(0.0), transform(1.0)],
        stem_darkening_font_size: Some(scalar(32.0)),
        barrel_distortion: Some(scene_pipeline::worker::BarrelDistortion {
            k0: scalar(0.9),
            k1: scalar(0.1),
        }),
        subpixel_aa_enabled: true,
    };
    let result = worker.build_frame(&opts);
    for rs in &result {
        assert_eq!(rs.built_scene.stem_darkening_font_size, Some(scalar(32.0)));
        assert!(rs.built_scene.subpixel_aa_enabled);
        assert_eq!(
            rs.built_scene.barrel_distortion,
            Some(scene_pipeline::worker::BarrelDistortion { k0: scalar(0.9), k1: scalar(0.1) })
        );
    }
}
