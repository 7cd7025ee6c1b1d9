//! The scene-build worker: an actor that exclusively owns the mutable scene,
//! consumes build commands strictly in send order, and emits one result per
//! `Build` command, in that same order.
//!
//! What a tessellated scene *is* lies outside this crate; a built scene here
//! is the record of exactly which scene snapshot, options and transform it
//! was built from. A live driver owns the real scene content under the same
//! `content_id`, runs the real tessellation for each viewport, and uses the
//! verified pairing and fault handling below.

use vstd::prelude::*;
use crate::geom::{Scalar, Vector2I, ViewBox};
use crate::camera::{CameraTransform, CameraTransform3D, Transform2D};

verus! {

/// The scene view box the worker maintains: as the scene arrived, or reset
/// to the rectangle from the origin to a drawable size.
#[derive(Clone, Copy, PartialEq, Eq, Structural, Debug)]
pub enum SceneViewBox {
    /// The view box the scene was loaded with.
    Native(ViewBox),
    /// Reset: the origin-anchored rectangle of the given drawable size.
    Drawable(Vector2I),
}

/// The worker's owned scene: an identifier for the vector content held by
/// the scene-source collaborator, and the view box this core controls.
#[derive(Clone, Copy, PartialEq, Eq, Structural, Debug)]
pub struct Scene {
    pub content_id: u64,
    pub view_box: SceneViewBox,
}

/// Barrel-distortion coefficients for VR presentation.
#[derive(Clone, Copy, PartialEq, Eq, Structural, Debug)]
pub struct BarrelDistortion {
    pub k0: Scalar,
    pub k1: Scalar,
}

/// A per-viewport render transform: a 2D affine transform, or the
/// ingredients of one viewport's perspective chain, composed downstream as
/// projection, then view, then the world placement's model transform.
#[derive(Clone, Copy, PartialEq, Eq, Structural, Debug)]
pub enum RenderTransform {
    Transform2D(Transform2D),
    Perspective { camera: CameraTransform, model: CameraTransform3D },
}

/// Everything one `Build` command carries; immutable once sent.
#[derive(Clone, PartialEq, Debug)]
pub struct BuildOptions {
    /// One transform per viewport, in viewport order.
    pub render_transforms: Vec<RenderTransform>,
    /// When set, dilation for stem darkening is derived from this font size.
    pub stem_darkening_font_size: Option<Scalar>,
    pub barrel_distortion: Option<BarrelDistortion>,
    pub subpixel_aa_enabled: bool,
}

/// A command for the worker; consumed strictly in send order.
#[derive(Clone, PartialEq, Debug)]
pub enum BuildCommand {
    /// Transfers ownership of a new scene and resets its view box.
    LoadScene { scene: Scene, viewport_size: Vector2I },
    /// Resets only the view box of the current scene.
    SetViewportSize(Vector2I),
    /// Builds one renderable scene per transform.
    Build(BuildOptions),
}

/// The renderable form of one viewport: the scene snapshot, transform and
/// derived settings it was built from.
#[derive(Clone, Copy, PartialEq, Eq, Structural, Debug)]
pub struct BuiltScene {
    pub scene: Scene,
    pub transform: RenderTransform,
    pub stem_darkening_font_size: Option<Scalar>,
    pub barrel_distortion: Option<BarrelDistortion>,
    pub subpixel_aa_enabled: bool,
}

/// One viewport's build output paired with the transform it answers.
#[derive(Clone, Copy, PartialEq, Eq, Structural, Debug)]
pub struct RenderScene {
    pub built_scene: BuiltScene,
    pub transform: RenderTransform,
}

/// One `Build` command's full result: per-viewport pairs in request order,
/// plus the wall-clock duration the build took.
#[derive(Clone, PartialEq, Debug)]
pub struct BuiltFrame {
    pub render_scenes: Vec<RenderScene>,
    pub tile_time_nanos: u64,
}

/// The diagnostic a build fault escalates with: the full state of the scene
/// the worker owned when the fault struck.
#[derive(Clone, Copy, PartialEq, Eq, Structural, Debug)]
pub struct BuildFault {
    pub scene: Scene,
}

/// What building one viewport yields: a pure function of the owned scene,
/// the command's options and that viewport's transform.
pub open spec fn spec_build_one(scene: Scene, options: BuildOptions, t: RenderTransform) -> BuiltScene {
    BuiltScene {
        scene,
        transform: t,
        stem_darkening_font_size: options.stem_darkening_font_size,
        barrel_distortion: options.barrel_distortion,
        subpixel_aa_enabled: options.subpixel_aa_enabled,
    }
}

/// The pair the worker emits for viewport `i` of a `Build` command.
pub open spec fn spec_render_scene(scene: Scene, options: BuildOptions, i: int) -> RenderScene {
    RenderScene {
        built_scene: spec_build_one(scene, options, options.render_transforms@[i]),
        transform: options.render_transforms@[i],
    }
}

/// The whole result list of a `Build` command, in request order.
pub open spec fn spec_render_scenes(scene: Scene, options: BuildOptions) -> Seq<RenderScene> {
    Seq::new(options.render_transforms@.len(), |i: int| spec_render_scene(scene, options, i))
}

/// Builds one viewport's renderable scene. Every sub-job of a `Build` is
/// exactly one call of this function on an immutable snapshot, so jobs need
/// no order among themselves.
pub fn build_scene(scene: &Scene, build_options: &BuildOptions, render_transform: RenderTransform) -> (b: BuiltScene)
    ensures
        b == spec_build_one(*scene, *build_options, render_transform),
{
    BuiltScene {
        scene: *scene,
        transform: render_transform,
        stem_darkening_font_size: build_options.stem_darkening_font_size,
        barrel_distortion: build_options.barrel_distortion,
        subpixel_aa_enabled: build_options.subpixel_aa_enabled,
    }
}

/// The worker's state: the exclusively owned scene and the configured job
/// count (`Some(1)` forces strictly sequential sub-builds).
#[derive(Clone, PartialEq, Debug)]
pub struct SceneWorker {
    pub scene: Scene,
    pub jobs: Option<usize>,
}

/// How one command transforms the worker's scene and what it emits.
pub open spec fn spec_step(scene: Scene, cmd: BuildCommand) -> (Scene, Option<Seq<RenderScene>>) {
    match cmd {
        BuildCommand::LoadScene { scene: new_scene, viewport_size } => {
            (Scene { content_id: new_scene.content_id, view_box: SceneViewBox::Drawable(viewport_size) }, None)
        },
        BuildCommand::SetViewportSize(size) => {
            (Scene { content_id: scene.content_id, view_box: SceneViewBox::Drawable(size) }, None)
        },
        BuildCommand::Build(options) => {
            (scene, Some(spec_render_scenes(scene, options)))
        },
    }
}

/// The results an in-order run over a command sequence emits: one entry per
/// `Build` command, in command order, each against the scene state the
/// preceding commands left behind.
pub open spec fn spec_run_outputs(scene: Scene, cmds: Seq<BuildCommand>) -> Seq<Seq<RenderScene>>
    decreases cmds.len(),
{
    if cmds.len() == 0 {
        Seq::empty()
    } else {
        let stepped = spec_step(scene, cmds[0]);
        match stepped.1 {
            Some(out) => seq![out] + spec_run_outputs(stepped.0, cmds.drop_first()),
            None => spec_run_outputs(stepped.0, cmds.drop_first()),
        }
    }
}

impl SceneWorker {
    pub fn new(scene: Scene, jobs: Option<usize>) -> (w: SceneWorker)
        ensures
            w.scene == scene,
            w.jobs == jobs,
    {
        SceneWorker { scene, jobs }
    }

    /// Replaces the owned scene and resets its view box to the rectangle
    /// from the origin to the viewport size. Ownership of the scene moves
    /// into the worker; nothing aliases it.
    pub fn load_scene(&mut self, scene: Scene, viewport_size: Vector2I)
        ensures
            final(self).scene == (Scene {
                content_id: scene.content_id,
                view_box: SceneViewBox::Drawable(viewport_size),
            }),
            final(self).jobs == old(self).jobs,
    {
        self.scene = scene;
        self.scene.view_box = SceneViewBox::Drawable(viewport_size);
    }

    /// Resets only the view box of the current scene.
    pub fn set_viewport_size(&mut self, size: Vector2I)
        ensures
            final(self).scene == (Scene {
                content_id: old(self).scene.content_id,
                view_box: SceneViewBox::Drawable(size),
            }),
            final(self).jobs == old(self).jobs,
    {
        self.scene.view_box = SceneViewBox::Drawable(size);
    }

    /// Builds every viewport of a `Build` command strictly sequentially, in
    /// request order: the result at `i` pairs with the transform at `i`.
    pub fn build_frame(&self, options: &BuildOptions) -> (r: Vec<RenderScene>)
        ensures
            r@ == spec_render_scenes(self.scene, *options),
            r@.len() == options.render_transforms@.len(),
            forall|i: int| 0 <= i < r@.len() ==> r@[i].transform == options.render_transforms@[i],
    {
        let n = options.render_transforms.len();
        let mut out: Vec<RenderScene> = Vec::new();
        let mut i: usize = 0;
        while i < n
            invariant
                n == options.render_transforms@.len(),
                i <= n,
                out@.len() == i,
                forall|j: int| 0 <= j < i ==> out@[j] == spec_render_scene(self.scene, *options, j),
            decreases n - i,
        {
            let t = options.render_transforms[i];
            let built = build_scene(&self.scene, options, t);
            out.push(RenderScene { built_scene: built, transform: t });
            i = i + 1;
        }
        proof {
            assert(out@ =~= spec_render_scenes(self.scene, *options));
        }
        out
    }

    /// Consumes one command: loads, resizes, or builds and emits a result.
    pub fn handle_command(&mut self, cmd: &BuildCommand) -> (r: Option<Vec<RenderScene>>)
        ensures
            final(self).jobs == old(self).jobs,
            final(self).scene == spec_step(old(self).scene, *cmd).0,
            match spec_step(old(self).scene, *cmd).1 {
                Some(out) => r matches Some(v) && v@ == out,
                None => r is None,
            },
    {
        match cmd {
            BuildCommand::LoadScene { scene, viewport_size } => {
                self.load_scene(*scene, *viewport_size);
                None
            },
            BuildCommand::SetViewportSize(size) => {
                self.set_viewport_size(*size);
                None
            },
            BuildCommand::Build(options) => {
                Some(self.build_frame(options))
            },
        }
    }

    /// The worker's loop over a batch of commands already in the channel, in
    /// arrival order: results come out in the order of the `Build` commands
    /// that caused them. The model has no clock, so every frame reports a
    /// zero build duration; a live driver measures around `handle_command`.
    pub fn run_batch(&mut self, commands: &Vec<BuildCommand>) -> (results: Vec<BuiltFrame>)
        ensures
            final(self).jobs == old(self).jobs,
            results@.map_values(|bf: BuiltFrame| bf.render_scenes@)
                == spec_run_outputs(old(self).scene, commands@),
            results@.len() == spec_run_outputs(old(self).scene, commands@).len(),
            forall|k: int| 0 <= k < results@.len() ==> {
                &&& results@[k].render_scenes@ == spec_run_outputs(old(self).scene, commands@)[k]
                &&& results@[k].tile_time_nanos == 0
            },
    {
        let ghost scene0 = self.scene;
        let ghost total = spec_run_outputs(scene0, commands@);
        let mut results: Vec<BuiltFrame> = Vec::new();
        let mut i: usize = 0;
        proof {
            assert(commands@.skip(0) =~= commands@);
            assert(results@.map_values(|bf: BuiltFrame| bf.render_scenes@)
                =~= Seq::<Seq<RenderScene>>::empty());
            assert(Seq::<Seq<RenderScene>>::empty() + total =~= total);
        }
        while i < commands.len()
            invariant
                i <= commands@.len(),
                self.jobs == old(self).jobs,
                total == spec_run_outputs(scene0, commands@),
                total == results@.map_values(|bf: BuiltFrame| bf.render_scenes@)
                    + spec_run_outputs(self.scene, commands@.skip(i as int)),
                forall|k: int| 0 <= k < results@.len() ==> results@[k].tile_time_nanos == 0,
            decreases commands@.len() - i,
        {
            let ghost pre = self.scene;
            let ghost mapped = results@.map_values(|bf: BuiltFrame| bf.render_scenes@);
            proof {
                lemma_run_outputs_step(pre, commands@, i as int);
            }
            let out = self.handle_command(&commands[i]);
            match out {
                Some(scenes) => {
                    let bf = BuiltFrame { render_scenes: scenes, tile_time_nanos: 0 };
                    let ghost emitted = bf.render_scenes@;
                    results.push(bf);
                    proof {
                        assert(results@.map_values(|bf: BuiltFrame| bf.render_scenes@)
                            =~= mapped.push(emitted));
                        assert(mapped + (seq![emitted] + spec_run_outputs(self.scene, commands@.skip(i as int + 1)))
                            =~= mapped.push(emitted) + spec_run_outputs(self.scene, commands@.skip(i as int + 1)));
                    }
                },
                None => {},
            }
            i = i + 1;
        }
        proof {
            assert(commands@.skip(commands@.len() as int) =~= Seq::<BuildCommand>::empty());
            assert(results@.map_values(|bf: BuiltFrame| bf.render_scenes@)
                + Seq::<Seq<RenderScene>>::empty()
                =~= results@.map_values(|bf: BuiltFrame| bf.render_scenes@));
            assert(forall|k: int| 0 <= k < results@.len() ==> results@[k].render_scenes@
                == results@.map_values(|bf: BuiltFrame| bf.render_scenes@)[k]);
        }
        results
    }
}

/// Unfolds one step of `spec_run_outputs` at the front of `skip(i)`.
proof fn lemma_run_outputs_step(scene: Scene, cmds: Seq<BuildCommand>, i: int)
    requires
        0 <= i < cmds.len(),
    ensures
        spec_run_outputs(scene, cmds.skip(i)) == {
            let stepped = spec_step(scene, cmds[i]);
            match stepped.1 {
                Some(out) => seq![out] + spec_run_outputs(stepped.0, cmds.skip(i + 1)),
                None => spec_run_outputs(stepped.0, cmds.skip(i + 1)),
            }
        },
{
    assert(cmds.skip(i)[0] == cmds[i]);
    assert(cmds.skip(i).drop_first() =~= cmds.skip(i + 1));
}

/// FIFO correspondence: over any run of `Build` commands with no intervening
/// `LoadScene` or viewport change, the worker's scene never moves, and the
/// `n`th result emitted is exactly the build of the `n`th command sent.
pub proof fn lemma_results_in_send_order(scene: Scene, cmds: Seq<BuildCommand>, n: int)
    requires
        forall|k: int| 0 <= k < cmds.len() ==> cmds[k] is Build,
        0 <= n < cmds.len(),
    ensures
        spec_run_outputs(scene, cmds).len() == cmds.len(),
        spec_run_outputs(scene, cmds)[n] == spec_render_scenes(scene, cmds[n]->Build_0),
    decreases cmds.len(),
{
    assert(cmds[0] is Build);
    let stepped = spec_step(scene, cmds[0]);
    assert(stepped.0 == scene);
    if n == 0 {
        if cmds.len() > 1 {
            lemma_results_in_send_order(scene, cmds.drop_first(), 0);
        } else {
            assert(spec_run_outputs(scene, cmds.drop_first()) =~= Seq::<Seq<RenderScene>>::empty());
        }
    } else {
        lemma_results_in_send_order(scene, cmds.drop_first(), n - 1);
        assert(cmds.drop_first()[n - 1] == cmds[n]);
    }
}

/// Parallel and sequential builds agree: whatever order concurrent sub-jobs
/// finish in, each viewport's output is the pure build of its own transform,
/// so the list assembled by request index equals the sequential result,
/// order and value alike.
pub proof fn lemma_parallel_build_agrees(scene: Scene, options: BuildOptions, outcomes: Seq<RenderScene>)
    requires
        outcomes.len() == options.render_transforms@.len(),
        forall|i: int| 0 <= i < outcomes.len() ==> outcomes[i] == spec_render_scene(scene, options, i),
    ensures
        outcomes =~= spec_render_scenes(scene, options),
{
}

/// Screens the per-viewport outcomes of a fallible build: if every viewport
/// built, the values come back in request order; if any faulted, the result
/// is the fault diagnostic carrying the full owned scene state, which the
/// control thread escalates to deliberate process termination.
pub open spec fn spec_any_fault<P>(outcomes: Seq<Option<P>>) -> bool {
    exists|i: int| 0 <= i < outcomes.len() && outcomes[i] is None
}

pub fn check_build_outcomes<P>(outcomes: Vec<Option<P>>, scene: &Scene) -> (r: Result<Vec<P>, BuildFault>)
    ensures
        r is Err <==> spec_any_fault(outcomes@),
        r matches Ok(v) ==> {
            &&& v@.len() == outcomes@.len()
            &&& forall|i: int| 0 <= i < v@.len() ==> Some(v@[i]) == outcomes@[i]
        },
        r matches Err(f) ==> f.scene == *scene,
{
    let ghost all = outcomes@;
    let mut rest = outcomes;
    let mut built: Vec<P> = Vec::new();
    let mut i: usize = 0;
    let remaining = rest.len();
    proof {
        assert(all.skip(0) =~= all);
        assert(all.len() == remaining);
    }
    while rest.len() > 0
        invariant
            all == outcomes@,
            all.len() <= usize::MAX,
            i + rest@.len() == all.len(),
            rest@ =~= all.skip(i as int),
            built@.len() == i,
            forall|j: int| 0 <= j < i ==> all[j] == Some(built@[j]),
        decreases rest@.len(),
    {
        let first = rest.remove(0);
        proof {
            assert(all.skip(i as int)[0] == all[i as int]);
            assert(all.skip(i as int).drop_first() =~= all.skip(i as int + 1));
        }
        match first {
            Some(p) => {
                built.push(p);
            },
            None => {
                proof {
                    assert(all[i as int] is None);
                    assert(spec_any_fault(all));
                }
                return Err(BuildFault { scene: *scene });
            },
        }
        i = i + 1;
    }
    proof {
        assert(forall|j: int| 0 <= j < all.len() ==> all[j] is Some);
        assert(!spec_any_fault(all));
    }
    Ok(built)
}

impl BuiltFrame {
    /// Wraps per-viewport results and a measured duration into one frame.
    pub fn new(render_scenes: Vec<RenderScene>, tile_time_nanos: u64) -> (r: BuiltFrame)
        ensures
            r.render_scenes == render_scenes,
            r.tile_time_nanos == tile_time_nanos,
    {
        BuiltFrame { render_scenes, tile_time_nanos }
    }
}

} // verus!
