//! The control-thread orchestrator: it turns input events into camera, UI
//! and dirty-state updates, derives each tick's build options from the
//! camera, sends build commands (two on the very first tick when pipelining
//! is on), wraps received results into the single live frame, accumulates
//! per-viewport render statistics, and finishes the tick with UI actions, a
//! deferred camera-mode switch and event dispatch.
//!
//! Scalar arithmetic, GPU calls, windowing and clocks belong to the host
//! around this library: where a step is numeric, the controller decides
//! *whether* and *with what* it happens and hands out a `CameraOp`; the
//! host evaluates it and writes the result back through a setter whose
//! contract pins what may change.

use vstd::prelude::*;
use crate::camera::{spec_fresh_camera, Camera, CameraGeometry, CameraTransform3D, Mode, Transform2D, ViewportTransforms};
use crate::geom::{Scalar, Vector2I, Vector3S, ViewBox};
use crate::message::TimerRequest;
use crate::options::{Background, Options, UIVisibility};
use crate::worker::{BarrelDistortion, BuildCommand, BuildOptions, BuiltFrame, RenderTransform, Scene};

verus! {

/// Grid lines drawn on the ground plane behind 3D scenes.
pub const GRIDLINE_COUNT: u8 = 10;

/// Mouse events are accepted up to this magnitude per axis.
pub const MAX_MOUSE_COORD: i32 = 0x10_0000;

/// Backing scale factors are accepted up to this truncated magnitude.
pub const MAX_BACKING_SCALE: i32 = 1000;

/// An RGBA colour with 8-bit channels.
#[derive(Clone, Copy, PartialEq, Eq, Structural, Debug)]
pub struct Color {
    pub r: u8,
    pub g: u8,
    pub b: u8,
    pub a: u8,
}

/// Per-scene render statistics, as the renderer reports them.
#[derive(Clone, Copy, PartialEq, Eq, Structural, Debug)]
pub struct Stats {
    pub object_count: u64,
    pub solid_tile_count: u64,
    pub alpha_tile_count: u64,
    pub pending_fills: u64,
}

/// One tick's accumulated statistics and the first viewport's GPU time.
#[derive(Clone, Copy, PartialEq, Eq, Structural, Debug)]
pub struct RenderStats {
    pub rendering_time_nanos: Option<u64>,
    pub stats: Stats,
}

/// The window's size data: logical size, the backing scale factor, its
/// integer truncation, and the demo font size already scaled by it, all
/// fixed by the host when the size is made.
#[derive(Clone, Copy, PartialEq, Eq, Structural, Debug)]
pub struct WindowSize {
    pub logical_size: Vector2I,
    pub backing_scale_factor: Scalar,
    /// The backing scale factor truncated to an integer, as mouse
    /// positions are scaled by.
    pub backing_scale_trunc: i32,
    /// The approximate demo font size times the backing scale factor; the
    /// stem-darkening font size when that effect is on.
    pub scaled_font_size: Scalar,
}

/// The UI collaborator's state the control flow reads.
#[derive(Clone, Copy, PartialEq, Eq, Structural, Debug)]
pub struct UiState {
    pub mode: Mode,
    pub background: Background,
    pub stem_darkening_effect_enabled: bool,
    pub subpixel_aa_effect_enabled: bool,
    pub gamma_correction_effect_enabled: bool,
    pub show_text_effects: bool,
}

/// A key the demo reacts to.
#[derive(Clone, Copy, PartialEq, Eq, Structural, Debug)]
pub enum Key {
    Escape,
    Tab,
    Char(u8),
}

/// A mouse position in device pixels: absolute, and relative to the last.
#[derive(Clone, Copy, PartialEq, Eq, Structural, Debug)]
pub struct MousePosition {
    pub absolute: Vector2I,
    pub relative: Vector2I,
}

/// A UI event the controller collects for the debug UI and dispatches when
/// the frame finishes.
#[derive(Clone, Copy, PartialEq, Eq, Structural, Debug)]
pub enum UIEvent {
    MouseDown(MousePosition),
    MouseDragged(MousePosition),
}

/// An action the UI collaborator requests.
#[derive(Clone, PartialEq, Debug)]
pub enum UIAction {
    Idle,
    TakeScreenshot(String),
    ZoomIn,
    ZoomOut,
    Rotate(Scalar),
}

/// A numeric camera update the host evaluates and writes back.
#[derive(Clone, Copy, PartialEq, Eq, Structural, Debug)]
pub enum CameraOp {
    /// Accumulate mouselook yaw and pitch from relative mouse motion.
    LookByPixels { relative: Vector2I },
    /// Accumulate the given pitch and yaw deltas.
    LookDelta { pitch: Scalar, yaw: Scalar },
    /// Scale the 2D camera about the current mouse position.
    ZoomGesture { d_dist: Scalar },
    /// Scale the 2D camera about the window centre by the fixed button step.
    ZoomButton { zoom_in: bool },
    /// Rotate the 2D camera about the window centre to the given angle.
    RotateTo { theta: Scalar },
    /// Translate the 2D camera by a drag's relative motion.
    Pan { relative: Vector2I },
}

/// A scene the host has already loaded and derived the camera inputs for:
/// what an open-scene event carries into the controller.
#[derive(Clone, PartialEq, Debug)]
pub struct SceneLoad {
    pub scene: Scene,
    pub view_box: ViewBox,
    pub monochrome_color: Option<Color>,
    /// The warning text about unsupported content; empty for none.
    pub message: String,
    /// The view box size the window reports for the current mode.
    pub view_box_size: Vector2I,
    /// Derived from the mode, view box and view box size alone.
    pub camera_geometry: CameraGeometry,
    /// The per-axis key velocity, scaled inversely by the view box size.
    pub velocity_magnitude: Scalar,
}

/// An input event, with window queries already resolved by the host.
#[derive(Clone, PartialEq, Debug)]
pub enum Event {
    Quit,
    KeyDown(Key),
    KeyUp(Key),
    WindowResized { new_size: WindowSize, view_box_size: Vector2I },
    MouseDown(Vector2I),
    MouseMoved(Vector2I),
    MouseDragged(Vector2I),
    Zoom(Scalar),
    Look { pitch: Scalar, yaw: Scalar },
    SetCameraTransforms(ViewportTransforms),
    OpenScene(SceneLoad),
    User { message_type: u32, message_data: u32 },
}

/// The in-flight unit of work: one build result, the tick's UI events, and
/// the statistics drawn so far. At most one frame is ever live.
#[derive(Clone, PartialEq, Debug)]
pub struct Frame {
    pub render_msg: BuiltFrame,
    pub ui_events: Vec<UIEvent>,
    pub render_stats: Option<RenderStats>,
}

impl Frame {
    pub fn new(render_msg: BuiltFrame, ui_events: Vec<UIEvent>) -> (r: Frame)
        ensures
            r.render_msg == render_msg,
            r.ui_events == ui_events,
            r.render_stats is None,
    {
        Frame { render_msg, ui_events, render_stats: None }
    }
}

/// A change to the transient message display, for the UI collaborator.
#[derive(Clone, PartialEq, Debug)]
pub enum MessageAction {
    /// Show this text (an expiry timer for it is already in flight or none
    /// is wanted).
    Show(String),
    /// Clear whatever is showing.
    Clear,
}

/// What a batch of events produced besides state changes: UI events for the
/// frame, numeric camera work for the host, commands for the worker and
/// message changes for the UI, each in event order.
pub struct EventsOutcome {
    pub ui_events: Vec<UIEvent>,
    pub camera_ops: Vec<CameraOp>,
    pub commands: Vec<BuildCommand>,
    pub message_actions: Vec<MessageAction>,
}

/// The controller's whole state.
pub struct FrameController {
    pub should_exit: bool,
    pub options: Options,
    pub window_size: WindowSize,
    pub scene_view_box: ViewBox,
    pub monochrome_scene_color: Option<Color>,
    pub camera: Camera,
    pub frame_counter: u32,
    pub pending_screenshot_path: Option<String>,
    pub mouselook_enabled: bool,
    pub dirty: bool,
    /// Identifier of the user event that message-expiry timers raise.
    pub expire_message_event_id: u32,
    /// The live message epoch; a timer's stamp must equal it to clear.
    pub message_epoch: u32,
    pub last_mouse_position: Vector2I,
    pub current_frame: Option<Frame>,
    pub ui: UiState,
    /// The per-axis key velocity for the current scene, derived by the host
    /// from the scene view box.
    pub velocity_magnitude: Scalar,
}

impl FrameController {
    /// The controller's structural invariant.
    pub open spec fn wf(self) -> bool {
        &&& self.camera.wf()
        &&& 0 <= self.window_size.backing_scale_trunc <= MAX_BACKING_SCALE
        &&& -MAX_MOUSE_COORD * MAX_BACKING_SCALE <= self.last_mouse_position.x
            <= MAX_MOUSE_COORD * MAX_BACKING_SCALE
        &&& -MAX_MOUSE_COORD * MAX_BACKING_SCALE <= self.last_mouse_position.y
            <= MAX_MOUSE_COORD * MAX_BACKING_SCALE
        &&& self.message_epoch < u32::MAX
    }

    /// What the controller accepts of one event: coordinates and scale in
    /// range, and a loaded scene's geometry fitting the current UI mode.
    pub open spec fn spec_event_ok(self, e: Event) -> bool {
        match e {
            Event::MouseDown(p) | Event::MouseMoved(p) | Event::MouseDragged(p) => {
                &&& -MAX_MOUSE_COORD <= p.x <= MAX_MOUSE_COORD
                &&& -MAX_MOUSE_COORD <= p.y <= MAX_MOUSE_COORD
            },
            Event::WindowResized { new_size, .. } => {
                0 <= new_size.backing_scale_trunc <= MAX_BACKING_SCALE
            },
            Event::OpenScene(load) => {
                load.camera_geometry.matches_mode(self.ui.mode)
            },
            _ => true,
        }
    }
}

} // verus!

verus! {

/// One event's full effect: the successor state and what it emitted.
pub struct EventStep {
    pub state: FrameController,
    pub ui_events: Seq<UIEvent>,
    pub camera_ops: Seq<CameraOp>,
    pub commands: Seq<BuildCommand>,
    pub message_actions: Seq<MessageAction>,
}

/// Scaling a raw mouse position to device pixels and taking the motion
/// relative to the last seen position.
pub open spec fn spec_mouse_position(s: FrameController, p: Vector2I) -> MousePosition {
    let absolute = Vector2I {
        x: (p.x * s.window_size.backing_scale_trunc) as i32,
        y: (p.y * s.window_size.backing_scale_trunc) as i32,
    };
    MousePosition {
        absolute,
        relative: Vector2I {
            x: (absolute.x - s.last_mouse_position.x) as i32,
            y: (absolute.y - s.last_mouse_position.y) as i32,
        },
    }
}

/// The next UI visibility the tab key cycles to.
pub open spec fn spec_cycle_visibility(v: UIVisibility) -> UIVisibility {
    match v {
        UIVisibility::Hidden => UIVisibility::Stats,
        UIVisibility::Stats => UIVisibility::All,
        UIVisibility::All => UIVisibility::Hidden,
    }
}

/// A step that changes nothing and emits nothing.
pub open spec fn spec_skip_step(s: FrameController) -> EventStep {
    EventStep {
        state: s,
        ui_events: Seq::empty(),
        camera_ops: Seq::empty(),
        commands: Seq::empty(),
        message_actions: Seq::empty(),
    }
}

/// The camera with one velocity axis replaced; 2D cameras are untouched.
pub open spec fn spec_camera_with_velocity(cam: Camera, x: Option<Scalar>, z: Option<Scalar>) -> Camera {
    match cam {
        Camera::TwoD(t) => Camera::TwoD(t),
        Camera::ThreeD { mode, transforms, transform, velocity } => Camera::ThreeD {
            mode,
            transforms,
            transform,
            velocity: Vector3S {
                x: match x { Some(v) => v, None => velocity.x },
                y: velocity.y,
                z: match z { Some(v) => v, None => velocity.z },
            },
        },
    }
}

/// How the controller reacts to one input event: the state machine at the
/// heart of the per-tick event dispatch.
pub open spec fn spec_handle_event(s: FrameController, e: Event) -> EventStep {
    match e {
        Event::Quit => EventStep {
            state: FrameController { should_exit: true, dirty: true, ..s },
            ..spec_skip_step(s)
        },
        Event::KeyDown(Key::Escape) => EventStep {
            state: FrameController { should_exit: true, dirty: true, ..s },
            ..spec_skip_step(s)
        },
        Event::WindowResized { new_size, view_box_size } => EventStep {
            state: FrameController { window_size: new_size, dirty: true, ..s },
            commands: seq![BuildCommand::SetViewportSize(view_box_size)],
            ..spec_skip_step(s)
        },
        Event::MouseDown(p) => {
            let mouse = spec_mouse_position(s, p);
            EventStep {
                state: FrameController { last_mouse_position: mouse.absolute, ..s },
                ui_events: seq![UIEvent::MouseDown(mouse)],
                ..spec_skip_step(s)
            }
        },
        Event::MouseMoved(p) => {
            if s.mouselook_enabled {
                let mouse = spec_mouse_position(s, p);
                if s.camera is ThreeD {
                    EventStep {
                        state: FrameController {
                            last_mouse_position: mouse.absolute,
                            dirty: true,
                            ..s
                        },
                        camera_ops: seq![CameraOp::LookByPixels { relative: mouse.relative }],
                        ..spec_skip_step(s)
                    }
                } else {
                    EventStep {
                        state: FrameController { last_mouse_position: mouse.absolute, ..s },
                        ..spec_skip_step(s)
                    }
                }
            } else {
                spec_skip_step(s)
            }
        },
        Event::MouseDragged(p) => {
            let mouse = spec_mouse_position(s, p);
            EventStep {
                state: FrameController {
                    last_mouse_position: mouse.absolute,
                    dirty: true,
                    ..s
                },
                ui_events: seq![UIEvent::MouseDragged(mouse)],
                ..spec_skip_step(s)
            }
        },
        Event::Zoom(d_dist) => {
            if s.camera is TwoD {
                EventStep {
                    camera_ops: seq![CameraOp::ZoomGesture { d_dist }],
                    ..spec_skip_step(s)
                }
            } else {
                spec_skip_step(s)
            }
        },
        Event::Look { pitch, yaw } => {
            if s.camera is ThreeD {
                EventStep {
                    camera_ops: seq![CameraOp::LookDelta { pitch, yaw }],
                    ..spec_skip_step(s)
                }
            } else {
                spec_skip_step(s)
            }
        },
        Event::SetCameraTransforms(new_transforms) => {
            match s.camera {
                Camera::ThreeD { mode, transforms, transform, velocity } => {
                    if new_transforms.spec_count() == mode.spec_viewport_count() {
                        EventStep {
                            state: FrameController {
                                camera: Camera::ThreeD {
                                    mode,
                                    transforms: new_transforms,
                                    transform,
                                    velocity,
                                },
                                ..s
                            },
                            ..spec_skip_step(s)
                        }
                    } else {
                        spec_skip_step(s)
                    }
                },
                Camera::TwoD(_) => spec_skip_step(s),
            }
        },
        Event::KeyDown(Key::Char(c)) => {
            if s.camera is ThreeD && (c == 119 || c == 115 || c == 97 || c == 100) {
                let magnitude = if c == 119 || c == 97 {
                    s.velocity_magnitude.spec_neg()
                } else {
                    s.velocity_magnitude
                };
                let (x, z): (Option<Scalar>, Option<Scalar>) = if c == 119 || c == 115 {
                    (None, Some(magnitude))
                } else {
                    (Some(magnitude), None)
                };
                EventStep {
                    state: FrameController {
                        camera: spec_camera_with_velocity(s.camera, x, z),
                        dirty: true,
                        ..s
                    },
                    ..spec_skip_step(s)
                }
            } else {
                spec_skip_step(s)
            }
        },
        Event::KeyUp(Key::Char(c)) => {
            if s.camera is ThreeD && (c == 119 || c == 115 || c == 97 || c == 100) {
                let (x, z): (Option<Scalar>, Option<Scalar>) = if c == 119 || c == 115 {
                    (None, Some(Scalar { bits: 0 }))
                } else {
                    (Some(Scalar { bits: 0 }), None)
                };
                EventStep {
                    state: FrameController {
                        camera: spec_camera_with_velocity(s.camera, x, z),
                        dirty: true,
                        ..s
                    },
                    ..spec_skip_step(s)
                }
            } else {
                spec_skip_step(s)
            }
        },
        Event::KeyDown(Key::Tab) => EventStep {
            state: FrameController {
                options: Options { ui: spec_cycle_visibility(s.options.ui), ..s.options },
                ..s
            },
            ..spec_skip_step(s)
        },
        Event::OpenScene(load) => EventStep {
            state: FrameController {
                scene_view_box: load.view_box,
                monochrome_scene_color: load.monochrome_color,
                camera: spec_fresh_camera(s.ui.mode, load.camera_geometry, load.view_box_size),
                velocity_magnitude: load.velocity_magnitude,
                dirty: true,
                ..s
            },
            commands: seq![BuildCommand::LoadScene {
                scene: load.scene,
                viewport_size: load.view_box_size,
            }],
            message_actions: seq![MessageAction::Show(load.message)],
            ..spec_skip_step(s)
        },
        Event::User { message_type, message_data } => {
            if message_type == s.expire_message_event_id && message_data == s.message_epoch {
                EventStep {
                    state: FrameController { dirty: true, ..s },
                    message_actions: seq![MessageAction::Clear],
                    ..spec_skip_step(s)
                }
            } else {
                spec_skip_step(s)
            }
        },
        _ => spec_skip_step(s),
    }
}

} // verus!

verus! {

/// The effect of a whole batch of events, in order: the folded state and
/// the concatenation of everything the events emitted.
pub open spec fn spec_handle_events(s: FrameController, events: Seq<Event>) -> EventStep
    decreases events.len(),
{
    if events.len() == 0 {
        spec_skip_step(s)
    } else {
        let first = spec_handle_event(s, events[0]);
        let rest = spec_handle_events(first.state, events.drop_first());
        EventStep {
            state: rest.state,
            ui_events: first.ui_events + rest.ui_events,
            camera_ops: first.camera_ops + rest.camera_ops,
            commands: first.commands + rest.commands,
            message_actions: first.message_actions + rest.message_actions,
        }
    }
}

/// One event changes neither the UI mode, nor the message epoch and event
/// identifier, nor well-formedness, nor the acceptability of later events.
pub proof fn lemma_handle_event_frame(s: FrameController, e: Event)
    requires
        s.wf(),
        s.spec_event_ok(e),
    ensures
        spec_handle_event(s, e).state.wf(),
        spec_handle_event(s, e).state.ui.mode == s.ui.mode,
        spec_handle_event(s, e).state.message_epoch == s.message_epoch,
        spec_handle_event(s, e).state.expire_message_event_id == s.expire_message_event_id,
        spec_handle_event(s, e).state.window_size.backing_scale_trunc
            == (match e {
                Event::WindowResized { new_size, .. } => new_size.backing_scale_trunc,
                _ => s.window_size.backing_scale_trunc,
            }),
        forall|e2: Event| s.spec_event_ok(e2) == #[trigger] spec_handle_event(s, e).state.spec_event_ok(e2),
{
    let post = spec_handle_event(s, e).state;
    match e {
        Event::MouseDown(p) | Event::MouseMoved(p) | Event::MouseDragged(p) => {
            assert(
                -MAX_MOUSE_COORD * MAX_BACKING_SCALE
                    <= p.x * s.window_size.backing_scale_trunc
                    <= MAX_MOUSE_COORD * MAX_BACKING_SCALE
                && -MAX_MOUSE_COORD * MAX_BACKING_SCALE
                    <= p.y * s.window_size.backing_scale_trunc
                    <= MAX_MOUSE_COORD * MAX_BACKING_SCALE
            ) by (nonlinear_arith)
                requires
                    -MAX_MOUSE_COORD <= p.x <= MAX_MOUSE_COORD,
                    -MAX_MOUSE_COORD <= p.y <= MAX_MOUSE_COORD,
                    0 <= s.window_size.backing_scale_trunc <= MAX_BACKING_SCALE,
            {}
        },
        _ => {},
    }
    assert(post.ui.mode == s.ui.mode);
    assert forall|e2: Event| s.spec_event_ok(e2) == #[trigger] post.spec_event_ok(e2) by {
        match e2 {
            Event::OpenScene(load) => {
                assert(post.ui.mode == s.ui.mode);
            },
            _ => {},
        }
    }
}

impl EventsOutcome {
    /// An outcome with nothing in it yet.
    pub fn empty() -> (r: EventsOutcome)
        ensures
            r.ui_events@ == Seq::<UIEvent>::empty(),
            r.camera_ops@ == Seq::<CameraOp>::empty(),
            r.commands@ == Seq::<BuildCommand>::empty(),
            r.message_actions@ == Seq::<MessageAction>::empty(),
    {
        EventsOutcome {
            ui_events: Vec::new(),
            camera_ops: Vec::new(),
            commands: Vec::new(),
            message_actions: Vec::new(),
        }
    }
}

impl FrameController {
    /// Scales a raw mouse position to device pixels, takes the motion
    /// relative to the last seen position, and remembers the new one.
    pub fn process_mouse_position(&mut self, new_position: Vector2I) -> (r: MousePosition)
        requires
            old(self).wf(),
            -MAX_MOUSE_COORD <= new_position.x <= MAX_MOUSE_COORD,
            -MAX_MOUSE_COORD <= new_position.y <= MAX_MOUSE_COORD,
        ensures
            r == spec_mouse_position(*old(self), new_position),
            *final(self) == (FrameController { last_mouse_position: r.absolute, ..*old(self) }),
            final(self).wf(),
    {
        proof {
            assert(
                -MAX_MOUSE_COORD * MAX_BACKING_SCALE
                    <= new_position.x * self.window_size.backing_scale_trunc
                    <= MAX_MOUSE_COORD * MAX_BACKING_SCALE
                && -MAX_MOUSE_COORD * MAX_BACKING_SCALE
                    <= new_position.y * self.window_size.backing_scale_trunc
                    <= MAX_MOUSE_COORD * MAX_BACKING_SCALE
            ) by (nonlinear_arith)
                requires
                    -MAX_MOUSE_COORD <= new_position.x <= MAX_MOUSE_COORD,
                    -MAX_MOUSE_COORD <= new_position.y <= MAX_MOUSE_COORD,
                    0 <= self.window_size.backing_scale_trunc <= MAX_BACKING_SCALE,
            {}
        }
        let absolute = new_position.scale(self.window_size.backing_scale_trunc);
        let relative = absolute.sub(&self.last_mouse_position);
        self.last_mouse_position = absolute;
        MousePosition { absolute, relative }
    }

    /// Reacts to one input event, appending whatever it emits.
    #[verifier::rlimit(100)]
    fn handle_event(&mut self, event: Event, out: &mut EventsOutcome)
        requires
            old(self).wf(),
            old(self).spec_event_ok(event),
        ensures
            ({
                let step = spec_handle_event(*old(self), event);
                &&& *final(self) == step.state
                &&& final(out).ui_events@ == old(out).ui_events@ + step.ui_events
                &&& final(out).camera_ops@ == old(out).camera_ops@ + step.camera_ops
                &&& final(out).commands@ == old(out).commands@ + step.commands
                &&& final(out).message_actions@ == old(out).message_actions@ + step.message_actions
            }),
            final(self).wf(),
    {
        proof {
            lemma_handle_event_frame(*old(self), event);
        }
        let ghost step = spec_handle_event(*old(self), event);
        match event {
            Event::Quit => {
                self.should_exit = true;
                self.dirty = true;
            },
            Event::KeyDown(Key::Escape) => {
                self.should_exit = true;
                self.dirty = true;
            },
            Event::WindowResized { new_size, view_box_size } => {
                self.window_size = new_size;
                out.commands.push(BuildCommand::SetViewportSize(view_box_size));
                self.dirty = true;
            },
            Event::MouseDown(p) => {
                let mouse = self.process_mouse_position(p);
                out.ui_events.push(UIEvent::MouseDown(mouse));
            },
            Event::MouseMoved(p) => {
                if self.mouselook_enabled {
                    let mouse = self.process_mouse_position(p);
                    if self.camera.is_3d() {
                        out.camera_ops.push(CameraOp::LookByPixels { relative: mouse.relative });
                        self.dirty = true;
                    }
                }
            },
            Event::MouseDragged(p) => {
                let mouse = self.process_mouse_position(p);
                out.ui_events.push(UIEvent::MouseDragged(mouse));
                self.dirty = true;
            },
            Event::Zoom(d_dist) => {
                if !self.camera.is_3d() {
                    out.camera_ops.push(CameraOp::ZoomGesture { d_dist });
                }
            },
            Event::Look { pitch, yaw } => {
                if self.camera.is_3d() {
                    out.camera_ops.push(CameraOp::LookDelta { pitch, yaw });
                }
            },
            Event::SetCameraTransforms(new_transforms) => {
                let count = new_transforms.count();
                match &mut self.camera {
                    Camera::ThreeD { mode, transforms, .. } => {
                        if count == mode.viewport_count() {
                            *transforms = new_transforms;
                        }
                    },
                    Camera::TwoD(_) => {},
                }
            },
            Event::KeyDown(Key::Char(c)) => {
                // The w/a/s/d movement keys.
                if c == 119 || c == 115 || c == 97 || c == 100 {
                    let magnitude = if c == 119 || c == 97 {
                        self.velocity_magnitude.neg()
                    } else {
                        self.velocity_magnitude
                    };
                    match &mut self.camera {
                        Camera::ThreeD { velocity, .. } => {
                            if c == 119 || c == 115 {
                                velocity.z = magnitude;
                            } else {
                                velocity.x = magnitude;
                            }
                            self.dirty = true;
                        },
                        Camera::TwoD(_) => {},
                    }
                }
            },
            Event::KeyUp(Key::Char(c)) => {
                if c == 119 || c == 115 || c == 97 || c == 100 {
                    match &mut self.camera {
                        Camera::ThreeD { velocity, .. } => {
                            if c == 119 || c == 115 {
                                velocity.z = Scalar { bits: 0 };
                            } else {
                                velocity.x = Scalar { bits: 0 };
                            }
                            self.dirty = true;
                        },
                        Camera::TwoD(_) => {},
                    }
                }
            },
            Event::KeyDown(Key::Tab) => {
                self.options.ui = match self.options.ui {
                    UIVisibility::Hidden => UIVisibility::Stats,
                    UIVisibility::Stats => UIVisibility::All,
                    UIVisibility::All => UIVisibility::Hidden,
                };
            },
            Event::OpenScene(load) => {
                self.scene_view_box = load.view_box;
                self.monochrome_scene_color = load.monochrome_color;
                self.camera = Camera::new(self.ui.mode, &load.camera_geometry, load.view_box_size);
                self.velocity_magnitude = load.velocity_magnitude;
                out.commands.push(BuildCommand::LoadScene {
                    scene: load.scene,
                    viewport_size: load.view_box_size,
                });
                out.message_actions.push(MessageAction::Show(load.message));
                self.dirty = true;
            },
            Event::User { message_type, message_data } => {
                if message_type == self.expire_message_event_id
                    && message_data == self.message_epoch {
                    out.message_actions.push(MessageAction::Clear);
                    self.dirty = true;
                }
            },
            _ => {},
        }
        proof {
            assert(final(out).ui_events@ =~= old(out).ui_events@ + step.ui_events);
            assert(final(out).camera_ops@ =~= old(out).camera_ops@ + step.camera_ops);
            assert(final(out).commands@ =~= old(out).commands@ + step.commands);
            assert(final(out).message_actions@ =~= old(out).message_actions@ + step.message_actions);
        }
    }

    /// Consumes one tick's input events in order. The dirty flag starts the
    /// tick afresh; every state change, UI event, camera operation, worker
    /// command and message change is exactly what the event-by-event state
    /// machine prescribes, in event order.
    pub fn handle_events(&mut self, events: Vec<Event>) -> (out: EventsOutcome)
        requires
            old(self).wf(),
            forall|i: int| 0 <= i < events@.len()
                ==> old(self).spec_event_ok(#[trigger] events@[i]),
        ensures
            ({
                let start = FrameController { dirty: false, ..*old(self) };
                let step = spec_handle_events(start, events@);
                &&& *final(self) == step.state
                &&& out.ui_events@ == step.ui_events
                &&& out.camera_ops@ == step.camera_ops
                &&& out.commands@ == step.commands
                &&& out.message_actions@ == step.message_actions
            }),
            final(self).wf(),
            final(self).ui.mode == old(self).ui.mode,
    {
        let ghost all = events@;
        self.dirty = false;
        let ghost start = *self;
        let ghost total = spec_handle_events(start, all);
        let mut out = EventsOutcome::empty();
        let mut rest = events;
        let n0 = rest.len();
        proof {
            assert(all.len() == n0);
            assert(all.skip(0) =~= all);
            lemma_handle_events_preserves(start, all);
        }
        let mut i: usize = 0;
        while rest.len() > 0
            invariant
                all.len() <= usize::MAX,
                i + rest@.len() == all.len(),
                rest@ == all.skip(i as int),
                forall|j: int| 0 <= j < all.len() ==> start.spec_event_ok(#[trigger] all[j]),
                self.wf(),
                forall|e2: Event| start.spec_event_ok(e2)
                    == #[trigger] self.spec_event_ok(e2),
                total == spec_handle_events(start, all),
                total.state == spec_handle_events(*self, rest@).state,
                total.ui_events == out.ui_events@ + spec_handle_events(*self, rest@).ui_events,
                total.camera_ops == out.camera_ops@ + spec_handle_events(*self, rest@).camera_ops,
                total.commands == out.commands@ + spec_handle_events(*self, rest@).commands,
                total.message_actions == out.message_actions@
                    + spec_handle_events(*self, rest@).message_actions,
            decreases rest@.len(),
        {
            let ghost pre = *self;
            let ghost rest0 = rest@;
            let e = rest.remove(0);
            proof {
                assert(rest0[0] == e);
                assert(rest@ =~= rest0.drop_first());
                assert(rest@ =~= all.skip(i as int + 1));
            }
            let ghost step = spec_handle_event(pre, e);
            let ghost tail = spec_handle_events(step.state, rest@);
            let ghost out0_ui = out.ui_events@;
            let ghost out0_ops = out.camera_ops@;
            let ghost out0_cmds = out.commands@;
            let ghost out0_msgs = out.message_actions@;
            proof {
                lemma_handle_event_frame(pre, e);
            }
            self.handle_event(e, &mut out);
            proof {
                assert(spec_handle_events(pre, rest0).state == tail.state);
                assert(out0_ui + (step.ui_events + tail.ui_events)
                    =~= (out0_ui + step.ui_events) + tail.ui_events);
                assert(out0_ops + (step.camera_ops + tail.camera_ops)
                    =~= (out0_ops + step.camera_ops) + tail.camera_ops);
                assert(out0_cmds + (step.commands + tail.commands)
                    =~= (out0_cmds + step.commands) + tail.commands);
                assert(out0_msgs + (step.message_actions + tail.message_actions)
                    =~= (out0_msgs + step.message_actions) + tail.message_actions);
            }
            i = i + 1;
        }
        proof {
            assert(rest@.len() == 0);
            assert(total.ui_events =~= out.ui_events@ + Seq::<UIEvent>::empty());
            assert(total.ui_events =~= out.ui_events@);
            assert(total.camera_ops =~= out.camera_ops@ + Seq::<CameraOp>::empty());
            assert(total.camera_ops =~= out.camera_ops@);
            assert(total.commands =~= out.commands@ + Seq::<BuildCommand>::empty());
            assert(total.commands =~= out.commands@);
            assert(total.message_actions =~= out.message_actions@ + Seq::<MessageAction>::empty());
            assert(total.message_actions =~= out.message_actions@);
        }
        out
    }
}

/// Well-formedness and event acceptability carry through a whole batch.
pub proof fn lemma_handle_events_preserves(s: FrameController, events: Seq<Event>)
    requires
        s.wf(),
        forall|i: int| 0 <= i < events.len() ==> s.spec_event_ok(#[trigger] events[i]),
    ensures
        spec_handle_events(s, events).state.wf(),
        forall|e2: Event| s.spec_event_ok(e2)
            == #[trigger] spec_handle_events(s, events).state.spec_event_ok(e2),
        spec_handle_events(s, events).state.ui.mode == s.ui.mode,
        spec_handle_events(s, events).state.message_epoch == s.message_epoch,
        spec_handle_events(s, events).state.expire_message_event_id == s.expire_message_event_id,
    decreases events.len(),
{
    if events.len() > 0 {
        lemma_handle_event_frame(s, events[0]);
        let first = spec_handle_event(s, events[0]);
        assert(forall|j: int| 0 <= j < events.drop_first().len()
            ==> first.state.spec_event_ok(#[trigger] events.drop_first()[j]));
        lemma_handle_events_preserves(first.state, events.drop_first());
    }
}

} // verus!

verus! {

/// The data the host gives the debug UI when a frame finishes: the tick's
/// statistics, the build duration, and the collected UI events.
pub struct UiInput {
    pub render_stats: Option<RenderStats>,
    pub tile_time_nanos: u64,
    pub ui_events: Vec<UIEvent>,
    pub show_text_effects: bool,
}

/// What came back from the debug UI: its action, the events it did not
/// consume, and its state as the user left it.
pub struct UiRound {
    pub action: UIAction,
    pub returned_events: Vec<UIEvent>,
    pub new_ui: UiState,
}

/// The inputs of a deferred camera-mode switch: the viewport size for the
/// new mode and the geometry the numeric edge derived from the stored scene
/// view box and that size.
#[derive(Clone, Copy, PartialEq, Eq, Structural, Debug)]
pub struct SwitchData {
    pub view_box_size: Vector2I,
    pub geometry: CameraGeometry,
}

/// What finishing a frame hands back to the host: the screenshot to take,
/// if one was pending, and the camera work the UI round produced.
pub struct FinishOutcome {
    pub screenshot: Option<String>,
    pub camera_ops: Vec<CameraOp>,
}

/// The render-mode settings for drawing one tick's vector scene.
#[derive(Clone, Copy, PartialEq, Eq, Structural, Debug)]
pub struct VectorSceneParams {
    pub monochrome: Option<MonochromeParams>,
    pub depth_enabled: bool,
}

/// Monochrome rendering: foreground, background, and the text effects.
#[derive(Clone, Copy, PartialEq, Eq, Structural, Debug)]
pub struct MonochromeParams {
    pub fg_color: Color,
    pub bg_color: Color,
    pub gamma_correction: bool,
    pub defringing: bool,
}

/// The render transforms a tick derives afresh from the camera: the 2D
/// camera's transform, or one perspective-chain description per viewport.
pub open spec fn spec_render_transforms(camera: Camera) -> Seq<RenderTransform> {
    match camera {
        Camera::TwoD(t) => seq![RenderTransform::Transform2D(t)],
        Camera::ThreeD { transforms, transform, .. } => Seq::new(
            transforms.spec_count() as nat,
            |i: int| RenderTransform::Perspective {
                camera: transforms.spec_get(i),
                model: transform,
            },
        ),
    }
}

/// Whether a command is exactly the `Build` this state would send.
pub open spec fn spec_is_planned_build(
    s: FrameController,
    barrel: Option<BarrelDistortion>,
    cmd: BuildCommand,
) -> bool {
    &&& cmd matches BuildCommand::Build(o)
    &&& o.render_transforms@ == spec_render_transforms(s.camera)
    &&& o.stem_darkening_font_size == (if s.ui.stem_darkening_effect_enabled {
        Some(s.window_size.scaled_font_size)
    } else {
        None::<Scalar>
    })
    &&& o.barrel_distortion == barrel
    &&& o.subpixel_aa_enabled == s.ui.subpixel_aa_effect_enabled
}

/// Componentwise sum of two statistics records.
pub open spec fn spec_add_stats(a: Stats, b: Stats) -> Stats {
    Stats {
        object_count: (a.object_count + b.object_count) as u64,
        solid_tile_count: (a.solid_tile_count + b.solid_tile_count) as u64,
        alpha_tile_count: (a.alpha_tile_count + b.alpha_tile_count) as u64,
        pending_fills: (a.pending_fills + b.pending_fills) as u64,
    }
}

/// The screenshot path a UI action leaves pending.
pub open spec fn spec_action_pending(action: UIAction) -> Option<String> {
    match action {
        UIAction::TakeScreenshot(p) => Some(p),
        _ => None,
    }
}

/// Whether a UI action marks the frame dirty.
pub open spec fn spec_action_dirty(action: UIAction, camera: Camera) -> bool {
    match action {
        UIAction::TakeScreenshot(_) => true,
        UIAction::ZoomIn | UIAction::ZoomOut => camera is TwoD,
        _ => false,
    }
}

/// The camera work a UI action asks for; zoom and rotation touch only a 2D
/// camera.
pub open spec fn spec_action_ops(action: UIAction, camera: Camera) -> Seq<CameraOp> {
    match action {
        UIAction::ZoomIn => if camera is TwoD {
            seq![CameraOp::ZoomButton { zoom_in: true }]
        } else {
            Seq::empty()
        },
        UIAction::ZoomOut => if camera is TwoD {
            seq![CameraOp::ZoomButton { zoom_in: false }]
        } else {
            Seq::empty()
        },
        UIAction::Rotate(theta) => if camera is TwoD {
            seq![CameraOp::RotateTo { theta }]
        } else {
            Seq::empty()
        },
        _ => Seq::empty(),
    }
}

/// Dispatching the frame's UI events once drawing is over: an unconsumed
/// mouse-down toggles mouselook in a 3D mode; a drag pans a 2D camera.
/// The camera is fixed by then, so the fold carries only the mouselook
/// flag and the pans it emits.
pub open spec fn spec_dispatch_ui_events(
    camera: Camera,
    mouselook: bool,
    events: Seq<UIEvent>,
) -> (bool, Seq<CameraOp>)
    decreases events.len(),
{
    if events.len() == 0 {
        (mouselook, Seq::empty())
    } else {
        let (flag, ops): (bool, Seq<CameraOp>) = match events[0] {
            UIEvent::MouseDown(_) => {
                if camera is ThreeD {
                    (!mouselook, Seq::empty())
                } else {
                    (mouselook, Seq::empty())
                }
            },
            UIEvent::MouseDragged(position) => {
                if camera is TwoD {
                    (mouselook, seq![CameraOp::Pan { relative: position.relative }])
                } else {
                    (mouselook, Seq::empty())
                }
            },
        };
        let rest = spec_dispatch_ui_events(camera, flag, events.drop_first());
        (rest.0, ops + rest.1)
    }
}

/// Unfolds one step of the dispatch fold.
proof fn lemma_dispatch_step(camera: Camera, mouselook: bool, events: Seq<UIEvent>, i: int)
    requires
        0 <= i < events.len(),
    ensures
        spec_dispatch_ui_events(camera, mouselook, events.skip(i)).0
            == spec_dispatch_ui_events(
                camera,
                spec_dispatch_one(camera, mouselook, events[i]).0,
                events.skip(i + 1),
            ).0,
        spec_dispatch_ui_events(camera, mouselook, events.skip(i)).1
            == spec_dispatch_one(camera, mouselook, events[i]).1
                + spec_dispatch_ui_events(
                    camera,
                    spec_dispatch_one(camera, mouselook, events[i]).0,
                    events.skip(i + 1),
                ).1,
{
    assert(events.skip(i)[0] == events[i]);
    assert(events.skip(i).drop_first() =~= events.skip(i + 1));
}

/// One event's effect in the dispatch fold.
pub open spec fn spec_dispatch_one(camera: Camera, mouselook: bool, e: UIEvent) -> (bool, Seq<CameraOp>) {
    match e {
        UIEvent::MouseDown(_) => {
            if camera is ThreeD {
                (!mouselook, Seq::empty())
            } else {
                (mouselook, Seq::empty())
            }
        },
        UIEvent::MouseDragged(position) => {
            if camera is TwoD {
                (mouselook, seq![CameraOp::Pan { relative: position.relative }])
            } else {
                (mouselook, Seq::empty())
            }
        },
    }
}

impl FrameController {
    /// Sets the controller up for a freshly loaded scene: a fresh camera
    /// for the configured mode, one viewport-size command for the worker,
    /// and — when the scene came with a warning message — the epoch
    /// advanced to one and its expiry timer to schedule. The host shows the
    /// message exactly when a timer comes back.
    pub fn new(
        options: Options,
        window_size: WindowSize,
        expire_message_event_id: u32,
        load: SceneLoad,
    ) -> (r: (FrameController, Vec<BuildCommand>, Option<TimerRequest>))
        requires
            load.camera_geometry.matches_mode(options.mode),
            0 <= window_size.backing_scale_trunc <= MAX_BACKING_SCALE,
        ensures
            ({
                let (ctrl, cmds, timer) = r;
                &&& ctrl.should_exit == false
                &&& ctrl.options == options
                &&& ctrl.window_size == window_size
                &&& ctrl.scene_view_box == load.view_box
                &&& ctrl.monochrome_scene_color == load.monochrome_color
                &&& ctrl.camera == spec_fresh_camera(
                    options.mode,
                    load.camera_geometry,
                    load.view_box_size,
                )
                &&& ctrl.frame_counter == 0
                &&& ctrl.pending_screenshot_path is None
                &&& ctrl.mouselook_enabled == false
                &&& ctrl.dirty == true
                &&& ctrl.expire_message_event_id == expire_message_event_id
                &&& ctrl.message_epoch == (if load.message@.len() == 0 { 0int } else { 1int })
                &&& timer == (if load.message@.len() == 0 {
                    None::<TimerRequest>
                } else {
                    Some(TimerRequest { event_id: expire_message_event_id, expected_epoch: 1 })
                })
                &&& ctrl.last_mouse_position == (Vector2I { x: 0, y: 0 })
                &&& ctrl.current_frame is None
                &&& ctrl.ui == (UiState {
                    mode: options.mode,
                    background: options.background,
                    stem_darkening_effect_enabled: false,
                    subpixel_aa_effect_enabled: false,
                    gamma_correction_effect_enabled: false,
                    show_text_effects: false,
                })
                &&& ctrl.velocity_magnitude == load.velocity_magnitude
                &&& cmds@ == seq![BuildCommand::SetViewportSize(load.view_box_size)]
                &&& ctrl.wf()
            }),
    {
        let camera = Camera::new(options.mode, &load.camera_geometry, load.view_box_size);
        let message_empty = load.message.as_str().unicode_len() == 0;
        let message_epoch: u32 = if message_empty {
            0
        } else {
            1
        };
        let timer = if message_empty {
            None
        } else {
            Some(TimerRequest { event_id: expire_message_event_id, expected_epoch: 1 })
        };
        let ui = UiState {
            mode: options.mode,
            background: options.background,
            stem_darkening_effect_enabled: false,
            subpixel_aa_effect_enabled: false,
            gamma_correction_effect_enabled: false,
            show_text_effects: false,
        };
        let ctrl = FrameController {
            should_exit: false,
            options,
            window_size,
            scene_view_box: load.view_box,
            monochrome_scene_color: load.monochrome_color,
            camera,
            frame_counter: 0,
            pending_screenshot_path: None,
            mouselook_enabled: false,
            dirty: true,
            expire_message_event_id,
            message_epoch,
            last_mouse_position: Vector2I { x: 0, y: 0 },
            current_frame: None,
            ui,
            velocity_magnitude: load.velocity_magnitude,
        };
        let mut cmds: Vec<BuildCommand> = Vec::new();
        cmds.push(BuildCommand::SetViewportSize(load.view_box_size));
        proof {
            assert(cmds@ =~= seq![BuildCommand::SetViewportSize(load.view_box_size)]);
        }
        (ctrl, cmds, timer)
    }

    /// Starts the tick's velocity integration: yields the velocity to
    /// integrate exactly when a 3D camera is moving, and marks the frame
    /// dirty then. The host evaluates the motion and writes the position
    /// back through `set_camera_position`.
    pub fn begin_motion(&mut self) -> (r: Option<Vector3S>)
        ensures
            r == (match old(self).camera {
                Camera::ThreeD { velocity, .. } => if !velocity.spec_is_zero() {
                    Some(velocity)
                } else {
                    None::<Vector3S>
                },
                Camera::TwoD(_) => None::<Vector3S>,
            }),
            *final(self) == (FrameController {
                dirty: old(self).dirty || r is Some,
                ..*old(self)
            }),
    {
        match &self.camera {
            Camera::ThreeD { velocity, .. } => {
                if !velocity.is_zero() {
                    let v = *velocity;
                    self.dirty = true;
                    Some(v)
                } else {
                    None
                }
            },
            Camera::TwoD(_) => None,
        }
    }

    /// Writes back an integrated camera position; only the 3D placement's
    /// position may change.
    pub fn set_camera_position(&mut self, position: Vector3S)
        requires
            old(self).camera is ThreeD,
        ensures
            *final(self) == (FrameController {
                camera: (match old(self).camera {
                    Camera::ThreeD { mode, transforms, transform, velocity } => Camera::ThreeD {
                        mode,
                        transforms,
                        transform: CameraTransform3D { position, ..transform },
                        velocity,
                    },
                    Camera::TwoD(t) => Camera::TwoD(t),
                }),
                ..*old(self)
            }),
    {
        match &mut self.camera {
            Camera::ThreeD { transform, .. } => {
                transform.position = position;
            },
            Camera::TwoD(_) => {},
        }
    }

    /// Writes back accumulated mouselook angles; only yaw and pitch change.
    pub fn set_look(&mut self, yaw: Scalar, pitch: Scalar)
        requires
            old(self).camera is ThreeD,
        ensures
            *final(self) == (FrameController {
                camera: (match old(self).camera {
                    Camera::ThreeD { mode, transforms, transform, velocity } => Camera::ThreeD {
                        mode,
                        transforms,
                        transform: CameraTransform3D { yaw, pitch, ..transform },
                        velocity,
                    },
                    Camera::TwoD(t) => Camera::TwoD(t),
                }),
                ..*old(self)
            }),
    {
        match &mut self.camera {
            Camera::ThreeD { transform, .. } => {
                transform.yaw = yaw;
                transform.pitch = pitch;
            },
            Camera::TwoD(_) => {},
        }
    }

    /// Writes back a recomposed 2D transform after a pan, zoom or rotation.
    pub fn set_2d_transform(&mut self, t: Transform2D)
        requires
            old(self).camera is TwoD,
        ensures
            *final(self) == (FrameController { camera: Camera::TwoD(t), ..*old(self) }),
    {
        self.camera = Camera::TwoD(t);
    }

    /// The transforms this tick's build will use, derived afresh from the
    /// camera.
    fn render_transforms(&self) -> (r: Vec<RenderTransform>)
        requires
            self.wf(),
        ensures
            r@ == spec_render_transforms(self.camera),
    {
        let mut out: Vec<RenderTransform> = Vec::new();
        match &self.camera {
            Camera::TwoD(t) => {
                out.push(RenderTransform::Transform2D(*t));
                proof {
                    assert(out@ =~= spec_render_transforms(self.camera));
                }
            },
            Camera::ThreeD { transforms, transform, .. } => {
                let count = transforms.count();
                let mut i: usize = 0;
                while i < count
                    invariant
                        count == transforms.spec_count(),
                        i <= count,
                        out@.len() == i,
                        forall|j: int| 0 <= j < i ==> out@[j] == (RenderTransform::Perspective {
                            camera: transforms.spec_get(j),
                            model: *transform,
                        }),
                    decreases count - i,
                {
                    out.push(RenderTransform::Perspective {
                        camera: transforms.get(i),
                        model: *transform,
                    });
                    i = i + 1;
                }
                proof {
                    assert(out@ =~= spec_render_transforms(self.camera));
                }
            },
        }
        out
    }

    /// One `Build` command's options for this tick.
    fn make_build_options(&self, barrel_distortion: Option<BarrelDistortion>) -> (o: BuildOptions)
        requires
            self.wf(),
        ensures
            spec_is_planned_build(*self, barrel_distortion, BuildCommand::Build(o)),
    {
        BuildOptions {
            render_transforms: self.render_transforms(),
            stem_darkening_font_size: if self.ui.stem_darkening_effect_enabled {
                Some(self.window_size.scaled_font_size)
            } else {
                None
            },
            barrel_distortion,
            subpixel_aa_enabled: self.ui.subpixel_aa_effect_enabled,
        }
    }

    /// Plans this tick's build commands: exactly one `Build`, except two on
    /// the very first tick with pipelining enabled, so the worker runs one
    /// tick ahead from then on. Each command carries the same options,
    /// derived afresh from the camera. The duplicated first send also marks
    /// the frame dirty.
    pub fn plan_build(&mut self, barrel_distortion: Option<BarrelDistortion>) -> (cmds: Vec<BuildCommand>)
        requires
            old(self).wf(),
            (barrel_distortion is Some) == (old(self).ui.mode is VR),
        ensures
            *final(self) == (FrameController {
                dirty: old(self).dirty
                    || (old(self).frame_counter == 0 && old(self).options.pipeline),
                ..*old(self)
            }),
            cmds@.len() == (if old(self).frame_counter == 0 && old(self).options.pipeline {
                2int
            } else {
                1int
            }),
            forall|i: int| 0 <= i < cmds@.len()
                ==> spec_is_planned_build(*old(self), barrel_distortion, #[trigger] cmds@[i]),
    {
        let is_first_frame = self.frame_counter == 0;
        let mut cmds: Vec<BuildCommand> = Vec::new();
        if is_first_frame && self.options.pipeline {
            let opts = self.make_build_options(barrel_distortion);
            cmds.push(BuildCommand::Build(opts));
            self.dirty = true;
        }
        let opts = self.make_build_options(barrel_distortion);
        cmds.push(BuildCommand::Build(opts));
        cmds
    }

    /// Receives the next build result and wraps it, with the tick's UI
    /// events, into the one live frame. The previous frame must be gone:
    /// at most one frame is ever in flight.
    pub fn receive_frame(&mut self, render_msg: BuiltFrame, ui_events: Vec<UIEvent>) -> (count: usize)
        requires
            old(self).current_frame is None,
        ensures
            count == render_msg.render_scenes@.len(),
            *final(self) == (FrameController {
                current_frame: Some(Frame {
                    render_msg,
                    ui_events,
                    render_stats: None,
                }),
                ..*old(self)
            }),
    {
        let count = render_msg.render_scenes.len();
        self.current_frame = Some(Frame::new(render_msg, ui_events));
        count
    }

    /// The background colour the UI's scheme selects.
    pub open spec fn spec_background_color(self) -> Color {
        match self.ui.background {
            Background::Blank => Color { r: 0, g: 0, b: 0, a: 255 },
            Background::Dark => Color { r: 32, g: 32, b: 32, a: 255 },
            Background::Light => Color { r: 248, g: 248, b: 248, a: 255 },
        }
    }

    pub fn background_color(&self) -> (c: Color)
        ensures
            c == self.spec_background_color(),
    {
        match self.ui.background {
            Background::Blank => Color { r: 0, g: 0, b: 0, a: 255 },
            Background::Dark => Color { r: 32, g: 32, b: 32, a: 255 },
            Background::Light => Color { r: 248, g: 248, b: 248, a: 255 },
        }
    }

    /// Whether the ground environment is drawn for a viewport: only behind
    /// a perspective transform, and only when a background is wanted.
    pub fn should_draw_environment(&self, viewport_index: usize) -> (r: bool)
        requires
            self.current_frame matches Some(f)
                && viewport_index < f.render_msg.render_scenes@.len(),
        ensures
            r == (self.current_frame->0.render_msg.render_scenes@[viewport_index as int].transform
                    is Perspective
                && !(self.ui.background is Blank)),
    {
        match &self.current_frame {
            Some(frame) => {
                let is_perspective = match &frame.render_msg.render_scenes[viewport_index].transform {
                    RenderTransform::Perspective { .. } => true,
                    RenderTransform::Transform2D(_) => false,
                };
                is_perspective && !matches!(self.ui.background, Background::Blank)
            },
            None => false,
        }
    }

    /// The render-mode settings for the vector scene: monochrome with the
    /// scene's own foreground over the scheme's background when the scene
    /// is monochrome, multicolour otherwise; depth only in 3D modes.
    pub fn vector_scene_params(&self) -> (p: VectorSceneParams)
        ensures
            p.depth_enabled == !(self.ui.mode is TwoD),
            p.monochrome == (match self.monochrome_scene_color {
                Some(fg) => Some(MonochromeParams {
                    fg_color: fg,
                    bg_color: self.spec_background_color(),
                    gamma_correction: self.ui.gamma_correction_effect_enabled,
                    defringing: self.ui.subpixel_aa_effect_enabled,
                }),
                None => None::<MonochromeParams>,
            }),
    {
        VectorSceneParams {
            monochrome: match self.monochrome_scene_color {
                Some(fg) => Some(MonochromeParams {
                    fg_color: fg,
                    bg_color: self.background_color(),
                    gamma_correction: self.ui.gamma_correction_effect_enabled,
                    defringing: self.ui.subpixel_aa_effect_enabled,
                }),
                None => None,
            },
            depth_enabled: !matches!(self.ui.mode, Mode::TwoD),
        }
    }

    /// Accumulates one viewport's render statistics into the live frame:
    /// the first viewport starts the record with the given GPU time, later
    /// viewports add their statistics and keep that time.
    pub fn record_viewport_render(&mut self, stats: Stats, rendering_time_nanos: Option<u64>)
        requires
            old(self).current_frame is Some,
            (match old(self).current_frame->0.render_stats {
                Some(rs) => {
                    &&& rs.stats.object_count + stats.object_count <= u64::MAX
                    &&& rs.stats.solid_tile_count + stats.solid_tile_count <= u64::MAX
                    &&& rs.stats.alpha_tile_count + stats.alpha_tile_count <= u64::MAX
                    &&& rs.stats.pending_fills + stats.pending_fills <= u64::MAX
                },
                None => true,
            }),
        ensures
            *final(self) == (FrameController {
                current_frame: Some(Frame {
                    render_stats: Some(match old(self).current_frame->0.render_stats {
                        None => RenderStats { rendering_time_nanos, stats },
                        Some(rs) => RenderStats {
                            rendering_time_nanos: rs.rendering_time_nanos,
                            stats: spec_add_stats(rs.stats, stats),
                        },
                    }),
                    ..old(self).current_frame->0
                }),
                ..*old(self)
            }),
    {
        match &mut self.current_frame {
            Some(frame) => {
                match &mut frame.render_stats {
                    None => {
                        frame.render_stats = Some(RenderStats { rendering_time_nanos, stats });
                    },
                    Some(rs) => {
                        rs.stats = Stats {
                            object_count: rs.stats.object_count + stats.object_count,
                            solid_tile_count: rs.stats.solid_tile_count + stats.solid_tile_count,
                            alpha_tile_count: rs.stats.alpha_tile_count + stats.alpha_tile_count,
                            pending_fills: rs.stats.pending_fills + stats.pending_fills,
                        };
                    },
                }
            },
            None => {},
        }
    }
}

} // verus!

verus! {

impl FrameController {
    /// Begins finishing the frame: when any UI is shown, hands the host
    /// what the debug UI needs — the tick's statistics (taken from the
    /// frame), the build duration, and the collected UI events — and
    /// refreshes the text-effects flag; events waiting for the UI also
    /// mark the frame dirty. With the UI hidden nothing changes and the
    /// events stay with the frame for dispatch.
    pub fn finish_frame_ui_input(&mut self) -> (r: Option<UiInput>)
        requires
            old(self).current_frame is Some,
        ensures
            old(self).options.ui is Hidden ==> r is None && *final(self) == *old(self),
            !(old(self).options.ui is Hidden) ==> {
                let f = old(self).current_frame->0;
                &&& r matches Some(u)
                &&& u.render_stats == f.render_stats
                &&& u.tile_time_nanos == f.render_msg.tile_time_nanos
                &&& u.ui_events == f.ui_events
                &&& u.show_text_effects == (old(self).monochrome_scene_color is Some)
                &&& final(self).current_frame matches Some(f2)
                &&& f2.render_msg == f.render_msg
                &&& f2.render_stats is None
                &&& f2.ui_events@ == Seq::<UIEvent>::empty()
                &&& *final(self) == (FrameController {
                    dirty: old(self).dirty || f.ui_events@.len() > 0,
                    ui: UiState {
                        show_text_effects: old(self).monochrome_scene_color is Some,
                        ..old(self).ui
                    },
                    current_frame: final(self).current_frame,
                    ..*old(self)
                })
            },
    {
        if matches!(self.options.ui, UIVisibility::Hidden) {
            return None;
        }
        let mut taken: Option<Frame> = None;
        core::mem::swap(&mut taken, &mut self.current_frame);
        match taken {
            Some(frame) => {
                let show_text_effects = self.monochrome_scene_color.is_some();
                self.ui.show_text_effects = show_text_effects;
                if frame.ui_events.len() > 0 {
                    self.dirty = true;
                }
                let input = UiInput {
                    render_stats: frame.render_stats,
                    tile_time_nanos: frame.render_msg.tile_time_nanos,
                    ui_events: frame.ui_events,
                    show_text_effects,
                };
                self.current_frame = Some(Frame {
                    render_msg: frame.render_msg,
                    ui_events: Vec::new(),
                    render_stats: None,
                });
                Some(input)
            },
            None => None,
        }
    }

    /// Finishes the frame. In order: the pending screenshot (requested on
    /// an earlier tick) goes out to be taken; the UI round's state
    /// replaces the UI and its action is applied against the camera as it
    /// stands; a deferred mode switch then rebuilds the camera purely from
    /// the new mode, the stored scene view box's derived geometry and the
    /// new viewport size — discarding the action's camera work along with
    /// everything else accumulated; the frame's remaining UI events are
    /// dispatched against the new camera (mouse-downs toggle mouselook in
    /// 3D, drags pan in 2D); and the frame is destroyed and counted.
    pub fn finish_frame(&mut self, round: Option<UiRound>, switch: Option<SwitchData>) -> (out: FinishOutcome)
        requires
            old(self).current_frame is Some,
            old(self).frame_counter < u32::MAX,
            (round is Some) == !(old(self).options.ui is Hidden),
            ({
                let target = match round {
                    Some(r) => r.new_ui.mode,
                    None => old(self).ui.mode,
                };
                &&& (switch is Some) == (target != old(self).camera.spec_mode())
                &&& (switch matches Some(sw) ==> sw.geometry.matches_mode(target))
            }),
        ensures
            ({
                let f = old(self).current_frame->0;
                let ui2 = match round {
                    Some(r) => r.new_ui,
                    None => old(self).ui,
                };
                let action = match round {
                    Some(r) => r.action,
                    None => UIAction::Idle,
                };
                let camera2 = match switch {
                    Some(sw) => spec_fresh_camera(ui2.mode, sw.geometry, sw.view_box_size),
                    None => old(self).camera,
                };
                let dispatch_events = match round {
                    Some(r) => r.returned_events@,
                    None => f.ui_events@,
                };
                let dispatched = spec_dispatch_ui_events(
                    camera2,
                    old(self).mouselook_enabled,
                    dispatch_events,
                );
                let action_ops = if switch is None {
                    spec_action_ops(action, old(self).camera)
                } else {
                    Seq::<CameraOp>::empty()
                };
                &&& out.screenshot == old(self).pending_screenshot_path
                &&& out.camera_ops@ == action_ops + dispatched.1
                &&& *final(self) == (FrameController {
                    pending_screenshot_path: spec_action_pending(action),
                    dirty: old(self).dirty || spec_action_dirty(action, old(self).camera),
                    ui: ui2,
                    camera: camera2,
                    mouselook_enabled: dispatched.0,
                    current_frame: None,
                    frame_counter: (old(self).frame_counter + 1) as u32,
                    ..*old(self)
                })
            }),
            final(self).camera.spec_mode() == final(self).ui.mode
                || switch is None,
    {
        let mut taken: Option<Frame> = None;
        core::mem::swap(&mut taken, &mut self.current_frame);
        let frame = match taken {
            Some(frame) => frame,
            None => {
                proof {
                    assert(false);
                }
                Frame {
                    render_msg: BuiltFrame { render_scenes: Vec::new(), tile_time_nanos: 0 },
                    ui_events: Vec::new(),
                    render_stats: None,
                }
            },
        };

        // The screenshot requested on an earlier tick goes out now.
        let mut screenshot: Option<String> = None;
        core::mem::swap(&mut screenshot, &mut self.pending_screenshot_path);

        let mut action_ops: Vec<CameraOp> = Vec::new();
        let dispatch_events = match round {
            Some(r) => {
                self.ui = r.new_ui;
                // The UI action works on the camera as it stands now.
                match r.action {
                    UIAction::Idle => {},
                    UIAction::TakeScreenshot(path) => {
                        self.pending_screenshot_path = Some(path);
                        self.dirty = true;
                    },
                    UIAction::ZoomIn => {
                        if !self.camera.is_3d() {
                            action_ops.push(CameraOp::ZoomButton { zoom_in: true });
                            self.dirty = true;
                        }
                    },
                    UIAction::ZoomOut => {
                        if !self.camera.is_3d() {
                            action_ops.push(CameraOp::ZoomButton { zoom_in: false });
                            self.dirty = true;
                        }
                    },
                    UIAction::Rotate(theta) => {
                        if !self.camera.is_3d() {
                            action_ops.push(CameraOp::RotateTo { theta });
                        }
                    },
                }
                r.returned_events
            },
            None => frame.ui_events,
        };

        // Deferred camera-mode switch: rebuilt purely from the stored view
        // box's geometry and the new viewport size; the action's camera
        // work above dies with the old camera.
        match &switch {
            Some(sw) => {
                self.camera = Camera::new(self.ui.mode, &sw.geometry, sw.view_box_size);
                action_ops = Vec::new();
            },
            None => {},
        }

        let ghost pre_dispatch = *self;
        let ghost camera2 = self.camera;
        let ghost mouselook0 = self.mouselook_enabled;
        let ghost all_events = dispatch_events@;
        let ghost total = spec_dispatch_ui_events(camera2, mouselook0, all_events);
        let mut ops: Vec<CameraOp> = action_ops;
        let ghost ops0 = ops@;
        let n = dispatch_events.len();
        let mut i: usize = 0;
        proof {
            assert(all_events.skip(0) =~= all_events);
        }
        while i < n
            invariant
                n == all_events.len(),
                all_events == dispatch_events@,
                i <= n,
                camera2 == pre_dispatch.camera,
                *self == (FrameController {
                    mouselook_enabled: self.mouselook_enabled,
                    ..pre_dispatch
                }),
                total == spec_dispatch_ui_events(camera2, mouselook0, all_events),
                total.0 == spec_dispatch_ui_events(
                    camera2,
                    self.mouselook_enabled,
                    all_events.skip(i as int),
                ).0,
                ops0 + total.1 == ops@ + spec_dispatch_ui_events(
                    camera2,
                    self.mouselook_enabled,
                    all_events.skip(i as int),
                ).1,
            decreases n - i,
        {
            let ghost flag_pre = self.mouselook_enabled;
            proof {
                lemma_dispatch_step(camera2, flag_pre, all_events, i as int);
            }
            let ghost step = spec_dispatch_one(camera2, flag_pre, all_events[i as int]);
            let ghost ops_pre = ops@;
            match &dispatch_events[i] {
                UIEvent::MouseDown(_) => {
                    if self.camera.is_3d() {
                        // Nothing consumed the mouse-down: toggle mouselook.
                        self.mouselook_enabled = !self.mouselook_enabled;
                    }
                },
                UIEvent::MouseDragged(position) => {
                    if !self.camera.is_3d() {
                        ops.push(CameraOp::Pan { relative: position.relative });
                    }
                },
            }
            proof {
                assert(ops@ =~= ops_pre + step.1);
                assert(ops_pre + (step.1 + spec_dispatch_ui_events(
                    camera2,
                    self.mouselook_enabled,
                    all_events.skip(i as int + 1),
                ).1) =~= (ops_pre + step.1) + spec_dispatch_ui_events(
                    camera2,
                    self.mouselook_enabled,
                    all_events.skip(i as int + 1),
                ).1);
            }
            i = i + 1;
        }
        proof {
            assert(all_events.skip(n as int) =~= Seq::<UIEvent>::empty());
            assert(ops0 + total.1 =~= ops@ + Seq::<CameraOp>::empty());
            assert(ops0 + total.1 =~= ops@);
        }

        self.frame_counter = self.frame_counter + 1;

        FinishOutcome { screenshot, camera_ops: ops }
    }
}

} // verus!
