//! The frame orchestrator: the per-frame sequence and the decisions of the
//! event loop, as pure transitions over plain state.
//!
//! The shell owns the window, the device, the queue and the surface. Each
//! turn it hands an event (or the result of acquiring the next surface
//! image) to the `State` here, and gets back the exact work to perform: a
//! configuration to apply, a `FramePlan` to encode and submit, or a
//! directive telling it how a failed acquisition is recovered. Every
//! decision — what the intermediate target must look like, which effect
//! draws, in what order the passes are submitted, when to reconfigure and
//! when to stop — is made and proved here.

use vstd::prelude::*;

use crate::post_processing::{LoadOp, PostPass, PostProcessing, StoreOp, TargetRef};
use crate::registry::{next_index, EffectRegistry};
use crate::shader_globals::{ndc_of_pixel, with_cursor, with_time, Globals, MAX_PIXEL_COORD};
use crate::surface::{AcquiredImage, SurfaceConfig, SurfaceError, TextureFormat, TextureUsage};

verus! {

/// A press-and-release shorter than this many milliseconds counts as a tap
/// and advances the effect selection.
pub const TAP_THRESHOLD_MILLIS: u64 = 500;

/// Upper bound on the millisecond readings events may carry; far beyond any
/// run's length, and small enough that threshold arithmetic cannot
/// overflow.
pub const MAX_EVENT_MILLIS: u64 = 0x7fff_ffff_ffff_ffff;

/// The descriptor of the intermediate color target for one frame. Every
/// field but the usage is copied from the acquired surface image, so the
/// post-processing sampling step sees a source that matches its
/// destination exactly.
#[derive(Clone, Copy, Debug, PartialEq, Eq, Structural)]
pub struct IntermediateTarget {
    pub width: u32,
    pub height: u32,
    pub format: TextureFormat,
    pub sample_count: u32,
    pub mip_level_count: u32,
    pub usage: TextureUsage,
}

/// The scene pass: whatever primary content is in scope, drawn into the
/// intermediate target under clear-then-draw semantics.
#[derive(Clone, Copy, Debug, PartialEq, Eq, Structural)]
pub struct ScenePass {
    pub target: TargetRef,
    pub load: LoadOp,
    pub store: StoreOp,
    /// Bind group set 0: the shared globals uniform.
    pub globals_group: u32,
}

/// One entry of a frame's submission, in command order.
#[derive(Clone, Copy, Debug, PartialEq, Eq, Structural)]
pub enum Pass {
    Scene(ScenePass),
    Post(PostPass),
}

/// The complete, ordered work of one frame, ready for the shell to record
/// and submit as a single command batch.
#[derive(Clone, Copy, Debug, PartialEq, Eq, Structural)]
pub struct FramePlan {
    /// The full globals record to upload before rendering: always the
    /// whole record, never a partial update.
    pub globals_upload: Globals,
    /// The offscreen target to create (or reuse) for this frame.
    pub intermediate: IntermediateTarget,
    /// First pass: the scene, into the intermediate target.
    pub scene: ScenePass,
    /// Second pass: the current effect, sampling the intermediate target
    /// and writing to the surface image.
    pub post: PostPass,
    /// The image to present once the batch is submitted.
    pub present: TargetRef,
}

impl FramePlan {
    /// The submission order of the plan's passes: the scene pass strictly
    /// before the post-processing pass that samples its output.
    pub open spec fn submission(self) -> Seq<Pass> {
        seq![Pass::Scene(self.scene), Pass::Post(self.post)]
    }
}

/// How the render loop reacts to a failed acquisition.
#[derive(Clone, Copy, Debug, PartialEq, Eq, Structural)]
pub enum Directive {
    /// Recoverable loss: reconfigure the surface once, with the last-known
    /// size, and skip the frame.
    Reconfigure { width: u32, height: u32 },
    /// Transient: skip the frame; no reconfiguration.
    SkipFrame,
    /// Fatal: stop the render loop; no further frames.
    Exit,
}

/// A discrete event from the input source, in plain values.
#[derive(Clone, Copy, Debug, PartialEq, Eq, Structural)]
pub enum InputEvent {
    /// A qualifying press: advance the effect selection.
    MouseLeftPressed,
    /// Pointer moved to pixel position `(x, y)`; may lie outside the
    /// window during a drag.
    CursorMoved { x: i64, y: i64 },
    /// A touch began at `time_millis` since the start of the run.
    TouchStarted { time_millis: u64 },
    /// A touch ended at `time_millis`; a short one counts as a tap.
    TouchEnded { time_millis: u64 },
    /// A touch moved to pixel position `(x, y)`.
    TouchMoved { x: i64, y: i64 },
    /// The window was resized.
    Resized { width: u32, height: u32 },
    /// The window was asked to close.
    CloseRequested,
    /// The quit key was pressed.
    EscapePressed,
}

/// Bounds every event's payload must satisfy: positions within the range
/// the NDC mapping accepts, times within `MAX_EVENT_MILLIS`.
pub open spec fn event_wf(ev: InputEvent) -> bool {
    match ev {
        InputEvent::CursorMoved { x, y } => -MAX_PIXEL_COORD <= x <= MAX_PIXEL_COORD
            && -MAX_PIXEL_COORD <= y <= MAX_PIXEL_COORD,
        InputEvent::TouchMoved { x, y } => -MAX_PIXEL_COORD <= x <= MAX_PIXEL_COORD
            && -MAX_PIXEL_COORD <= y <= MAX_PIXEL_COORD,
        InputEvent::TouchStarted { time_millis } => time_millis <= MAX_EVENT_MILLIS,
        InputEvent::TouchEnded { time_millis } => time_millis <= MAX_EVENT_MILLIS,
        _ => true,
    }
}

/// What the shell must do after one event.
#[derive(Clone, Copy, Debug, PartialEq, Eq, Structural)]
pub enum EventResponse {
    /// Nothing beyond the state change already made.
    Continue,
    /// Apply this configuration to the surface.
    Configure(SurfaceConfig),
    /// Leave the event loop.
    Exit,
}

/// `r` with its selection stepped forward by one, wrapping at the end.
pub open spec fn advanced_registry(r: EffectRegistry) -> EffectRegistry {
    EffectRegistry {
        effects: r.effects,
        current: next_index(r.current as int, r.effects@.len() as int) as usize,
    }
}

/// The orchestrator's state: the globals record, the effect registry, the
/// surface configuration, and the start of the latest touch.
pub struct State {
    pub globals: Globals,
    pub registry: EffectRegistry,
    pub config: SurfaceConfig,
    pub last_touch_start_millis: u64,
}

/// `s` after a resize to `width` by `height`: applied when both are
/// positive, ignored otherwise.
pub open spec fn resized_spec(s: State, width: u32, height: u32) -> State {
    if width > 0 && height > 0 {
        State {
            globals: s.globals,
            registry: s.registry,
            config: SurfaceConfig {
                width,
                height,
                format: s.config.format,
                present_mode: s.config.present_mode,
            },
            last_touch_start_millis: s.last_touch_start_millis,
        }
    } else {
        s
    }
}

/// `s` with its registry replaced.
pub open spec fn with_registry(s: State, r: EffectRegistry) -> State {
    State {
        globals: s.globals,
        registry: r,
        config: s.config,
        last_touch_start_millis: s.last_touch_start_millis,
    }
}

/// `s` with its globals replaced.
pub open spec fn with_globals(s: State, g: Globals) -> State {
    State {
        globals: g,
        registry: s.registry,
        config: s.config,
        last_touch_start_millis: s.last_touch_start_millis,
    }
}

/// The state and response one event produces: the whole consumption of the
/// input source. A pointer or touch move rewrites the cursor fields from
/// the current surface size; a qualifying press or a tap shorter than the
/// threshold advances the effect selection; a resize updates the
/// configuration and asks the shell to apply it; close and the quit key
/// end the loop.
pub open spec fn input_spec(s: State, ev: InputEvent) -> (State, EventResponse) {
    match ev {
        InputEvent::MouseLeftPressed => (
            with_registry(s, advanced_registry(s.registry)),
            EventResponse::Continue,
        ),
        InputEvent::CursorMoved { x, y } => (
            with_globals(
                s,
                with_cursor(
                    s.globals,
                    ndc_of_pixel(x as int, s.config.width as int),
                    ndc_of_pixel(y as int, s.config.height as int),
                ),
            ),
            EventResponse::Continue,
        ),
        InputEvent::TouchMoved { x, y } => (
            with_globals(
                s,
                with_cursor(
                    s.globals,
                    ndc_of_pixel(x as int, s.config.width as int),
                    ndc_of_pixel(y as int, s.config.height as int),
                ),
            ),
            EventResponse::Continue,
        ),
        InputEvent::TouchStarted { time_millis } => (
            State {
                globals: s.globals,
                registry: s.registry,
                config: s.config,
                last_touch_start_millis: time_millis,
            },
            EventResponse::Continue,
        ),
        InputEvent::TouchEnded { time_millis } => if time_millis
            < s.last_touch_start_millis + TAP_THRESHOLD_MILLIS {
            (with_registry(s, advanced_registry(s.registry)), EventResponse::Continue)
        } else {
            (s, EventResponse::Continue)
        },
        InputEvent::Resized { width, height } => if width > 0 && height > 0 {
            (
                resized_spec(s, width, height),
                EventResponse::Configure(resized_spec(s, width, height).config),
            )
        } else {
            (s, EventResponse::Continue)
        },
        InputEvent::CloseRequested => (s, EventResponse::Exit),
        InputEvent::EscapePressed => (s, EventResponse::Exit),
    }
}

/// How a failed acquisition is recovered: surface loss reconfigures once
/// with the last-known size, a timeout only skips the frame, and memory
/// exhaustion ends the loop.
pub open spec fn dispatch_spec(s: State, e: SurfaceError) -> Directive {
    match e {
        SurfaceError::Lost => Directive::Reconfigure {
            width: s.config.width,
            height: s.config.height,
        },
        SurfaceError::Outdated => Directive::Reconfigure {
            width: s.config.width,
            height: s.config.height,
        },
        SurfaceError::OutOfMemory => Directive::Exit,
        SurfaceError::Timeout => Directive::SkipFrame,
    }
}

impl State {
    pub open spec fn wf(self) -> bool {
        &&& self.globals.wf()
        &&& self.registry.wf()
        &&& self.config.wf()
        &&& self.last_touch_start_millis <= MAX_EVENT_MILLIS
    }

    /// The plan for one frame over the acquired image `img`: upload the
    /// full globals record, create an intermediate target matching `img`
    /// (plus the sampling usage), draw the scene into it under clear
    /// semantics, run the current effect from it onto the surface image,
    /// and present that image.
    pub open spec fn frame_plan_spec(self, img: AcquiredImage) -> FramePlan {
        FramePlan {
            globals_upload: self.globals,
            intermediate: IntermediateTarget {
                width: img.width,
                height: img.height,
                format: img.format,
                sample_count: img.sample_count,
                mip_level_count: img.mip_level_count,
                usage: TextureUsage {
                    render_attachment: img.usage.render_attachment,
                    texture_binding: true,
                },
            },
            scene: ScenePass {
                target: TargetRef::Intermediate,
                load: LoadOp::Clear,
                store: StoreOp::Store,
                globals_group: 0,
            },
            post: self.registry.current_effect().pass_spec(
                TargetRef::Intermediate,
                TargetRef::Screen,
            ),
            present: TargetRef::Screen,
        }
    }

    /// Build the startup state: zeroed globals, the registry at its first
    /// effect, and the initial surface configuration.
    pub fn new(
        width: u32,
        height: u32,
        format: TextureFormat,
        present_mode: u32,
        effects: Vec<PostProcessing>,
    ) -> (r: State)
        requires
            width > 0,
            height > 0,
            effects@.len() > 0,
        ensures
            r.wf(),
            r.globals == crate::shader_globals::initial_globals(),
            r.registry.effects == effects,
            r.registry.current == 0,
            r.config == (SurfaceConfig { width, height, format, present_mode }),
            r.last_touch_start_millis == 0,
    {
        State {
            globals: Globals::new(),
            registry: EffectRegistry::new(effects),
            config: SurfaceConfig { width, height, format, present_mode },
            last_touch_start_millis: 0,
        }
    }

    /// Observe a size change. A size with a zero side is ignored; a valid
    /// one updates the configuration, and the returned value is the one
    /// configuration the shell must apply to the surface.
    pub fn resize(&mut self, width: u32, height: u32) -> (r: Option<SurfaceConfig>)
        requires
            old(self).wf(),
        ensures
            final(self).wf(),
            *final(self) == resized_spec(*old(self), width, height),
            width > 0 && height > 0 ==> r == Some(final(self).config),
            !(width > 0 && height > 0) ==> r is None,
    {
        if width > 0 && height > 0 {
            self.config.width = width;
            self.config.height = height;
            Some(self.config)
        } else {
            None
        }
    }

    /// Write the frame's elapsed time into the globals and return the full
    /// record to upload. The cursor fields carry over unchanged: the write
    /// replaces the whole record with the current state, never a stale
    /// one.
    pub fn update(&mut self, elapsed_millis: u64) -> (upload: Globals)
        requires
            old(self).wf(),
        ensures
            final(self).wf(),
            final(self).globals == with_time(old(self).globals, elapsed_millis),
            final(self).registry == old(self).registry,
            final(self).config == old(self).config,
            final(self).last_touch_start_millis == old(self).last_touch_start_millis,
            upload == final(self).globals,
    {
        self.globals.set_time(elapsed_millis);
        self.globals
    }

    /// Consume one event from the input source.
    pub fn input(&mut self, ev: InputEvent) -> (r: EventResponse)
        requires
            old(self).wf(),
            event_wf(ev),
        ensures
            final(self).wf(),
            *final(self) == input_spec(*old(self), ev).0,
            r == input_spec(*old(self), ev).1,
    {
        match ev {
            InputEvent::MouseLeftPressed => {
                self.registry.advance();
                EventResponse::Continue
            }
            InputEvent::CursorMoved { x, y } => {
                self.globals.set_cursor(x, y, self.config.width, self.config.height);
                EventResponse::Continue
            }
            InputEvent::TouchMoved { x, y } => {
                self.globals.set_cursor(x, y, self.config.width, self.config.height);
                EventResponse::Continue
            }
            InputEvent::TouchStarted { time_millis } => {
                self.last_touch_start_millis = time_millis;
                EventResponse::Continue
            }
            InputEvent::TouchEnded { time_millis } => {
                if time_millis < self.last_touch_start_millis + TAP_THRESHOLD_MILLIS {
                    self.registry.advance();
                }
                EventResponse::Continue
            }
            InputEvent::Resized { width, height } => {
                match self.resize(width, height) {
                    Some(config) => EventResponse::Configure(config),
                    None => EventResponse::Continue,
                }
            }
            InputEvent::CloseRequested => EventResponse::Exit,
            InputEvent::EscapePressed => EventResponse::Exit,
        }
    }

    /// Plan one frame from the result of acquiring the next surface image.
    /// A failed acquisition is propagated unchanged — no plan, and so no
    /// partial presentation; a successful one yields exactly the frame
    /// plan for the acquired image.
    pub fn render(&self, acquisition: Result<AcquiredImage, SurfaceError>) -> (r: Result<
        FramePlan,
        SurfaceError,
    >)
        requires
            self.wf(),
        ensures
            acquisition matches Err(e) ==> r == Err::<FramePlan, SurfaceError>(e),
            acquisition matches Ok(img) ==> r matches Ok(plan) && plan == self.frame_plan_spec(
                img,
            ),
    {
        let img = match acquisition {
            Ok(img) => img,
            Err(e) => {
                return Err(e);
            }
        };
        let post = match self.registry.current().render_pass(
            TargetRef::Intermediate,
            TargetRef::Screen,
        ) {
            Ok(pass) => pass,
            Err(e) => {
                return Err(e);
            }
        };
        Ok(
            FramePlan {
                globals_upload: self.globals,
                intermediate: IntermediateTarget {
                    width: img.width,
                    height: img.height,
                    format: img.format,
                    sample_count: img.sample_count,
                    mip_level_count: img.mip_level_count,
                    usage: TextureUsage {
                        render_attachment: img.usage.render_attachment,
                        texture_binding: true,
                    },
                },
                scene: ScenePass {
                    target: TargetRef::Intermediate,
                    load: LoadOp::Clear,
                    store: StoreOp::Store,
                    globals_group: 0,
                },
                post,
                present: TargetRef::Screen,
            },
        )
    }

    /// Classify a failed acquisition and return the one recovery step the
    /// loop takes.
    pub fn dispatch(&self, error: SurfaceError) -> (d: Directive)
        requires
            self.wf(),
        ensures
            d == dispatch_spec(*self, error),
    {
        match error {
            SurfaceError::Lost => Directive::Reconfigure {
                width: self.config.width,
                height: self.config.height,
            },
            SurfaceError::Outdated => Directive::Reconfigure {
                width: self.config.width,
                height: self.config.height,
            },
            SurfaceError::OutOfMemory => Directive::Exit,
            SurfaceError::Timeout => Directive::SkipFrame,
        }
    }
}

/// The shape of every frame: the scene pass is submitted strictly before
/// the post-processing pass; the scene pass clears and writes the
/// intermediate target; the post-processing pass is the current effect's,
/// samples exactly the target the scene pass wrote, and writes the image
/// that is presented; and the intermediate target matches the acquired
/// image in size, format, sample count and mip count, adding only the
/// sampling usage.
pub proof fn lemma_frame_plan_two_pass_shape(s: State, img: AcquiredImage)
    requires
        s.wf(),
    ensures
        ({
            let plan = s.frame_plan_spec(img);
            &&& plan.submission().len() == 2
            &&& plan.submission()[0] == Pass::Scene(plan.scene)
            &&& plan.submission()[1] == Pass::Post(plan.post)
            &&& plan.scene.target == TargetRef::Intermediate
            &&& plan.scene.load == LoadOp::Clear
            &&& plan.post == s.registry.current_effect().pass_spec(
                TargetRef::Intermediate,
                TargetRef::Screen,
            )
            &&& plan.post.texture_bind_group.texture == plan.scene.target
            &&& plan.post.dest == TargetRef::Screen
            &&& plan.present == plan.post.dest
            &&& plan.intermediate.width == img.width
            &&& plan.intermediate.height == img.height
            &&& plan.intermediate.format == img.format
            &&& plan.intermediate.sample_count == img.sample_count
            &&& plan.intermediate.mip_level_count == img.mip_level_count
            &&& plan.intermediate.usage.texture_binding
        }),
{
}

/// Reconfiguring to a valid size and then rendering produces an
/// intermediate target whose dimensions exactly equal the surface's new
/// dimensions, provided acquisition returns an image at the configured
/// size (the surface provider's contract).
pub proof fn lemma_reconfigure_sizes_intermediate(
    s: State,
    width: u32,
    height: u32,
    img: AcquiredImage,
)
    requires
        s.wf(),
        width > 0,
        height > 0,
        img.width == resized_spec(s, width, height).config.width,
        img.height == resized_spec(s, width, height).config.height,
    ensures
        resized_spec(s, width, height).frame_plan_spec(img).intermediate.width == width,
        resized_spec(s, width, height).frame_plan_spec(img).intermediate.height == height,
{
}

/// Pass-through isolation: with two effects and the first current, one
/// advancing gesture makes the second current, and the next frame's
/// post-processing pass is built from the second effect's pipeline and
/// sampler alone — when the two shaders differ, the first effect's shader
/// is not referenced.
pub proof fn lemma_advance_isolates_effects(s: State, img: AcquiredImage)
    requires
        s.wf(),
        s.registry.effects@.len() == 2,
        s.registry.current == 0,
    ensures
        ({
            let stepped = input_spec(s, InputEvent::MouseLeftPressed).0;
            let plan = stepped.frame_plan_spec(img);
            &&& stepped.registry.current == 1
            &&& plan.post == s.registry.effects@[1].pass_spec(
                TargetRef::Intermediate,
                TargetRef::Screen,
            )
            &&& plan.post.pipeline == s.registry.effects@[1].pipeline
            &&& plan.post.texture_bind_group.sampler == s.registry.effects@[1].sampler
            &&& (s.registry.effects@[0].pipeline.shader != s.registry.effects@[1].pipeline.shader
                ==> plan.post.pipeline.shader != s.registry.effects@[0].pipeline.shader)
        }),
{
}

/// A lost or outdated surface triggers exactly one reconfiguration, with
/// the last-known size — and only those two errors do. The failed
/// acquisition itself yields no frame plan (see `State::render`), so no
/// present is issued for that frame.
pub proof fn lemma_lost_surface_reconfigures(s: State, e: SurfaceError)
    requires
        s.wf(),
        e == SurfaceError::Lost || e == SurfaceError::Outdated,
    ensures
        dispatch_spec(s, e) == (Directive::Reconfigure {
            width: s.config.width,
            height: s.config.height,
        }),
        forall|e2: SurfaceError|
            dispatch_spec(s, e2) is Reconfigure <==> (e2 == SurfaceError::Lost || e2
                == SurfaceError::Outdated),
{
}

/// Memory exhaustion — and nothing else — ends the render loop: the shell
/// acts on `Exit` by attempting no further frames.
pub proof fn lemma_out_of_memory_exits(s: State)
    requires
        s.wf(),
    ensures
        dispatch_spec(s, SurfaceError::OutOfMemory) is Exit,
        forall|e: SurfaceError| dispatch_spec(s, e) is Exit <==> e == SurfaceError::OutOfMemory,
{
}

} // verus!
