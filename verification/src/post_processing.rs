//! A post-processing effect: the full-screen pass that samples the scene's
//! offscreen color target and writes the transformed image to the
//! presentable surface.
//!
//! An effect is an immutable bundle of descriptor values — the pipeline and
//! the sampler it was constructed with — and `render_pass` turns it into the
//! plan for one pass. The shell builds the GPU pipeline, sampler and bind
//! groups from exactly these values, so the contracts here pin down every
//! field the shell reads.

use vstd::prelude::*;

use crate::surface::{SurfaceError, TextureFormat};

verus! {

/// How a sampler treats coordinates outside the texture on one axis.
#[derive(Clone, Copy, Debug, PartialEq, Eq, Structural)]
pub enum AddressMode {
    ClampToEdge,
    Repeat,
    MirrorRepeat,
}

/// How a sampler blends texels.
#[derive(Clone, Copy, Debug, PartialEq, Eq, Structural)]
pub enum FilterMode {
    Nearest,
    Linear,
}

/// What a render pass does with the target's prior contents.
#[derive(Clone, Copy, Debug, PartialEq, Eq, Structural)]
pub enum LoadOp {
    Clear,
    Load,
}

/// What a render pass does with its output.
#[derive(Clone, Copy, Debug, PartialEq, Eq, Structural)]
pub enum StoreOp {
    Store,
    Discard,
}

/// How a pipeline assembles vertices into primitives.
#[derive(Clone, Copy, Debug, PartialEq, Eq, Structural)]
pub enum PrimitiveTopology {
    PointList,
    LineList,
    TriangleList,
    TriangleStrip,
}

/// The two color targets a frame touches.
#[derive(Clone, Copy, Debug, PartialEq, Eq, Structural)]
pub enum TargetRef {
    /// The offscreen color target the scene pass writes and the
    /// post-processing pass samples.
    Intermediate,
    /// The acquired presentable surface image.
    Screen,
}

/// The sampler an effect samples the intermediate target with.
#[derive(Clone, Copy, Debug, PartialEq, Eq, Structural)]
pub struct SamplerDesc {
    pub address_mode_u: AddressMode,
    pub address_mode_v: AddressMode,
    pub address_mode_w: AddressMode,
    pub mag_filter: FilterMode,
    pub min_filter: FilterMode,
    pub mipmap_filter: FilterMode,
}

/// The render pipeline an effect draws with. The shader is an opaque handle
/// to the externally supplied shader program of this effect; it exposes a
/// vertex stage that synthesizes a full-screen primitive from the vertex
/// index alone, and a fragment stage reading the globals uniform and the
/// texture-and-sampler pair.
#[derive(Clone, Copy, Debug, PartialEq, Eq, Structural)]
pub struct PipelineDesc {
    pub shader: u64,
    pub target_format: TextureFormat,
    pub topology: PrimitiveTopology,
    pub front_face_ccw: bool,
    pub cull_back_faces: bool,
    pub alpha_blending: bool,
}

/// The texture-and-sampler bind group of one post-processing pass. It is
/// rebuilt for every pass, because the intermediate target it refers to may
/// be recreated between frames; rebuilding makes stale bindings impossible.
#[derive(Clone, Copy, Debug, PartialEq, Eq, Structural)]
pub struct TextureBindGroup {
    pub texture: TargetRef,
    pub sampler: SamplerDesc,
}

/// The plan for one post-processing pass, ready for the shell to encode.
#[derive(Clone, Copy, Debug, PartialEq, Eq, Structural)]
pub struct PostPass {
    pub pipeline: PipelineDesc,
    /// Where the pass writes.
    pub dest: TargetRef,
    /// `Load`, not `Clear`: the pass draws a full-screen primitive and so
    /// overwrites every covered pixel itself.
    pub load: LoadOp,
    pub store: StoreOp,
    /// Bind group set 0: the shared globals uniform.
    pub globals_group: u32,
    /// Bind group set 1: the texture-and-sampler pair, freshly built for
    /// this pass.
    pub texture_group: u32,
    pub texture_bind_group: TextureBindGroup,
    /// Six vertices: two triangles covering the whole target, synthesized
    /// in the vertex stage without any vertex buffer.
    pub vertex_count: u32,
    pub instance_count: u32,
}

/// The sampler every effect uses: linear magnification (the only direction
/// the 1:1 copy is ever scaled), nearest minification and mip filtering,
/// and clamp-to-edge addressing to avoid artifacts at the UV boundaries.
pub open spec fn effect_sampler() -> SamplerDesc {
    SamplerDesc {
        address_mode_u: AddressMode::ClampToEdge,
        address_mode_v: AddressMode::ClampToEdge,
        address_mode_w: AddressMode::ClampToEdge,
        mag_filter: FilterMode::Linear,
        min_filter: FilterMode::Nearest,
        mipmap_filter: FilterMode::Nearest,
    }
}

/// The pipeline of an effect built from `shader` for a surface of
/// `format`: a triangle list with back faces culled, alpha blending into
/// the surface's own format.
pub open spec fn effect_pipeline(shader: u64, format: TextureFormat) -> PipelineDesc {
    PipelineDesc {
        shader,
        target_format: format,
        topology: PrimitiveTopology::TriangleList,
        front_face_ccw: true,
        cull_back_faces: true,
        alpha_blending: true,
    }
}

/// One post-processing effect: its pipeline and its sampler, fixed at
/// construction. Effects sharing this pipeline shape but holding different
/// shaders are interchangeable at pass-selection time.
#[derive(Clone, Copy, Debug, PartialEq, Eq, Structural)]
pub struct PostProcessing {
    pub pipeline: PipelineDesc,
    pub sampler: SamplerDesc,
}

impl PostProcessing {
    /// Build an effect around the externally supplied shader program
    /// `shader`, targeting surfaces of `format`.
    pub fn new(shader: u64, format: TextureFormat) -> (r: PostProcessing)
        ensures
            r.pipeline == effect_pipeline(shader, format),
            r.sampler == effect_sampler(),
    {
        PostProcessing {
            pipeline: PipelineDesc {
                shader,
                target_format: format,
                topology: PrimitiveTopology::TriangleList,
                front_face_ccw: true,
                cull_back_faces: true,
                alpha_blending: true,
            },
            sampler: SamplerDesc {
                address_mode_u: AddressMode::ClampToEdge,
                address_mode_v: AddressMode::ClampToEdge,
                address_mode_w: AddressMode::ClampToEdge,
                mag_filter: FilterMode::Linear,
                min_filter: FilterMode::Nearest,
                mipmap_filter: FilterMode::Nearest,
            },
        }
    }

    /// The pass this effect runs from `source` into `dest`: this effect's
    /// pipeline, a fresh texture bind group over `source`, a load op that
    /// preserves the destination, and one full-screen draw of six vertices.
    pub open spec fn pass_spec(self, source: TargetRef, dest: TargetRef) -> PostPass {
        PostPass {
            pipeline: self.pipeline,
            dest,
            load: LoadOp::Load,
            store: StoreOp::Store,
            globals_group: 0,
            texture_group: 1,
            texture_bind_group: TextureBindGroup { texture: source, sampler: self.sampler },
            vertex_count: 6,
            instance_count: 1,
        }
    }

    /// The texture-and-sampler bind group for one pass over `source`,
    /// rebuilt on every call rather than cached.
    pub fn create_texture_bind_group(&self, source: TargetRef) -> (r: TextureBindGroup)
        ensures
            r == (TextureBindGroup { texture: source, sampler: self.sampler }),
    {
        TextureBindGroup { texture: source, sampler: self.sampler }
    }

    /// Plan this effect's pass from `source` into `dest`. Planning itself
    /// cannot fail; the `Result` mirrors the orchestrator's propagation of
    /// render errors injected by child components.
    pub fn render_pass(&self, source: TargetRef, dest: TargetRef) -> (r: Result<
        PostPass,
        SurfaceError,
    >)
        ensures
            r matches Ok(pass) && pass == self.pass_spec(source, dest),
    {
        let bind_group = self.create_texture_bind_group(source);
        Ok(
            PostPass {
                pipeline: self.pipeline,
                dest,
                load: LoadOp::Load,
                store: StoreOp::Store,
                globals_group: 0,
                texture_group: 1,
                texture_bind_group: bind_group,
                vertex_count: 6,
                instance_count: 1,
            },
        )
    }

    /// The full globals record to upload to this effect's uniform buffer:
    /// always the whole record, never a partial update.
    pub fn update(&self, globals: &crate::shader_globals::Globals) -> (r:
        crate::shader_globals::Globals)
        ensures
            r == *globals,
    {
        *globals
    }
}

} // verus!
