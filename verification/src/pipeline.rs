//! Pipelines: for each pass kind, the descriptor-set layout sequence, the
//! fixed-function state and the specialization the pipeline is built with.
//!
//! Compiling the pipeline is the backend's work; what is verified here is
//! every decision that feeds it: which descriptor-set layouts stand in the
//! pipeline layout, how color blending is set up, whether the vertex input
//! is bound, and which specialization constant a pass kind carries.

use vstd::prelude::*;

use crate::config::Configurations;
use crate::gapi::Engine;

verus! {

/// The pass kinds pipelines are compiled for.
#[derive(Clone, Copy, PartialEq, Eq, Structural, Debug)]
pub enum PipelineType {
    /// Deferred physically-based composition.
    DeferredPbr,
    /// Fills the g-buffer consumed by the deferred composer.
    GBufferFiller,
    /// Forward rendering of a single light with its shadow map.
    ForwardSingleLightShadowPbr,
    /// Forward rendering over an array of lights.
    ForwardPbr,
    /// Forward rendering under an environment and ambient light.
    ForwardEnvironmentalPbr,
    ShadowAccumulatorDirectional,
    ShadowAccumulatorPoint,
    ShadowAccumulatorCone,
    ShadowMapper,
    Ssao,
    Ssr,
    Unlit,
}

/// The pass kinds the engine can build a pipeline for today.
pub open spec fn supported_pipeline_type(t: PipelineType) -> bool {
    match t {
        PipelineType::GBufferFiller => true,
        PipelineType::DeferredPbr => true,
        PipelineType::ShadowMapper => true,
        PipelineType::ShadowAccumulatorDirectional => true,
        PipelineType::Ssao => true,
        _ => false,
    }
}

/// Descriptor-set layout shapes the descriptor manager hands out.
#[derive(Clone, Copy, PartialEq, Eq, Structural, Debug)]
pub enum DescriptorKind {
    /// One uniform buffer, nothing else.
    BufferOnly,
    /// Uniform buffer plus the material textures of a g-buffer pass.
    Gbuff,
    /// Uniform buffer plus the g-buffer and shadow inputs of the composer.
    Deferred,
    /// Uniform buffer plus the inputs of the ambient-occlusion pass.
    Ssao,
    /// Uniform buffer plus position, normal and the shadow-map array.
    ShadowAccumulatorDirectional,
}

pub const COLOR_WRITE_R: u32 = 0x1;

pub const COLOR_WRITE_RGBA: u32 = 0xf;

/// How a pass blends into its color attachments.
#[derive(Clone, Copy, PartialEq, Eq, Structural, Debug)]
pub enum BlendSetup {
    /// Blending off: the pass overwrites.
    Disabled,
    /// Source-alpha over one-minus-source-alpha: the composer's blend.
    AlphaBlend,
    /// One plus one: shadow strengths accumulate.
    AdditiveOne,
}

/// A pipeline layout: the descriptor-set layouts bound, in set order.
#[derive(PartialEq, Eq, Debug)]
pub struct Layout {
    pub sets: Vec<DescriptorKind>,
    pub vk_data: u64,
}

impl Layout {
    /// Scene uniform, model uniform, then the g-buffer material set.
    pub fn new_gbuff(eng: &mut Engine) -> (r: Self)
        requires
            old(eng).spec_next_handle() < u64::MAX,
        ensures
            Engine::allocated_one(*old(eng), *final(eng), r.vk_data),
            r.sets@ =~= seq![
                DescriptorKind::BufferOnly,
                DescriptorKind::BufferOnly,
                DescriptorKind::Gbuff,
            ],
    {
        let mut sets: Vec<DescriptorKind> = Vec::new();
        sets.push(DescriptorKind::BufferOnly);
        sets.push(DescriptorKind::BufferOnly);
        sets.push(DescriptorKind::Gbuff);
        let vk_data = eng.create_pipeline_layout();
        Layout { sets, vk_data }
    }

    /// Scene uniform, then the material set of the depth-only pass.
    pub fn new_shadow_mapper(eng: &mut Engine) -> (r: Self)
        requires
            old(eng).spec_next_handle() < u64::MAX,
        ensures
            Engine::allocated_one(*old(eng), *final(eng), r.vk_data),
            r.sets@ =~= seq![DescriptorKind::BufferOnly, DescriptorKind::Gbuff],
    {
        let mut sets: Vec<DescriptorKind> = Vec::new();
        sets.push(DescriptorKind::BufferOnly);
        sets.push(DescriptorKind::Gbuff);
        let vk_data = eng.create_pipeline_layout();
        Layout { sets, vk_data }
    }

    /// The accumulator's single combined set.
    pub fn new_shadow_accumulator_directional(eng: &mut Engine) -> (r: Self)
        requires
            old(eng).spec_next_handle() < u64::MAX,
        ensures
            Engine::allocated_one(*old(eng), *final(eng), r.vk_data),
            r.sets@ =~= seq![DescriptorKind::ShadowAccumulatorDirectional],
    {
        let mut sets: Vec<DescriptorKind> = Vec::new();
        sets.push(DescriptorKind::ShadowAccumulatorDirectional);
        let vk_data = eng.create_pipeline_layout();
        Layout { sets, vk_data }
    }

    /// Scene uniform, then the composer's input set.
    pub fn new_deferred(eng: &mut Engine) -> (r: Self)
        requires
            old(eng).spec_next_handle() < u64::MAX,
        ensures
            Engine::allocated_one(*old(eng), *final(eng), r.vk_data),
            r.sets@ =~= seq![DescriptorKind::BufferOnly, DescriptorKind::Deferred],
    {
        let mut sets: Vec<DescriptorKind> = Vec::new();
        sets.push(DescriptorKind::BufferOnly);
        sets.push(DescriptorKind::Deferred);
        let vk_data = eng.create_pipeline_layout();
        Layout { sets, vk_data }
    }

    /// Scene uniform, then the ambient-occlusion input set.
    pub fn new_ssao(eng: &mut Engine) -> (r: Self)
        requires
            old(eng).spec_next_handle() < u64::MAX,
        ensures
            Engine::allocated_one(*old(eng), *final(eng), r.vk_data),
            r.sets@ =~= seq![DescriptorKind::BufferOnly, DescriptorKind::Ssao],
    {
        let mut sets: Vec<DescriptorKind> = Vec::new();
        sets.push(DescriptorKind::BufferOnly);
        sets.push(DescriptorKind::Ssao);
        let vk_data = eng.create_pipeline_layout();
        Layout { sets, vk_data }
    }

    /// The layout a pass kind is built with.
    pub fn new(eng: &mut Engine, pipeline_type: PipelineType) -> (r: Self)
        requires
            old(eng).spec_next_handle() < u64::MAX,
            supported_pipeline_type(pipeline_type),
        ensures
            Engine::allocated_one(*old(eng), *final(eng), r.vk_data),
            r.sets@ =~= spec_layout_sets_for(pipeline_type),
    {
        match pipeline_type {
            PipelineType::GBufferFiller => Layout::new_gbuff(eng),
            PipelineType::DeferredPbr => Layout::new_deferred(eng),
            PipelineType::ShadowMapper => Layout::new_shadow_mapper(eng),
            PipelineType::ShadowAccumulatorDirectional => Layout::new_shadow_accumulator_directional(
                eng,
            ),
            _ => Layout::new_ssao(eng),
        }
    }
}

/// The descriptor-set layout sequence of each supported pass kind.
pub open spec fn spec_layout_sets_for(t: PipelineType) -> Seq<DescriptorKind> {
    match t {
        PipelineType::GBufferFiller => seq![
            DescriptorKind::BufferOnly,
            DescriptorKind::BufferOnly,
            DescriptorKind::Gbuff,
        ],
        PipelineType::DeferredPbr => seq![DescriptorKind::BufferOnly, DescriptorKind::Deferred],
        PipelineType::ShadowMapper => seq![DescriptorKind::BufferOnly, DescriptorKind::Gbuff],
        PipelineType::ShadowAccumulatorDirectional => seq![
            DescriptorKind::ShadowAccumulatorDirectional,
        ],
        _ => seq![DescriptorKind::BufferOnly, DescriptorKind::Ssao],
    }
}

/// How a pass kind blends.
pub open spec fn spec_blend_for(t: PipelineType) -> BlendSetup {
    match t {
        PipelineType::DeferredPbr => BlendSetup::AlphaBlend,
        PipelineType::ShadowAccumulatorDirectional => BlendSetup::AdditiveOne,
        _ => BlendSetup::Disabled,
    }
}

/// Which color channels a pass kind writes.
pub open spec fn spec_color_write_for(t: PipelineType) -> u32 {
    match t {
        PipelineType::Ssao => COLOR_WRITE_R,
        _ => COLOR_WRITE_RGBA,
    }
}

/// Whether a pass kind consumes the engine's vertex stream (position,
/// normal, tangent-with-handedness, texture coordinates; 48 bytes).
pub open spec fn spec_vertex_input_for(t: PipelineType) -> bool {
    t is GBufferFiller || t is ShadowMapper
}

/// The pipeline object cache.
#[derive(Clone, Copy, PartialEq, Eq, Structural, Debug)]
pub struct Cache {
    pub vk_data: u64,
}

impl Cache {
    pub fn new(eng: &mut Engine) -> (r: Self)
        requires
            old(eng).spec_next_handle() < u64::MAX,
        ensures
            Engine::allocated_one(*old(eng), *final(eng), r.vk_data),
    {
        let vk_data = eng.create_pipeline_cache();
        Cache { vk_data }
    }
}

/// A compiled pipeline and everything it was decided from.
#[derive(PartialEq, Eq, Debug)]
pub struct Pipeline {
    pub pipeline_type: PipelineType,
    pub layout: Layout,
    pub render_pass: u64,
    pub cache: u64,
    pub vertex_shader: u64,
    pub fragment_shader: u64,
    pub blend: BlendSetup,
    pub color_write_mask: u32,
    pub vertex_input: bool,
    pub specialization_cascades: Option<u32>,
    pub depth_test: bool,
    pub depth_write: bool,
    pub vk_data: u64,
}

impl Pipeline {
    /// Whether the fixed-function and layout state matches what the pass
    /// kind demands.
    pub open spec fn decided_for(&self, t: PipelineType, conf: Configurations) -> bool {
        &&& self.pipeline_type == t
        &&& self.layout.sets@ == spec_layout_sets_for(t)
        &&& self.blend == spec_blend_for(t)
        &&& self.color_write_mask == spec_color_write_for(t)
        &&& self.vertex_input == spec_vertex_input_for(t)
        &&& self.specialization_cascades == if t is ShadowAccumulatorDirectional {
            Some(conf.cascaded_shadows_count)
        } else {
            Option::<u32>::None
        }
        &&& self.depth_test
        &&& self.depth_write
    }

    /// Builds the pipeline for one pass kind: the two shader stages, the
    /// pipeline layout, blending, vertex input and specialization are all
    /// decided from the kind; the cascade count specializes the
    /// directional shadow accumulator's fragment shader.
    pub fn new(
        eng: &mut Engine,
        render_pass: u64,
        cache: Cache,
        pipeline_type: PipelineType,
        config: &Configurations,
    ) -> (r: Self)
        requires
            old(eng).spec_next_handle() + 4 <= u64::MAX,
            supported_pipeline_type(pipeline_type),
        ensures
            r.decided_for(pipeline_type, *config),
            r.render_pass == render_pass,
            r.cache == cache.vk_data,
            Engine::static_state_eq(*old(eng), *final(eng)),
            final(eng).spec_current_frame() == old(eng).spec_current_frame(),
            final(eng).spec_actions() == old(eng).spec_actions(),
            old(eng).spec_next_handle() <= r.vertex_shader < final(eng).spec_next_handle(),
            old(eng).spec_next_handle() <= r.fragment_shader < final(eng).spec_next_handle(),
            old(eng).spec_next_handle() <= r.vk_data < final(eng).spec_next_handle(),
            final(eng).spec_next_handle() == old(eng).spec_next_handle() + 4,
    {
        let vertex_shader = eng.create_shader_module();
        let fragment_shader = eng.create_shader_module();
        let layout = Layout::new(eng, pipeline_type);
        let blend = match pipeline_type {
            PipelineType::DeferredPbr => BlendSetup::AlphaBlend,
            PipelineType::ShadowAccumulatorDirectional => BlendSetup::AdditiveOne,
            _ => BlendSetup::Disabled,
        };
        let color_write_mask = match pipeline_type {
            PipelineType::Ssao => COLOR_WRITE_R,
            _ => COLOR_WRITE_RGBA,
        };
        let vertex_input = match pipeline_type {
            PipelineType::GBufferFiller => true,
            PipelineType::ShadowMapper => true,
            _ => false,
        };
        let specialization_cascades = match pipeline_type {
            PipelineType::ShadowAccumulatorDirectional => Some(config.get_cascaded_shadows_count()),
            _ => None,
        };
        let vk_data = eng.create_pipeline();
        Pipeline {
            pipeline_type,
            layout,
            render_pass,
            cache: cache.vk_data,
            vertex_shader,
            fragment_shader,
            blend,
            color_write_mask,
            vertex_input,
            specialization_cascades,
            depth_test: true,
            depth_write: true,
            vk_data,
        }
    }

    /// The bind point and object the command buffer binds: always the
    /// graphics bind point for these pass kinds.
    pub fn get_info_for_binding(&self) -> (r: u64)
        ensures
            r == self.vk_data,
    {
        self.vk_data
    }

    pub fn get_layout(&self) -> (r: &Layout)
        ensures
            r == self.layout,
    {
        &self.layout
    }
}

/// The two pipeline descriptions agree in every part.
pub open spec fn pipeline_eq(a: Pipeline, b: Pipeline) -> bool {
    &&& a.pipeline_type == b.pipeline_type
    &&& a.layout.sets@ == b.layout.sets@
    &&& a.layout.vk_data == b.layout.vk_data
    &&& a.render_pass == b.render_pass
    &&& a.cache == b.cache
    &&& a.vertex_shader == b.vertex_shader
    &&& a.fragment_shader == b.fragment_shader
    &&& a.blend == b.blend
    &&& a.color_write_mask == b.color_write_mask
    &&& a.vertex_input == b.vertex_input
    &&& a.specialization_cascades == b.specialization_cascades
    &&& a.depth_test == b.depth_test
    &&& a.depth_write == b.depth_write
    &&& a.vk_data == b.vk_data
}

/// An exact copy of a pipeline description.
pub fn clone_pipeline(p: &Pipeline) -> (r: Pipeline)
    ensures
        pipeline_eq(r, *p),
{
    let mut sets: Vec<DescriptorKind> = Vec::new();
    let n = p.layout.sets.len();
    let mut i: usize = 0;
    while i < n
        invariant
            i <= n,
            n == p.layout.sets@.len(),
            sets@ =~= p.layout.sets@.subrange(0, i as int),
        decreases n - i,
    {
        sets.push(p.layout.sets[i]);
        i = i + 1;
    }
    proof {
        assert(sets@ =~= p.layout.sets@);
    }
    Pipeline {
        pipeline_type: p.pipeline_type,
        layout: Layout { sets, vk_data: p.layout.vk_data },
        render_pass: p.render_pass,
        cache: p.cache,
        vertex_shader: p.vertex_shader,
        fragment_shader: p.fragment_shader,
        blend: p.blend,
        color_write_mask: p.color_write_mask,
        vertex_input: p.vertex_input,
        specialization_cascades: p.specialization_cascades,
        depth_test: p.depth_test,
        depth_write: p.depth_write,
        vk_data: p.vk_data,
    }
}

/// Builds pipelines and caches them by render pass and pass kind: asking
/// twice for the same pair returns the pipeline already built.
pub struct Manager {
    cache: Cache,
    config: Configurations,
    pipelines: Vec<Pipeline>,
}

impl Manager {
    pub closed spec fn spec_cache(&self) -> Cache {
        self.cache
    }

    pub closed spec fn spec_config(&self) -> Configurations {
        self.config
    }

    pub closed spec fn spec_pipelines(&self) -> Seq<Pipeline> {
        self.pipelines@
    }

    /// Every remembered pipeline was decided for its own pass kind under
    /// the manager's configuration.
    pub open spec fn wf(&self) -> bool {
        forall|i: int|
            0 <= i < self.spec_pipelines().len() ==> #[trigger] self.spec_pipelines()[i].decided_for(
                self.spec_pipelines()[i].pipeline_type,
                self.spec_config(),
            )
    }

    pub fn new(eng: &mut Engine, config: Configurations) -> (r: Self)
        requires
            old(eng).spec_next_handle() < u64::MAX,
        ensures
            Engine::allocated_one(*old(eng), *final(eng), r.spec_cache().vk_data),
            r.spec_pipelines().len() == 0,
            r.spec_config() == config,
            r.wf(),
    {
        let cache = Cache::new(eng);
        Manager { cache, config, pipelines: Vec::new() }
    }

    /// The pipeline for this render pass and pass kind: the one already
    /// built if the pair was asked for before, a freshly built one
    /// otherwise, which is then also remembered.
    pub fn create(&mut self, eng: &mut Engine, render_pass: u64, pipeline_type: PipelineType) -> (r:
        Pipeline)
        requires
            old(self).wf(),
            old(eng).spec_next_handle() + 4 <= u64::MAX,
            supported_pipeline_type(pipeline_type),
        ensures
            final(self).wf(),
            r.decided_for(pipeline_type, old(self).spec_config()),
            r.render_pass == render_pass,
            final(self).spec_cache() == old(self).spec_cache(),
            final(self).spec_config() == old(self).spec_config(),
            Engine::static_state_eq(*old(eng), *final(eng)),
            final(eng).spec_current_frame() == old(eng).spec_current_frame(),
            final(eng).spec_actions() == old(eng).spec_actions(),
            old(eng).spec_next_handle() <= final(eng).spec_next_handle(),
            final(eng).spec_next_handle() <= old(eng).spec_next_handle() + 4,
    {
        let n = self.pipelines.len();
        let mut i: usize = 0;
        while i < n
            invariant
                self.wf(),
                i <= n,
                n == self.spec_pipelines().len(),
            decreases n - i,
        {
            if self.pipelines[i].render_pass == render_pass && self.pipelines[i].pipeline_type
                == pipeline_type {
                proof {
                    assert(self.spec_pipelines()[i as int].decided_for(
                        self.spec_pipelines()[i as int].pipeline_type,
                        self.spec_config(),
                    ));
                }
                return clone_pipeline(&self.pipelines[i]);
            }
            i = i + 1;
        }
        let p = Pipeline::new(eng, render_pass, self.cache, pipeline_type, &self.config);
        let r = clone_pipeline(&p);
        self.pipelines.push(p);
        proof {
            assert forall|k: int|
                0 <= k < self.spec_pipelines().len() implies #[trigger] self.spec_pipelines()[k].decided_for(
                self.spec_pipelines()[k].pipeline_type,
                self.spec_config(),
            ) by {
                if k < self.spec_pipelines().len() - 1 {
                    assert(old(self).spec_pipelines()[k].decided_for(
                        old(self).spec_pipelines()[k].pipeline_type,
                        old(self).spec_config(),
                    ));
                }
            }
        }
        r
    }
}

} // verus!
