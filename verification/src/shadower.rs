//! The shadow pipeline's shared resources: the array of shadow maps the
//! mappers render into, and the accumulation targets the per-light
//! accumulators add their strengths into.

use vstd::prelude::*;

use crate::config::Configurations;
use crate::gapi::Engine;
use crate::image::{AttachmentType, Format, View as ImageView};
use crate::pipeline;
use crate::pipeline::{Pipeline, PipelineType};

verus! {

/// Shadow maps, accumulation buffers, the uniform buffers feeding the two
/// shadow passes, and the pipelines and descriptor sets that render and
/// read them. Built once per swapchain.
pub struct Shadower {
    pub shadow_map_buffers: Vec<u64>,
    pub shadow_map_textures: Vec<u64>,
    pub shadow_map_render_pass: u64,
    pub shadow_map_framebuffers: Vec<u64>,
    pub shadow_map_pipeline: Pipeline,
    pub shadow_mapper_uniform_buffer: u64,
    pub shadow_map_descriptor_set: u64,
    pub shadow_accumulator_strength_buffer: u64,
    pub shadow_accumulator_flagbits_buffer: u64,
    pub shadow_accumulator_directional_pipeline: Pipeline,
    pub shadow_accumulator_directional_uniform_buffer: u64,
    pub shadow_accumulator_directional_descriptor_set: u64,
    pub shadow_accumulator_render_pass: u64,
    pub shadow_accumulator_framebuffer: u64,
    pub clear_shadow_accumulator_render_pass: u64,
    pub clear_shadow_accumulator_framebuffer: u64,
}

impl Shadower {
    /// One shadow map, texture and framebuffer per configured slot, with
    /// the pipelines the shadow passes run.
    pub open spec fn wf(&self, conf: Configurations) -> bool {
        &&& self.shadow_map_buffers@.len() == conf.max_shadow_maps_count
        &&& self.shadow_map_textures@.len() == conf.max_shadow_maps_count
        &&& self.shadow_map_framebuffers@.len() == conf.max_shadow_maps_count
    }

    /// Every GPU object the record owns sits at a fixed offset of the
    /// handle window opened at `lo` for `maps` shadow-map slots: per slot
    /// a depth image, its view and its texture, then the accumulation
    /// attachments (each an image and a view), the three render passes,
    /// the accumulation framebuffers, one framebuffer per slot, the two
    /// uniform buffers and the two descriptor sets. All handles are fresh
    /// and pairwise distinct; only the pipelines may be older objects,
    /// shared through the pipeline manager's cache.
    pub open spec fn allocated_at(&self, lo: int, maps: int) -> bool {
        &&& forall|j: int|
            0 <= j < maps ==> #[trigger] self.shadow_map_buffers@[j] == lo + 3 * j + 1
        &&& forall|j: int|
            0 <= j < maps ==> #[trigger] self.shadow_map_textures@[j] == lo + 3 * j + 2
        &&& self.shadow_accumulator_strength_buffer == lo + 3 * maps + 1
        &&& self.shadow_accumulator_flagbits_buffer == lo + 3 * maps + 3
        &&& self.clear_shadow_accumulator_render_pass == lo + 3 * maps + 4
        &&& self.shadow_accumulator_render_pass == lo + 3 * maps + 5
        &&& self.shadow_map_render_pass == lo + 3 * maps + 6
        &&& self.clear_shadow_accumulator_framebuffer == lo + 3 * maps + 7
        &&& self.shadow_accumulator_framebuffer == lo + 3 * maps + 8
        &&& forall|j: int|
            0 <= j < maps ==> #[trigger] self.shadow_map_framebuffers@[j] == lo + 3 * maps + 9 + j
        &&& self.shadow_mapper_uniform_buffer == lo + 4 * maps + 9
        &&& self.shadow_accumulator_directional_uniform_buffer == lo + 4 * maps + 10
        &&& self.shadow_map_descriptor_set == lo + 4 * maps + 11
        &&& self.shadow_accumulator_directional_descriptor_set == lo + 4 * maps + 12
    }

    /// Builds every shadow resource from the configuration: one
    /// square depth attachment, texture and framebuffer per shadow-map
    /// slot, the two accumulation surface attachments with their clearing
    /// and accumulating passes, the two uniform buffers (the mapper's
    /// matrix; the accumulator's cascade matrices, direction, strength and
    /// counters), their descriptor sets, and the two pipelines.
    pub fn new(eng: &mut Engine, pipmgr: &mut pipeline::Manager, conf: &Configurations) -> (r:
        Self)
        requires
            old(pipmgr).wf(),
            old(eng).wf(),
            conf.max_shadow_maps_count <= 100000,
            conf.cascaded_shadows_count <= 1024,
            old(eng).spec_next_handle() + 0x400000000 <= u64::MAX,
        ensures
            r.wf(*conf),
            final(pipmgr).wf(),
            final(pipmgr).spec_config() == old(pipmgr).spec_config(),
            r.allocated_at(
                old(eng).spec_next_handle() as int,
                conf.max_shadow_maps_count as int,
            ),
            r.shadow_map_pipeline.decided_for(
                PipelineType::ShadowMapper,
                old(pipmgr).spec_config(),
            ),
            r.shadow_accumulator_directional_pipeline.decided_for(
                PipelineType::ShadowAccumulatorDirectional,
                old(pipmgr).spec_config(),
            ),
            Engine::static_state_eq(*old(eng), *final(eng)),
            final(eng).spec_current_frame() == old(eng).spec_current_frame(),
            final(eng).spec_actions() == old(eng).spec_actions(),
            old(eng).spec_next_handle() + 4 * (conf.max_shadow_maps_count as int) + 13
                <= final(eng).spec_next_handle(),
            final(eng).spec_next_handle() <= old(eng).spec_next_handle() + 4 * (
            conf.max_shadow_maps_count as int) + 21,
    {
        let ghost lo = eng.spec_next_handle() as int;
        let maps_count = conf.get_max_shadow_maps_count() as usize;
        let aspect = conf.get_shadow_map_aspect();
        let mut shadow_map_buffers: Vec<u64> = Vec::new();
        let mut shadow_map_textures: Vec<u64> = Vec::new();
        let mut i: usize = 0;
        while i < maps_count
            invariant
                i <= maps_count,
                maps_count <= 100000,
                shadow_map_buffers@.len() == i,
                shadow_map_textures@.len() == i,
                eng.spec_next_handle() == lo + 3 * i,
                lo + 0x400000000 <= u64::MAX,
                forall|j: int|
                    0 <= j < i ==> #[trigger] shadow_map_buffers@[j] == lo + 3 * j + 1,
                forall|j: int|
                    0 <= j < i ==> #[trigger] shadow_map_textures@[j] == lo + 3 * j + 2,
                Engine::static_state_eq(*old(eng), *eng),
                eng.spec_current_frame() == old(eng).spec_current_frame(),
                eng.spec_actions() == old(eng).spec_actions(),
            decreases maps_count - i,
        {
            let buf = ImageView::new_attachment(
                eng,
                Format::DepthFloat,
                AttachmentType::DepthShadowBuffer,
                aspect,
                aspect,
            );
            let texture = eng.create_texture_2d_with_view_sampler(buf.vk_data);
            shadow_map_buffers.push(buf.vk_data);
            shadow_map_textures.push(texture);
            i = i + 1;
        }
        let strength = ImageView::new_surface_attachment(
            eng,
            Format::Float,
            AttachmentType::ColorDisplay,
        );
        let flagbits = ImageView::new_surface_attachment(
            eng,
            Format::FlagBits64,
            AttachmentType::ColorDisplay,
        );
        let clear_shadow_accumulator_render_pass = eng.create_render_pass();
        let shadow_accumulator_render_pass = eng.create_render_pass();
        let shadow_map_render_pass = eng.create_render_pass();
        let clear_shadow_accumulator_framebuffer = eng.create_framebuffer();
        let shadow_accumulator_framebuffer = eng.create_framebuffer();
        let mut shadow_map_framebuffers: Vec<u64> = Vec::new();
        let mut j: usize = 0;
        let ghost mid = eng.spec_next_handle() as int;
        while j < maps_count
            invariant
                j <= maps_count,
                maps_count <= 100000,
                shadow_map_framebuffers@.len() == j,
                eng.spec_next_handle() == mid + j,
                mid == lo + 3 * maps_count + 9,
                lo + 0x400000000 <= u64::MAX,
                forall|k: int|
                    0 <= k < j ==> #[trigger] shadow_map_framebuffers@[k] == mid + k,
                Engine::static_state_eq(*old(eng), *eng),
                eng.spec_current_frame() == old(eng).spec_current_frame(),
                eng.spec_actions() == old(eng).spec_actions(),
            decreases maps_count - j,
        {
            shadow_map_framebuffers.push(eng.create_framebuffer());
            j = j + 1;
        }
        let shadow_mapper_uniform_buffer = eng.create_dynamic_buffer(64);
        let accumulator_uniform_size = (conf.get_cascaded_shadows_count() as usize) * 64 + 32;
        let shadow_accumulator_directional_uniform_buffer = eng.create_dynamic_buffer(
            accumulator_uniform_size,
        );
        let shadow_map_descriptor_set = eng.create_descriptor_set();
        let shadow_accumulator_directional_descriptor_set = eng.create_descriptor_set();
        let shadow_map_pipeline = pipmgr.create(
            eng,
            shadow_map_render_pass,
            PipelineType::ShadowMapper,
        );
        let shadow_accumulator_directional_pipeline = pipmgr.create(
            eng,
            shadow_accumulator_render_pass,
            PipelineType::ShadowAccumulatorDirectional,
        );
        Shadower {
            shadow_map_buffers,
            shadow_map_textures,
            shadow_map_render_pass,
            shadow_map_framebuffers,
            shadow_map_pipeline,
            shadow_mapper_uniform_buffer,
            shadow_map_descriptor_set,
            shadow_accumulator_strength_buffer: strength.vk_data,
            shadow_accumulator_flagbits_buffer: flagbits.vk_data,
            shadow_accumulator_directional_pipeline,
            shadow_accumulator_directional_uniform_buffer,
            shadow_accumulator_directional_descriptor_set,
            shadow_accumulator_render_pass,
            shadow_accumulator_framebuffer,
            clear_shadow_accumulator_render_pass,
            clear_shadow_accumulator_framebuffer,
        }
    }

    /// The descriptor set every shadow-mapping pass binds.
    pub fn get_shadow_map_descriptor_set(&self) -> (r: u64)
        ensures
            r == self.shadow_map_descriptor_set,
    {
        self.shadow_map_descriptor_set
    }

    /// What a worker's secondary buffer binds to record into one shadow
    /// map: that map's framebuffer and the mapper pipeline.
    pub fn begin_secondary_shadow_mappers(&self, map_index: usize) -> (r: (u64, u64))
        requires
            map_index < self.shadow_map_framebuffers@.len(),
        ensures
            r.0 == self.shadow_map_framebuffers@[map_index as int],
            r.1 == self.shadow_map_pipeline.vk_data,
    {
        (self.shadow_map_framebuffers[map_index], self.shadow_map_pipeline.get_info_for_binding())
    }

    /// The framebuffer the primary buffer begins for one shadow map's
    /// render pass.
    pub fn begin_shadow_map_primary(&self, map_index: usize) -> (r: u64)
        requires
            map_index < self.shadow_map_framebuffers@.len(),
        ensures
            r == self.shadow_map_framebuffers@[map_index as int],
    {
        self.shadow_map_framebuffers[map_index]
    }
}

} // verus!
