//! Pipeline decisions, image layout transitions, the shadow resources and
//! the built-in node templates.

use vulkust::config::Configurations;
use vulkust::deferred_pbr;
use vulkust::g_buffer_filler;
use vulkust::gapi::Engine;
use vulkust::graph::Graph;
use vulkust::image::{Image, ImageLayout, ACCESS_HOST_WRITE, ACCESS_SHADER_READ,
    ACCESS_TRANSFER_WRITE, STAGE_FRAGMENT_SHADER, STAGE_TRANSFER};
use vulkust::manager::Manager as NodeManager;
use vulkust::node;
use vulkust::pipeline::{BlendSetup, DescriptorKind, Layout, Manager as PipelineManager,
    PipelineType, COLOR_WRITE_R, COLOR_WRITE_RGBA};
use vulkust::shadow_accumulator;
use vulkust::shadow_mapper;
use vulkust::shadower::Shadower;
use vulkust::ssao;
use vulkust::storage::Storage;

#[test]
fn pipeline_layouts_choose_the_documented_sets() {
    let mut eng = Engine::new(1);
    let l = Layout::new_gbuff(&mut eng);
    assert_eq!(
        l.sets,
        vec![DescriptorKind::BufferOnly, DescriptorKind::BufferOnly, DescriptorKind::Gbuff]
    );
    let l = Layout::new_deferred(&mut eng);
    assert_eq!(l.sets, vec![DescriptorKind::BufferOnly, DescriptorKind::Deferred]);
    let l = Layout::new_shadow_mapper(&mut eng);
    assert_eq!(l.sets, vec![DescriptorKind::BufferOnly, DescriptorKind::Gbuff]);
    let l = Layout::new_ssao(&mut eng);
    assert_eq!(l.sets, vec![DescriptorKind::BufferOnly, DescriptorKind::Ssao]);
    let l = Layout::new_shadow_accumulator_directional(&mut eng);
    assert_eq!(l.sets, vec![DescriptorKind::ShadowAccumulatorDirectional]);
}

#[test]
fn pipeline_fixed_state_follows_the_pass_kind() {
    let mut eng = Engine::new(1);
    let config = Configurations::default();
    let mut pipmgr = PipelineManager::new(&mut eng, config);
    let deferred = pipmgr.create(&mut eng, 500, PipelineType::DeferredPbr);
    assert_eq!(deferred.blend, BlendSetup::AlphaBlend);
    assert_eq!(deferred.color_write_mask, COLOR_WRITE_RGBA);
    assert!(!deferred.vertex_input);
    assert_eq!(deferred.specialization_cascades, None);
    let gbuff = pipmgr.create(&mut eng, 500, PipelineType::GBufferFiller);
    assert_eq!(gbuff.blend, BlendSetup::Disabled);
    assert!(gbuff.vertex_input);
    let ssao_pipe = pipmgr.create(&mut eng, 500, PipelineType::Ssao);
    assert_eq!(ssao_pipe.color_write_mask, COLOR_WRITE_R);
    let accum = pipmgr.create(&mut eng, 500, PipelineType::ShadowAccumulatorDirectional);
    assert_eq!(accum.blend, BlendSetup::AdditiveOne);
    assert_eq!(accum.specialization_cascades, Some(4));
    assert!(accum.depth_test && accum.depth_write);
}

#[test]
fn pipeline_manager_reuses_cached_pipelines() {
    let mut eng = Engine::new(1);
    let config = Configurations::default();
    let mut pipmgr = PipelineManager::new(&mut eng, config);
    let first = pipmgr.create(&mut eng, 500, PipelineType::Ssao);
    let again = pipmgr.create(&mut eng, 500, PipelineType::Ssao);
    assert_eq!(first.vk_data, again.vk_data);
    let other_pass = pipmgr.create(&mut eng, 501, PipelineType::Ssao);
    assert_ne!(first.vk_data, other_pass.vk_data);
}

#[test]
fn layout_transitions_pick_the_documented_masks() {
    let mut img = Image::new_with_vk_data(77, ImageLayout::Undefined, vulkust::image::Format::RgbaByte);
    let b = img.change_layout(ImageLayout::TransferDstOptimal);
    assert_eq!(b.src_access_mask, 0);
    assert_eq!(b.dst_access_mask, ACCESS_TRANSFER_WRITE);
    assert_eq!(b.src_stage, STAGE_TRANSFER);
    assert_eq!(b.dst_stage, STAGE_TRANSFER);
    assert_eq!(b.image, 77);
    assert_eq!(img.layout, ImageLayout::TransferDstOptimal);

    let b = img.change_layout(ImageLayout::ShaderReadOnlyOptimal);
    assert_eq!(b.src_access_mask, ACCESS_TRANSFER_WRITE);
    assert_eq!(b.dst_access_mask, ACCESS_SHADER_READ);
    assert_eq!(b.dst_stage, STAGE_FRAGMENT_SHADER);

    // Leaving the undefined layout for shader reads still orders the host
    // and transfer writes that initialized the image.
    let mut fresh = Image::new_with_vk_data(78, ImageLayout::Undefined, vulkust::image::Format::RgbaByte);
    let b = fresh.change_layout(ImageLayout::ShaderReadOnlyOptimal);
    assert_eq!(b.src_access_mask, ACCESS_HOST_WRITE | ACCESS_TRANSFER_WRITE);
    assert_eq!(b.dst_stage, STAGE_FRAGMENT_SHADER);
}

#[test]
fn shadower_sizes_resources_from_the_configuration() {
    let mut eng = Engine::new(2);
    let config = Configurations::new(6, 4, 2, 1, 1024);
    let mut pipmgr = PipelineManager::new(&mut eng, config);
    let shadower = Shadower::new(&mut eng, &mut pipmgr, &config);
    assert_eq!(shadower.shadow_map_buffers.len(), 6);
    assert_eq!(shadower.shadow_map_textures.len(), 6);
    assert_eq!(shadower.shadow_map_framebuffers.len(), 6);
    assert_eq!(
        shadower.begin_shadow_map_primary(2),
        shadower.shadow_map_framebuffers[2]
    );
    let (fb, pipe) = shadower.begin_secondary_shadow_mappers(3);
    assert_eq!(fb, shadower.shadow_map_framebuffers[3]);
    assert_eq!(pipe, shadower.shadow_map_pipeline.vk_data);
    assert_eq!(
        shadower.get_shadow_map_descriptor_set(),
        shadower.shadow_map_descriptor_set
    );
    // All owned handles are fresh and pairwise distinct; the layout is
    // contract-fixed relative to the allocation window.
    let mut handles = shadower.shadow_map_buffers.clone();
    handles.extend_from_slice(&shadower.shadow_map_textures);
    handles.extend_from_slice(&shadower.shadow_map_framebuffers);
    handles.extend_from_slice(&[
        shadower.shadow_accumulator_strength_buffer,
        shadower.shadow_accumulator_flagbits_buffer,
        shadower.clear_shadow_accumulator_render_pass,
        shadower.shadow_accumulator_render_pass,
        shadower.shadow_map_render_pass,
        shadower.clear_shadow_accumulator_framebuffer,
        shadower.shadow_accumulator_framebuffer,
        shadower.shadow_mapper_uniform_buffer,
        shadower.shadow_accumulator_directional_uniform_buffer,
        shadower.shadow_map_descriptor_set,
        shadower.shadow_accumulator_directional_descriptor_set,
    ]);
    let mut sorted = handles.clone();
    sorted.sort();
    sorted.dedup();
    assert_eq!(sorted.len(), handles.len());
}

#[test]
fn built_in_templates_declare_their_links() {
    let mut eng = Engine::new(2);
    let config = Configurations::default();
    let mut pipmgr = PipelineManager::new(&mut eng, config);

    let gbuff = g_buffer_filler::new(&mut eng, &mut pipmgr);
    assert_eq!(gbuff.base.get_node_id(), node::G_BUFFER_FILLER_NODE);
    assert_eq!(gbuff.base.get_name(), "g-buffer-filler");
    assert_eq!(
        gbuff.base.get_output_links_ids(),
        &vec![node::POSITION_LINK, node::NORMAL_LINK, node::ALBEDO_LINK, node::DEPTH_LINK]
    );
    assert!(gbuff.base.get_input_links_ids().is_empty());
    assert_eq!(gbuff.base.get_output_link_index_by_id(node::ALBEDO_LINK), Some(2));
    assert_eq!(
        gbuff.base.get_output_link_index_by_name(&"depth".to_string()),
        Some(3)
    );
    assert_eq!(gbuff.base.get_output_link_index_by_id(node::COLOR_LINK), None);
    assert_eq!(gbuff.get_pass_type(), node::G_BUFFER_FILLER_NODE);
    assert_eq!(gbuff.get_pipeline_type(), PipelineType::GBufferFiller);

    let deferred = deferred_pbr::new(&mut eng, &mut pipmgr, 640, 480, vec![0u8; 16]);
    assert_eq!(deferred.base.get_node_id(), node::DEFERRED_PBR_NODE);
    assert_eq!(
        deferred.base.get_input_links_ids(),
        &vec![
            node::POSITION_LINK,
            node::NORMAL_LINK,
            node::ALBEDO_LINK,
            node::DEPTH_LINK,
            node::OCCLUSION_LINK,
            node::ACCUMULATED_SHADOWS_LINK,
        ]
    );
    assert_eq!(deferred.base.get_output_links_ids(), &vec![node::SINGLE_OUTPUT_LINK]);
    assert_eq!(deferred.render_data.uniform, vec![0u8; 16]);

    let occlusion = ssao::new(&mut eng, &mut pipmgr, 640, 480, vec![1u8; 8]);
    assert_eq!(occlusion.base.get_node_id(), node::SSAO_NODE);
    assert_eq!(
        occlusion.base.get_input_links_ids(),
        &vec![node::POSITION_LINK, node::NORMAL_LINK, node::DEPTH_LINK]
    );

    let mapper = shadow_mapper::new(&mut eng, &mut pipmgr, 1024, 1024, vec![0u8; 64]);
    assert_eq!(mapper.base.get_node_id(), node::SHADOW_MAPPER_NODE);
    assert!(mapper.base.get_input_links_ids().is_empty());
    assert_eq!(
        mapper.render_data.frames_data[0].kernels_data.len(),
        eng.get_kernels_count()
    );

    let accum = shadow_accumulator::new(&mut eng, &mut pipmgr, 640, 480, vec![0u8; 32]);
    assert_eq!(accum.base.get_node_id(), node::SHADOW_ACCUMULATOR_DIRECTIONAL_NODE);
    assert_eq!(accum.base.get_input_links_ids().len(), 8);
    assert_eq!(
        accum.base.get_input_link_index_by_name(&"shadow-map-4".to_string()),
        Some(6)
    );
}

#[test]
fn node_manager_instantiates_registered_templates() {
    let mut eng = Engine::new(2);
    let config = Configurations::default();
    let mut pipmgr = PipelineManager::new(&mut eng, config);
    let gbuff = g_buffer_filler::new(&mut eng, &mut pipmgr);
    let gbuff_pipeline = gbuff.shared_data.pipeline.vk_data;
    let mut owner: Storage<vulkust::effect::Base> = Storage::new();
    let mut mgr = NodeManager::new();
    mgr.insert(&gbuff);
    owner.insert(gbuff);

    let inst = mgr
        .get_with_id(node::G_BUFFER_FILLER_NODE, &owner, &mut eng)
        .unwrap();
    assert_eq!(inst.base.get_node_id(), node::G_BUFFER_FILLER_NODE);
    assert_eq!(inst.shared_data.pipeline.vk_data, gbuff_pipeline);
    let by_name = mgr
        .get_with_name(&"g-buffer-filler".to_string(), &owner, &mut eng)
        .unwrap();
    assert_eq!(by_name.base.get_node_id(), node::G_BUFFER_FILLER_NODE);
    // Two instances are independent: distinct render data.
    assert_ne!(inst.render_data.uniform_buffer, by_name.render_data.uniform_buffer);
    // An unregistered kind gives nothing.
    assert!(mgr.get_with_id(node::SSR_NODE, &owner, &mut eng).is_none());
    // Dropping the template from its owner kills the weak registration.
    owner.delete_with_id(node::G_BUFFER_FILLER_NODE);
    assert!(mgr
        .get_with_id(node::G_BUFFER_FILLER_NODE, &owner, &mut eng)
        .is_none());
}

#[test]
fn views_wrap_and_allocate_images() {
    let mut eng = Engine::new(1);
    let depth = vulkust::image::View::new_depth_stencil(&mut eng);
    assert_eq!(depth.image.layout, ImageLayout::Undefined);
    assert_eq!(depth.image.format, vulkust::image::Format::DepthFloat);
    assert_eq!(depth.image.mips_count, 1);
    assert_ne!(depth.image.vk_data, depth.vk_data);
    // Wrapping a backend-owned image (a swapchain image) keeps its handle
    // and state.
    let wrapped = vulkust::image::View::new_with_vk_image(
        424242,
        vulkust::image::Format::RgbaByte,
        ImageLayout::ColorAttachmentOptimal,
        &mut eng,
    );
    assert_eq!(wrapped.image.vk_data, 424242);
    assert_eq!(wrapped.image.layout, ImageLayout::ColorAttachmentOptimal);
    assert_ne!(wrapped.vk_data, depth.vk_data);
}

#[test]
fn default_configuration_values() {
    let c = Configurations::default();
    assert_eq!(c.get_max_shadow_maps_count(), 6);
    assert_eq!(c.get_cascaded_shadows_count(), 4);
    assert_eq!(c.get_frames_in_flight(), 2);
    assert_eq!(c.get_samples_count(), 1);
    assert_eq!(c.get_shadow_map_aspect(), 1024);
}
