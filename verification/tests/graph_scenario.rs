//! End-to-end graph scenarios: templates, instances, binding and
//! recording.

use vulkust::config::Configurations;
use vulkust::effect::{Base as EffectBase, BufferInfo, InputInfo, SceneView};
use vulkust::error::Error;
use vulkust::gapi::Engine;
use vulkust::image::Format;
use vulkust::node;
use vulkust::pipeline::Manager as PipelineManager;
use vulkust::pipeline::PipelineType;
use vulkust::tree::Tree;

fn single_io_template(eng: &mut Engine, pipmgr: &mut PipelineManager, kind: u64) -> EffectBase {
    let buffer_infos = vec![BufferInfo {
        width: 64,
        height: 64,
        format: Format::RgbaFloat,
        id: node::SINGLE_OUTPUT_LINK,
        name: "single-output".to_string(),
    }];
    let input_infos = vec![InputInfo {
        id: node::SINGLE_INPUT_LINK,
        name: "single-input".to_string(),
    }];
    EffectBase::new_with_buffer_info(
        eng,
        pipmgr,
        &buffer_infos,
        Vec::new(),
        PipelineType::DeferredPbr,
        kind,
        format!("single-io-{}", kind),
        &input_infos,
    )
}

fn source_template(eng: &mut Engine, pipmgr: &mut PipelineManager, kind: u64) -> EffectBase {
    let buffer_infos = vec![BufferInfo {
        width: 64,
        height: 64,
        format: Format::RgbaFloat,
        id: node::SINGLE_OUTPUT_LINK,
        name: "single-output".to_string(),
    }];
    let input_infos: Vec<InputInfo> = Vec::new();
    EffectBase::new_with_buffer_info(
        eng,
        pipmgr,
        &buffer_infos,
        Vec::new(),
        PipelineType::Ssao,
        kind,
        format!("source-{}", kind),
        &input_infos,
    )
}

#[test]
fn end_to_end_single_link_scenario() {
    let mut eng = Engine::new(2);
    let config = Configurations::default();
    let mut pipmgr = PipelineManager::new(&mut eng, config);
    let tpl = single_io_template(&mut eng, &mut pipmgr, 2000);
    let mut tree = Tree::new(2);
    let a = tree.create_instance(&tpl, &mut eng);
    let b = tree.create_instance(&tpl, &mut eng);

    // Template/instance independence: identical shared data, distinct
    // render data.
    assert_eq!(
        tree.get_node(a).shared_data.pipeline.vk_data,
        tree.get_node(b).shared_data.pipeline.vk_data
    );
    assert_eq!(
        tree.get_node(a).shared_data.textures,
        tree.get_node(b).shared_data.textures
    );
    assert_eq!(
        tree.get_node(a).shared_data.textures,
        tpl.shared_data.textures
    );
    assert_ne!(
        tree.get_node(a).render_data.uniform_buffer,
        tree.get_node(b).render_data.uniform_buffer
    );
    assert_ne!(
        tree.get_node(a).render_data.frames_data[0].pri_cmd,
        tree.get_node(b).render_data.frames_data[0].pri_cmd
    );
    assert_ne!(
        tree.get_node(a).render_data.frames_data[0].semaphore,
        tree.get_node(b).render_data.frames_data[0].semaphore
    );

    // Recording before any provider registration must fail.
    let scene = SceneView { camera: 900, models: vec![901, 902] };
    let before = tree.record_node(b, 0, 0, &mut eng, &scene);
    assert_eq!(before, Err(Error::UnboundInput { input_index: 0 }));

    // Bind B's single input to A's output 0 and record: B reads A's
    // current output resource handle.
    tree.register_provider(b, 0, a, 0);
    assert_eq!(
        tree.get_node(b).base.get_all_providers()[0],
        Some(node::Provider { node: a, output_index: 0 })
    );
    assert!(tree.record_node(b, 0, 0, &mut eng, &scene).is_ok());
    let pass = tree.get_node(b).render_data.frames_data[0].kernels_data[0]
        .recorded
        .as_ref()
        .unwrap();
    assert_eq!(pass.inputs, vec![tree.get_node(a).shared_data.textures[0]]);
    assert_eq!(pass.pipeline, tree.get_node(b).shared_data.pipeline.vk_data);

    // A fresh instance from the same template leaves B's binding
    // untouched.
    let c = tree.create_instance(&tpl, &mut eng);
    assert!(tree.get_node(c).render_data.frames_data[0].kernels_data[0]
        .recorded
        .is_none());
    assert_eq!(
        tree.get_node(b).base.get_all_providers()[0],
        Some(node::Provider { node: a, output_index: 0 })
    );
    let pass_b = tree.get_node(b).render_data.frames_data[0].kernels_data[0]
        .recorded
        .as_ref()
        .unwrap();
    assert_eq!(pass_b.inputs[0], tree.get_node(a).shared_data.textures[0]);
}

#[test]
fn rebinding_replaces_the_provider() {
    let mut eng = Engine::new(2);
    let config = Configurations::default();
    let mut pipmgr = PipelineManager::new(&mut eng, config);
    let src1 = source_template(&mut eng, &mut pipmgr, 2001);
    let src2 = source_template(&mut eng, &mut pipmgr, 2002);
    let dst = single_io_template(&mut eng, &mut pipmgr, 2003);
    let mut tree = Tree::new(2);
    let a1 = tree.create_instance(&src1, &mut eng);
    let a2 = tree.create_instance(&src2, &mut eng);
    let b = tree.create_instance(&dst, &mut eng);

    tree.register_provider(b, 0, a1, 0);
    assert_eq!(
        tree.get_node(b).base.get_all_providers()[0],
        Some(node::Provider { node: a1, output_index: 0 })
    );
    // Rebinding without detaching replaces the binding deterministically:
    // the last registration wins.
    tree.register_provider(b, 0, a2, 0);
    assert_eq!(
        tree.get_node(b).base.get_all_providers()[0],
        Some(node::Provider { node: a2, output_index: 0 })
    );
    let scene = SceneView { camera: 1, models: Vec::new() };
    assert!(tree.record_node(b, 0, 1, &mut eng, &scene).is_ok());
    let pass = tree.get_node(b).render_data.frames_data[1].kernels_data[0]
        .recorded
        .as_ref()
        .unwrap();
    assert_eq!(pass.inputs, vec![tree.get_node(a2).shared_data.textures[0]]);
    assert_ne!(pass.inputs[0], tree.get_node(a1).shared_data.textures[0]);

    // The providers gained weak back-references on their outputs.
    assert_eq!(tree.get_node(a1).base.get_link_consumers(0), &vec![b]);
    assert_eq!(tree.get_node(a2).base.get_link_consumers(0), &vec![b]);
}

#[test]
fn submission_order_respects_dependencies() {
    let mut eng = Engine::new(2);
    let config = Configurations::default();
    let mut pipmgr = PipelineManager::new(&mut eng, config);
    let src = source_template(&mut eng, &mut pipmgr, 2100);
    let dst = single_io_template(&mut eng, &mut pipmgr, 2101);
    let mut tree = Tree::new(2);
    let b = tree.create_instance(&dst, &mut eng);
    let a = tree.create_instance(&src, &mut eng);
    tree.register_provider(b, 0, a, 0);
    // The computed order places the provider before the consumer even
    // though the consumer was created first.
    let order = tree.submission_order().unwrap();
    assert_eq!(order, vec![a, b]);
    assert!(tree.check_order(&order));
}

#[test]
fn cyclic_graphs_have_no_submission_order() {
    let mut eng = Engine::new(2);
    let config = Configurations::default();
    let mut pipmgr = PipelineManager::new(&mut eng, config);
    let tpl = single_io_template(&mut eng, &mut pipmgr, 2102);
    let mut tree = Tree::new(2);
    let a = tree.create_instance(&tpl, &mut eng);
    let b = tree.create_instance(&tpl, &mut eng);
    tree.register_provider(b, 0, a, 0);
    tree.register_provider(a, 0, b, 0);
    assert!(tree.submission_order().is_none());
}

#[test]
fn binding_and_lookup_by_link_id_and_name() {
    let mut eng = Engine::new(2);
    let config = Configurations::default();
    let mut pipmgr = PipelineManager::new(&mut eng, config);
    let src = source_template(&mut eng, &mut pipmgr, 2200);
    let dst = single_io_template(&mut eng, &mut pipmgr, 2201);
    let out_by_id = src.get_output_texture_by_id(node::SINGLE_OUTPUT_LINK).unwrap();
    let out_by_name = src
        .get_output_texture_by_name(&"single-output".to_string())
        .unwrap();
    assert_eq!(out_by_id, src.shared_data.textures[0]);
    assert_eq!(out_by_name, src.shared_data.textures[0]);
    assert_eq!(
        src.get_output_texture_by_id(node::COLOR_LINK),
        Err(Error::UnknownLinkId { link_id: node::COLOR_LINK })
    );
    assert_eq!(
        src.get_output_texture_by_name(&"depth".to_string()),
        Err(Error::UnknownLinkName)
    );

    let mut tree = Tree::new(2);
    let a = tree.create_instance(&src, &mut eng);
    let b = tree.create_instance(&dst, &mut eng);
    // Binding through the consumer's declared link id.
    assert!(tree
        .register_provider_for_link_by_id(b, node::SINGLE_INPUT_LINK, a, 0)
        .is_ok());
    assert_eq!(
        tree.get_node(b).base.get_all_providers()[0],
        Some(node::Provider { node: a, output_index: 0 })
    );
    assert_eq!(
        tree.register_provider_for_link_by_id(b, node::COLOR_LINK, a, 0),
        Err(Error::UnknownLinkId { link_id: node::COLOR_LINK })
    );
    // Binding through the consumer's declared link name.
    assert!(tree
        .register_provider_for_link_by_name(b, &"single-input".to_string(), a, 0)
        .is_ok());
    assert_eq!(
        tree.register_provider_for_link_by_name(b, &"albedo".to_string(), a, 0),
        Err(Error::UnknownLinkName)
    );
}

#[test]
fn consumer_registration_by_link_id_and_name() {
    let mut eng = Engine::new(2);
    let config = Configurations::default();
    let mut pipmgr = PipelineManager::new(&mut eng, config);
    let mut src = source_template(&mut eng, &mut pipmgr, 2202);
    assert!(src.base.register_consumer_for_link_by_id(node::SINGLE_OUTPUT_LINK, 7).is_ok());
    assert!(src
        .base
        .register_consumer_for_link_by_name(&"single-output".to_string(), 8)
        .is_ok());
    assert_eq!(src.base.get_link_consumers(0), &vec![7, 8]);
    assert_eq!(
        src.base.register_consumer_for_link_by_id(node::DEPTH_LINK, 9),
        Err(Error::UnknownLinkId { link_id: node::DEPTH_LINK })
    );
    assert_eq!(
        src.base.register_consumer_for_link_by_name(&"normal".to_string(), 9),
        Err(Error::UnknownLinkName)
    );
    assert_eq!(src.base.get_link_consumers(0), &vec![7, 8]);
}

#[test]
fn rebinding_marks_descriptors_stale() {
    let mut eng = Engine::new(2);
    let config = Configurations::default();
    let mut pipmgr = PipelineManager::new(&mut eng, config);
    let src = source_template(&mut eng, &mut pipmgr, 2004);
    let dst = single_io_template(&mut eng, &mut pipmgr, 2005);
    let mut tree = Tree::new(2);
    let a = tree.create_instance(&src, &mut eng);
    let b = tree.create_instance(&dst, &mut eng);

    tree.register_provider(b, 0, a, 0);
    assert!(tree.get_node(b).render_data.frames_data[0].input_textures_changed);
    assert!(tree.get_node(b).render_data.frames_data[1].input_textures_changed);
    let scene = SceneView { camera: 1, models: Vec::new() };
    assert!(tree.record_node(b, 0, 0, &mut eng, &scene).is_ok());
    // The first record after a rebinding lazily rebuilds the descriptor
    // set of that frame only.
    assert!(!tree.get_node(b).render_data.frames_data[0].input_textures_changed);
    assert!(tree.get_node(b).render_data.frames_data[0].descriptor_set.is_some());
    assert!(tree.get_node(b).render_data.frames_data[1].input_textures_changed);
    assert!(tree.get_node(b).render_data.frames_data[1].descriptor_set.is_none());
}
