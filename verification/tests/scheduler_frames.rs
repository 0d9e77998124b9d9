//! The frame scheduler's action log: fence gating, the data-upload chain,
//! and the submission wiring of whole ticks.

use vulkust::config::Configurations;
use vulkust::effect::{Base as EffectBase, BufferInfo, InputInfo, SceneView};
use vulkust::error::Error;
use vulkust::gapi::{Action, Engine, NextImageResult};
use vulkust::image::Format;
use vulkust::node;
use vulkust::pipeline::Manager as PipelineManager;
use vulkust::pipeline::PipelineType;
use vulkust::tree::Tree;

#[test]
fn engine_construction_layout() {
    let eng = Engine::new(3);
    assert_eq!(eng.get_frames_count(), 3);
    assert!(eng.get_kernels_count() >= 1);
    assert_eq!(eng.get_frame_number(), 0);
    assert_eq!(eng.get_render_pass(), 2);
    // Slot 0's records start at handle 4; stage B is its third semaphore.
    assert_eq!(eng.get_present_semaphore(), 4);
    assert_eq!(eng.get_starting_semaphore(), 6);
    assert_eq!(eng.get_current_framebuffer(), 11);
}

#[test]
fn tick_actions_are_fence_gated_and_chained() {
    let mut eng = Engine::new(3);
    let r = eng.start_rendering(NextImageResult::Next(1));
    assert!(r.is_ok());
    assert_eq!(eng.get_frame_number(), 1);
    eng.end(777);
    let actions = eng.take_actions();
    assert_eq!(actions.len(), 6);
    // Slot 1's nine handles start at 4 + 9 = 13.
    match &actions[0] {
        Action::WaitFence(f) => assert_eq!(*f, 19),
        _ => panic!("the tick must begin by waiting the slot's fence"),
    }
    match &actions[1] {
        Action::ResetFence(f) => assert_eq!(*f, 19),
        _ => panic!("the fence must be reset before reuse"),
    }
    // Stage one: clear/copy, gated on the present semaphore, signals A.
    match &actions[2] {
        Action::Submit(s) => {
            assert_eq!(s.waits, vec![13]);
            assert_eq!(s.cmds, vec![17]);
            assert_eq!(s.signals, vec![14]);
            assert_eq!(s.fence, None);
        },
        _ => panic!("expected the clear/copy submission"),
    }
    // Stage two: secondary-data upload, gated on A, signals B.
    match &actions[3] {
        Action::Submit(s) => {
            assert_eq!(s.waits, vec![14]);
            assert_eq!(s.cmds, vec![18]);
            assert_eq!(s.signals, vec![15]);
            assert_eq!(s.fence, None);
        },
        _ => panic!("expected the upload submission"),
    }
    // The composition submission carries the slot's fence and feeds the
    // present.
    match &actions[4] {
        Action::Submit(s) => {
            assert_eq!(s.waits, vec![777]);
            assert!(s.cmds.is_empty());
            assert_eq!(s.signals, vec![16]);
            assert_eq!(s.fence, Some(19));
        },
        _ => panic!("expected the fenced composition submission"),
    }
    match &actions[5] {
        Action::Present { image_index, wait_semaphore } => {
            assert_eq!(*image_index, 1);
            assert_eq!(*wait_semaphore, 16);
        },
        _ => panic!("the tick must end by presenting"),
    }
    // The log was drained.
    assert!(eng.take_actions().is_empty());
}

#[test]
fn two_ticks_on_one_slot_are_fence_separated() {
    let mut eng = Engine::new(2);
    // First tick on slot 0.
    assert!(eng.start_rendering(NextImageResult::Next(0)).is_ok());
    eng.end(555);
    // Second tick on the same slot.
    assert!(eng.start_rendering(NextImageResult::Next(0)).is_ok());
    eng.end(556);
    let actions = eng.take_actions();
    assert_eq!(actions.len(), 12);
    // Slot 0's fence is handle 10. The first tick attaches it to its last
    // submission; the second tick waits on it before anything else.
    match &actions[4] {
        Action::Submit(s) => assert_eq!(s.fence, Some(10)),
        _ => panic!("expected the first tick's fenced submission"),
    }
    match &actions[6] {
        Action::WaitFence(f) => assert_eq!(*f, 10),
        _ => panic!("the second tick must begin by waiting the slot's fence"),
    }
    // No submission of the second tick precedes its fence wait.
    for (i, a) in actions.iter().enumerate() {
        if let Action::Submit(_) = a {
            assert!(i < 6 || i > 6);
        }
    }
}

#[test]
fn needs_refresh_is_fatal_for_the_frame() {
    let mut eng = Engine::new(2);
    let r = eng.start_rendering(NextImageResult::NeedsRefresh);
    assert_eq!(r, Err(Error::SwapchainNeedsRefresh));
    assert_eq!(eng.get_frame_number(), 0);
    assert!(eng.take_actions().is_empty());
}

#[test]
fn submit_multiple_records_exactly_what_was_given() {
    let mut eng = Engine::new(1);
    let waits = vec![10, 11];
    let cmds = vec![20];
    let signals = vec![30, 31, 32];
    eng.submit_multiple(&waits, &cmds, &signals);
    eng.submit(40, 41, 42);
    let actions = eng.take_actions();
    assert_eq!(actions.len(), 2);
    match &actions[0] {
        Action::Submit(s) => {
            assert_eq!(s.waits, vec![10, 11]);
            assert_eq!(s.cmds, vec![20]);
            assert_eq!(s.signals, vec![30, 31, 32]);
            assert_eq!(s.fence, None);
        },
        _ => panic!("expected a submission"),
    }
    match &actions[1] {
        Action::Submit(s) => {
            assert_eq!(s.waits, vec![40]);
            assert_eq!(s.cmds, vec![41]);
            assert_eq!(s.signals, vec![42]);
            assert_eq!(s.fence, None);
        },
        _ => panic!("expected a submission"),
    }
}

#[test]
fn rendered_frame_orders_provider_before_consumer() {
    let mut eng = Engine::new(2);
    let config = Configurations::default();
    let mut pipmgr = PipelineManager::new(&mut eng, config);
    let src_infos = vec![BufferInfo {
        width: 32,
        height: 32,
        format: Format::RgbaFloat,
        id: node::SINGLE_OUTPUT_LINK,
        name: "single-output".to_string(),
    }];
    let no_inputs: Vec<InputInfo> = Vec::new();
    let src_tpl = EffectBase::new_with_buffer_info(
        &mut eng,
        &mut pipmgr,
        &src_infos,
        Vec::new(),
        PipelineType::Ssao,
        3001,
        "upstream".to_string(),
        &no_inputs,
    );
    let dst_infos = vec![BufferInfo {
        width: 32,
        height: 32,
        format: Format::RgbaFloat,
        id: node::SINGLE_OUTPUT_LINK,
        name: "single-output".to_string(),
    }];
    let dst_inputs = vec![InputInfo {
        id: node::SINGLE_INPUT_LINK,
        name: "single-input".to_string(),
    }];
    let dst_tpl = EffectBase::new_with_buffer_info(
        &mut eng,
        &mut pipmgr,
        &dst_infos,
        Vec::new(),
        PipelineType::DeferredPbr,
        3002,
        "downstream".to_string(),
        &dst_inputs,
    );
    let mut tree = Tree::new(2);
    let a = tree.create_instance(&src_tpl, &mut eng);
    let b = tree.create_instance(&dst_tpl, &mut eng);
    tree.register_provider(b, 0, a, 0);
    eng.take_actions();

    let order = vec![a, b];
    // The consumer must come after its provider; the reverse order and
    // orders naming dead slots are refused.
    assert!(tree.check_order(&order));
    assert!(!tree.check_order(&vec![b, a]));
    assert!(!tree.check_order(&vec![a, 999]));
    let scene = SceneView { camera: 5, models: vec![6] };
    let r = tree.render_frame(&mut eng, NextImageResult::Next(0), &order, &scene);
    assert!(r.is_ok());
    let actions = eng.take_actions();
    // Fence wait + reset, two upload stages, one submission per node,
    // the fenced composition, the present.
    assert_eq!(actions.len(), 4 + 2 + 2);
    let stage_b = 6;  // slot 0's second-data semaphore
    let (a_signal, b_waits) = match (&actions[4], &actions[5]) {
        (Action::Submit(sa), Action::Submit(sb)) => {
            assert_eq!(sa.waits, vec![stage_b]);
            assert_eq!(sa.fence, None);
            assert_eq!(sb.fence, None);
            assert_eq!(sb.waits[0], stage_b);
            (sa.signals[0], sb.waits.clone())
        },
        _ => panic!("expected the two node submissions"),
    };
    // The provider's signal semaphore stands in the consumer's wait list.
    assert!(b_waits.contains(&a_signal));
    assert_eq!(
        a_signal,
        tree.get_node(a).render_data.frames_data[0].semaphore
    );
    // The composition waits on the last node's semaphore and is fenced
    // with slot 0's fence (handle 10).
    match &actions[6] {
        Action::Submit(s) => {
            assert_eq!(s.waits, vec![tree.get_node(b).render_data.frames_data[0].semaphore]);
            assert_eq!(s.fence, Some(10));
        },
        _ => panic!("expected the fenced composition submission"),
    }
    match &actions[7] {
        Action::Present { image_index, wait_semaphore: _ } => assert_eq!(*image_index, 0),
        _ => panic!("the tick must end by presenting"),
    }
}
