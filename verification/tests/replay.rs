//! Replay of captured element trees and command streams.

use wgpui::flamegraph::deep_capture::{
    DeepCapture, DeepCaptureBufferContents, DeepCaptureBufferKind, DeepCaptureDrawCall,
    DeepCaptureRecorder, DrawCallKind,
};
use wgpui::flamegraph_replay::command_stream::{DeepCaptureReplay, DrawCallResourceStatus};
use wgpui::flamegraph_replay::pixels::{
    placeholder_checkerboard_rgba, ReadbackLayout, ReplayRenderOutput,
};
use wgpui::flamegraph_replay::render::{
    check_staging_map, render_deep_capture_step, rendered_output, ReplayError, ReplayStep,
};
use wgpui::flamegraph_replay::ui_tree::UiTreeReplay;
use wgpui::flamegraph_ui_capture::{
    ScenePrimitive, SceneSnapshot, UiBounds, UiElementNode, UiTreeCapture,
};

fn node(element_type: &'static str, global_id_hash: u64, depth: u32) -> UiElementNode {
    UiElementNode {
        element_type,
        global_id_hash,
        depth,
        bounds: UiBounds::default(),
        style: None,
    }
}

fn sample_ui_tree_capture() -> UiTreeCapture {
    // Depth-first shape:
    //   0: root (depth 0)
    //     1: child-a (depth 1)
    //       2: grandchild (depth 2)
    //     3: child-b (depth 1)
    UiTreeCapture {
        window_id: 7,
        nodes: vec![
            node("Root", 1, 0),
            node("ChildA", 2, 1),
            node("Grandchild", 3, 2),
            node("ChildB", 4, 1),
        ],
        scene: SceneSnapshot::default(),
    }
}

fn tree_of(depths: &[u32]) -> UiTreeReplay {
    let nodes = depths.iter().map(|&depth| node("Node", 0, depth)).collect();
    UiTreeReplay::new(UiTreeCapture { window_id: 1, nodes, scene: SceneSnapshot::default() })
}

#[test]
fn ui_tree_replay_reconstructs_parent_child_relationships() {
    let replay = UiTreeReplay::new(sample_ui_tree_capture());

    assert_eq!(replay.node_count(), 4);
    assert_eq!(replay.roots(), &[0]);
    assert_eq!(replay.parent(0), None);
    assert_eq!(replay.parent(1), Some(0));
    assert_eq!(replay.parent(2), Some(1));
    assert_eq!(replay.parent(3), Some(0), "child-b should reattach to root, not the grandchild");
    assert_eq!(replay.children(0), &[1, 3]);
    assert_eq!(replay.children(1), &[2]);
    assert!(replay.children(2).is_empty());
    assert!(replay.children(3).is_empty());

    assert_eq!(replay.node(1).map(|node| node.element_type), Some("ChildA"));
    assert_eq!(replay.depth_first_indices().collect::<Vec<_>>(), vec![0, 1, 2, 3]);
}

#[test]
fn ui_tree_replay_handles_empty_capture() {
    let replay = UiTreeReplay::new(UiTreeCapture::default());
    assert_eq!(replay.node_count(), 0);
    assert!(replay.roots().is_empty());
}

#[test]
fn a_capture_that_starts_mid_tree_has_several_roots() {
    let replay = tree_of(&[3, 4, 2, 2, 5, 1]);
    assert_eq!(replay.roots(), &[0, 2, 3, 5]);
    assert_eq!(replay.parent(1), Some(0));
    assert_eq!(replay.parent(4), Some(3));
    assert_eq!(replay.children(3), &[4]);
}

#[test]
fn depths_may_skip_levels() {
    let replay = tree_of(&[0, 5, 3, 3]);
    assert_eq!(replay.children(0), &[1, 2, 3]);
    assert_eq!(replay.roots(), &[0]);
}

#[test]
fn every_node_is_a_root_or_listed_below_its_parent_once() {
    let replay = tree_of(&[0, 1, 2, 2, 1, 0, 1]);
    let mut seen: Vec<usize> = replay.roots().to_vec();
    for index in replay.depth_first_indices() {
        for &child in replay.children(index) {
            assert_eq!(replay.parent(child), Some(index));
            seen.push(child);
        }
    }
    seen.sort();
    assert_eq!(seen, vec![0, 1, 2, 3, 4, 5, 6]);
    for &root in replay.roots() {
        assert_eq!(replay.parent(root), None);
    }
}

#[test]
fn nodes_out_of_range_have_neither_parent_nor_children() {
    let replay = tree_of(&[0, 1]);
    assert!(replay.node(2).is_none());
    assert_eq!(replay.parent(2), None);
    assert!(replay.children(2).is_empty());
}

#[test]
fn a_replay_keeps_its_capture() {
    let primitive = ScenePrimitive { kind: DrawCallKind::Paths, bounds: UiBounds::default() };
    let mut capture = sample_ui_tree_capture();
    capture.scene.primitives.push(primitive);
    capture.nodes[2].style = Some("bold".to_string());
    let replay = UiTreeReplay::new(capture).clone();
    assert_eq!(replay.capture().window_id, 7);
    assert_eq!(replay.scene().primitives, vec![primitive]);
    assert_eq!(replay.children(0), &[1, 3]);
    assert_eq!(replay.node(2).unwrap().element_type, "Grandchild");
    assert_eq!(replay.node(2).unwrap().style.as_deref(), Some("bold"));
    assert_eq!(replay.node(3).unwrap().global_id_hash, 4);
}

fn sample_deep_capture() -> DeepCapture {
    DeepCapture {
        draw_calls: vec![
            DeepCaptureDrawCall {
                sequence: 0,
                kind: DrawCallKind::Quads,
                pipeline_label: "quads",
                pass_label: "main",
                vertex_range: (0, 4),
                instance_range: (0, 1),
                bind_group_count: 2,
                buffer_kind: Some(DeepCaptureBufferKind::Quads),
                atlas_texture_id: None,
            },
            DeepCaptureDrawCall {
                sequence: 1,
                kind: DrawCallKind::MonoSprites,
                pipeline_label: "mono_sprites",
                pass_label: "main",
                vertex_range: (0, 4),
                instance_range: (0, 2),
                bind_group_count: 4,
                buffer_kind: Some(DeepCaptureBufferKind::MonoSprites),
                atlas_texture_id: Some(9),
            },
            DeepCaptureDrawCall {
                sequence: 2,
                kind: DrawCallKind::Shadows,
                pipeline_label: "shadows",
                pass_label: "main",
                vertex_range: (0, 4),
                instance_range: (0, 1),
                bind_group_count: 2,
                buffer_kind: Some(DeepCaptureBufferKind::Shadows),
                atlas_texture_id: None,
            },
        ],
        buffer_contents: vec![DeepCaptureBufferContents {
            kind: DeepCaptureBufferKind::Quads,
            bytes: vec![0; 64],
        }],
        resources_finalized: false,
    }
}

#[test]
fn deep_capture_replay_steps_through_command_stream() {
    let mut replay = DeepCaptureReplay::new(sample_deep_capture());

    assert_eq!(replay.draw_call_count(), 3);
    assert_eq!(replay.current_step(), 0);
    assert_eq!(replay.current_draw_call().map(|call| call.sequence), Some(0));

    let next = replay.step_to_next_draw_call().expect("should advance to the second draw call");
    assert_eq!(next.sequence, 1);
    assert_eq!(replay.current_step(), 1);

    let next = replay.step_to_next_draw_call().expect("should advance to the third draw call");
    assert_eq!(next.sequence, 2);
    assert_eq!(replay.current_step(), 2);

    assert!(
        replay.step_to_next_draw_call().is_none(),
        "already at the last draw call, stepping forward should report None"
    );
    assert_eq!(replay.current_step(), 2, "cursor should stay parked at the last valid draw call");

    let back = replay.step_to_previous_draw_call().expect("should step back to the second draw call");
    assert_eq!(back.sequence, 1);
    assert_eq!(replay.current_step(), 1);

    let seeked = replay.seek(0).expect("seeking within range should succeed");
    assert_eq!(seeked.sequence, 0);
    assert_eq!(replay.current_step(), 0);

    assert!(replay.seek(99).is_none(), "seeking out of range should report None");
    assert_eq!(replay.current_step(), 0, "cursor should not move on an out-of-range seek");

    replay.step_to_previous_draw_call();
    assert_eq!(replay.current_step(), 0, "stepping back from the first draw call should be a no-op");

    replay.seek(2);
    replay.reset();
    assert_eq!(replay.current_step(), 0);
}

#[test]
fn deep_capture_replay_reports_resource_status_per_kind() {
    let replay = DeepCaptureReplay::new(sample_deep_capture());

    assert_eq!(replay.resource_status(0), DrawCallResourceStatus::Available);
    assert_eq!(replay.resource_status(1), DrawCallResourceStatus::TextureContentUnavailable);
    assert_eq!(
        replay.resource_status(2),
        DrawCallResourceStatus::BufferReadbackMissing,
        "Shadows buffer was never added to buffer_contents in this fixture"
    );
    assert_eq!(replay.resource_status(99), DrawCallResourceStatus::NoResource);
}

#[test]
fn an_empty_command_stream_has_no_current_draw_call() {
    let mut replay = DeepCaptureReplay::new(DeepCapture {
        draw_calls: Vec::new(),
        buffer_contents: Vec::new(),
        resources_finalized: true,
    });
    assert_eq!(replay.draw_call_count(), 0);
    assert!(replay.current_draw_call().is_none());
    assert!(replay.step_to_next_draw_call().is_none());
    assert!(replay.step_to_previous_draw_call().is_none());
    assert!(replay.seek(0).is_none());
    assert_eq!(replay.current_step(), 0);
}

#[test]
fn a_draw_call_without_a_buffer_has_no_resource() {
    let mut capture = sample_deep_capture();
    capture.draw_calls[0].buffer_kind = None;
    let replay = DeepCaptureReplay::new(capture);
    assert_eq!(replay.resource_status(0), DrawCallResourceStatus::NoResource);
    assert!(matches!(
        render_deep_capture_step(&replay, 0, 8, 8),
        Err(ReplayError::UnsupportedDrawCallKind(DrawCallKind::Quads))
    ));
}

#[test]
fn the_first_contents_of_a_buffer_are_used() {
    let mut capture = sample_deep_capture();
    capture.buffer_contents.push(DeepCaptureBufferContents {
        kind: DeepCaptureBufferKind::Quads,
        bytes: vec![1; 2],
    });
    assert_eq!(capture.buffer_contents(DeepCaptureBufferKind::Quads).unwrap().bytes.len(), 64);
    assert!(capture.buffer_contents(DeepCaptureBufferKind::Paths).is_none());
}

#[test]
fn placeholder_checkerboard_has_expected_size_and_alternates() {
    let pixels = placeholder_checkerboard_rgba(4, 2, 1);
    assert_eq!(pixels.len(), 4 * 2 * 4);
    // Adjacent cells (cell size 1) should differ.
    let pixel_at = |x: usize, y: usize| -> [u8; 4] {
        let offset = (y * 4 + x) * 4;
        [pixels[offset], pixels[offset + 1], pixels[offset + 2], pixels[offset + 3]]
    };
    assert_ne!(pixel_at(0, 0), pixel_at(1, 0));
}

#[test]
fn checkerboard_squares_have_the_given_side() {
    let width = 5;
    let output = ReplayRenderOutput {
        width,
        height: 4,
        rgba8: placeholder_checkerboard_rgba(width, 4, 2),
        texture_unavailable: true,
    };
    let light = Some([200, 200, 200, 255]);
    let dark = Some([120, 120, 120, 255]);
    assert_eq!(output.pixel(0, 0), light);
    assert_eq!(output.pixel(1, 1), light);
    assert_eq!(output.pixel(2, 0), dark);
    assert_eq!(output.pixel(4, 0), light);
    assert_eq!(output.pixel(0, 2), dark);
    assert_eq!(output.pixel(2, 3), light);
    assert_eq!(output.pixel(5, 0), None);
    assert_eq!(output.pixel(0, 4), None);
}

#[test]
fn a_checkerboard_cell_of_zero_counts_as_one() {
    assert_eq!(placeholder_checkerboard_rgba(3, 3, 0), placeholder_checkerboard_rgba(3, 3, 1));
    assert!(placeholder_checkerboard_rgba(0, 7, 4).is_empty());
}

#[test]
fn a_pixel_missing_from_the_data_is_none() {
    let output = ReplayRenderOutput {
        width: 2,
        height: 1,
        rgba8: vec![1, 2, 3, 4, 5, 6, 7],
        texture_unavailable: false,
    };
    assert_eq!(output.pixel(0, 0), Some([1, 2, 3, 4]));
    assert_eq!(output.pixel(1, 0), None);
    let huge = ReplayRenderOutput { width: u32::MAX, height: u32::MAX, ..output };
    assert_eq!(huge.pixel(0, 0), Some([1, 2, 3, 4]));
    assert_eq!(huge.pixel(0, 1 << 30), None, "beyond what four bytes can count");
    assert_eq!(huge.pixel(u32::MAX - 1, u32::MAX - 1), None);
}

#[test]
fn rows_are_padded_and_unpacked() {
    let layout = ReadbackLayout::new(65, 2, 256);
    assert_eq!(layout.unpadded_bytes_per_row, 260);
    assert_eq!(layout.padded_bytes_per_row, 512);
    assert_eq!(layout.staging_size, 1024);
    let exact = ReadbackLayout::new(64, 3, 256);
    assert_eq!(exact.padded_bytes_per_row, 256);
    assert_eq!(exact.staging_size, 768);

    let small = ReadbackLayout::new(1, 2, 8);
    let view = [1, 2, 3, 4, 0, 0, 0, 0, 5, 6, 7, 8, 0, 0, 0, 0];
    let output = rendered_output(1, 2, &small, &view);
    assert_eq!(output.rgba8, vec![1, 2, 3, 4, 5, 6, 7, 8]);
    assert_eq!(output.pixel(0, 1), Some([5, 6, 7, 8]));
    assert!(!output.texture_unavailable);
}

#[test]
fn render_deep_capture_step_reports_texture_unavailable_placeholder_for_sprites() {
    let replay = DeepCaptureReplay::new(sample_deep_capture());
    let output = match render_deep_capture_step(&replay, 1, 8, 8)
        .expect("sprite draw calls should degrade gracefully rather than error")
    {
        ReplayStep::Placeholder(output) => output,
        ReplayStep::DrawQuads(_) => panic!("sprites are not drawn"),
    };
    assert!(output.texture_unavailable);
    assert_eq!(output.rgba8.len(), 8 * 8 * 4);
}

#[test]
fn render_deep_capture_step_rejects_unwired_kinds() {
    let replay = DeepCaptureReplay::new(sample_deep_capture());
    let error = render_deep_capture_step(&replay, 2, 8, 8)
        .err()
        .expect("Shadows has no wired-up replay pipeline this round");
    assert!(matches!(error, ReplayError::UnsupportedDrawCallKind(DrawCallKind::Shadows)));
}

#[test]
fn a_captured_quad_is_drawn_from_its_bytes() {
    let mut capture = sample_deep_capture();
    capture.draw_calls[0].instance_range = (3, 5);
    capture.buffer_contents[0].bytes = vec![9, 8, 7];
    let replay = DeepCaptureReplay::new(capture);
    match render_deep_capture_step(&replay, 0, 32, 32) {
        Ok(ReplayStep::DrawQuads(draw)) => {
            assert_eq!(draw.quads_bytes, &[9, 8, 7]);
            assert_eq!(draw.buffer_size, 3);
            assert_eq!(draw.vertex_range, (0, 4));
            assert_eq!(draw.instance_range, (3, 5));
        }
        _ => panic!("quads are drawn"),
    }
}

#[test]
fn an_empty_quad_buffer_still_gets_a_byte() {
    let mut capture = sample_deep_capture();
    capture.buffer_contents[0].bytes.clear();
    let replay = DeepCaptureReplay::new(capture);
    match render_deep_capture_step(&replay, 0, 1, 1) {
        Ok(ReplayStep::DrawQuads(draw)) => {
            assert!(draw.quads_bytes.is_empty());
            assert_eq!(draw.buffer_size, 1);
        }
        _ => panic!("quads are drawn"),
    }
}

#[test]
fn replay_errors_name_their_reason() {
    let mut capture = sample_deep_capture();
    capture.draw_calls[0].buffer_kind = Some(DeepCaptureBufferKind::Underlines);
    let replay = DeepCaptureReplay::new(capture);
    assert!(matches!(
        render_deep_capture_step(&replay, 0, 0, 8),
        Err(ReplayError::EmptyViewport)
    ));
    assert!(matches!(
        render_deep_capture_step(&replay, 0, 8, 0),
        Err(ReplayError::EmptyViewport)
    ));
    assert!(matches!(
        render_deep_capture_step(&replay, 3, 8, 8),
        Err(ReplayError::StepOutOfRange(3))
    ));
    assert!(matches!(
        render_deep_capture_step(&replay, 0, 8, 8),
        Err(ReplayError::MissingBufferContents(DeepCaptureBufferKind::Underlines))
    ));
    assert!(check_staging_map(true, true).is_ok());
    for (ready, succeeded) in [(false, true), (true, false), (false, false)] {
        match check_staging_map(ready, succeeded) {
            Err(ReplayError::Device(message)) => {
                assert_eq!(message, "staging buffer map_async did not complete successfully");
            }
            _ => panic!("the map failed"),
        }
    }
}

#[test]
fn a_deep_capture_is_ready_at_the_first_poll() {
    let mut pending = DeepCaptureRecorder::new().finish();
    pending.begin_readback();
    let capture = pending.poll().expect("nothing is read back");
    assert!(capture.draw_calls.is_empty());
    assert!(capture.buffer_contents.is_empty());
    assert!(capture.resources_finalized);
}
