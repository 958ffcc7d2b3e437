//! Component-level checks: configuration derivation, pipeline descriptor
//! shape, the encoder state machine, and the queue's op log.

use triangle_frame::context::{create_instance, create_surface, open_device, select_adapter, Device};
use triangle_frame::data::{BufferUsages, DrawCall, Extent, SurfaceCaps, TextureFormat, WindowHandle};
use triangle_frame::error::InitError;
use triangle_frame::frame::{create_vertex_buffer, record_frame, CommandEncoder};
use triangle_frame::pipeline::{
    build_pipeline, color_target_state, pipeline_descriptor, ColorTargetState, PipelineBuildOutcome,
    VertexFormat, COLOR_WRITE_ALL,
};
use triangle_frame::submit::QueueOp;
use triangle_frame::surface::{create_view, SurfaceTexture};

fn caps_with_formats(codes: &[u32]) -> SurfaceCaps {
    let mut formats = Vec::new();
    for c in codes {
        formats.push(TextureFormat { code: *c });
    }
    SurfaceCaps { formats }
}

fn valid_window() -> WindowHandle {
    WindowHandle { valid: true, size: Extent { width: 640, height: 480 } }
}

#[test]
fn default_config_picks_first_supported_format() {
    let instance = create_instance();
    let surface = create_surface(&instance, &valid_window()).ok().unwrap();
    let adapter = select_adapter(&instance, &surface, Some(caps_with_formats(&[3, 1, 2])))
        .ok()
        .unwrap();
    let config = surface
        .get_default_config(&adapter, Extent { width: 640, height: 480 })
        .ok()
        .unwrap();
    assert_eq!(config.format, TextureFormat { code: 3 });
    assert_eq!(config.width, 640);
    assert_eq!(config.height, 480);
}

#[test]
fn adapter_incompatible_with_surface_yields_no_adapter() {
    let instance = create_instance();
    let surface = create_surface(&instance, &valid_window()).ok().unwrap();
    let r = select_adapter(&instance, &surface, None);
    assert_eq!(r.err().unwrap(), InitError::NoCompatibleAdapter);
}

#[test]
fn pipeline_color_target_equals_surface_format() {
    let instance = create_instance();
    let surface = create_surface(&instance, &valid_window()).ok().unwrap();
    let adapter = select_adapter(&instance, &surface, Some(caps_with_formats(&[11, 22])))
        .ok()
        .unwrap();
    let (device, _queue) = open_device(&adapter, true).ok().unwrap();
    let config = surface
        .get_default_config(&adapter, Extent { width: 640, height: 480 })
        .ok()
        .unwrap();
    let ct = color_target_state(&adapter);
    assert_eq!(ct.format, config.format);
    assert!(!ct.blend_enabled);
    assert_eq!(ct.write_mask, COLOR_WRITE_ALL);
    let pipeline = build_pipeline(&device, ct, PipelineBuildOutcome::Built).ok().unwrap();
    assert_eq!(pipeline.descriptor.color_targets.len(), 1);
    assert_eq!(pipeline.descriptor.color_targets[0].format, config.format);
}

#[test]
fn vertex_layout_is_fixed_whatever_the_data() {
    let ct_a = ColorTargetState {
        format: TextureFormat { code: 1 },
        blend_enabled: false,
        write_mask: COLOR_WRITE_ALL,
    };
    let ct_b = ColorTargetState {
        format: TextureFormat { code: 200 },
        blend_enabled: false,
        write_mask: COLOR_WRITE_ALL,
    };
    let pd_a = pipeline_descriptor(ct_a);
    let pd_b = pipeline_descriptor(ct_b);
    // two different literal data arrays: the buffers differ, the layout does not
    let device = Device {};
    let buf_a = create_vertex_buffer(&device, &vec![1, 2, 3, 4, 5, 6]);
    let buf_b = create_vertex_buffer(&device, &vec![60, 50, 40, 30, 20, 10]);
    assert_ne!(buf_a.words, buf_b.words);
    for pd in [&pd_a, &pd_b] {
        assert_eq!(pd.vertex_buffers.len(), 1);
        assert_eq!(pd.vertex_buffers[0].array_stride, 8);
        assert_eq!(pd.vertex_buffers[0].attributes.len(), 1);
        let attr = pd.vertex_buffers[0].attributes[0];
        assert_eq!(attr.format, VertexFormat::Float32x2);
        assert_eq!(attr.offset, 0);
        assert_eq!(attr.shader_location, 0);
    }
}

#[test]
fn buffer_is_created_with_vertex_and_copy_dst_usage() {
    let device = Device {};
    let buffer = create_vertex_buffer(&device, &vec![9, 8, 7, 6, 5, 4]);
    assert_eq!(buffer.usage, BufferUsages { vertex: true, copy_dst: true });
    assert_eq!(buffer.words, vec![9, 8, 7, 6, 5, 4]);
}

#[test]
fn recorded_frame_holds_exactly_one_triangle_draw() {
    let device = Device {};
    let ct = ColorTargetState {
        format: TextureFormat { code: 5 },
        blend_enabled: false,
        write_mask: COLOR_WRITE_ALL,
    };
    let pipeline = build_pipeline(&device, ct, PipelineBuildOutcome::Built).ok().unwrap();
    let view = create_view(&SurfaceTexture { format: TextureFormat { code: 5 } });
    let buffer = create_vertex_buffer(&device, &vec![0, 0, 0, 0, 0, 0]);
    let cb = record_frame(&device, &pipeline, &view, &buffer);
    assert!(!cb.submitted);
    assert_eq!(cb.draws.len(), 1);
    assert_eq!(
        cb.draws[0],
        DrawCall { first_vertex: 0, vertex_count: 3, first_instance: 0, instance_count: 1 }
    );
}

#[test]
fn encoder_requires_closed_pass_to_finish() {
    let device = Device {};
    let ct = ColorTargetState {
        format: TextureFormat { code: 4 },
        blend_enabled: false,
        write_mask: COLOR_WRITE_ALL,
    };
    let pipeline = build_pipeline(&device, ct, PipelineBuildOutcome::Built).ok().unwrap();
    let view = create_view(&SurfaceTexture { format: TextureFormat { code: 4 } });
    let buffer = create_vertex_buffer(&device, &vec![1, 1, 1, 1, 1, 1]);
    let mut encoder = CommandEncoder::new(&device);
    assert!(!encoder.pass_open);
    encoder.begin_render_pass(&view);
    assert!(encoder.pass_open);
    encoder.set_pipeline(&pipeline);
    encoder.set_vertex_buffer(0, &buffer);
    encoder.draw(0, 3, 0, 1);
    encoder.end_render_pass();
    assert!(!encoder.pass_open);
    let cb = encoder.finish();
    assert_eq!(cb.draws.len(), 1);
}

#[test]
fn encoder_records_across_sequential_passes() {
    let device = Device {};
    let ct = ColorTargetState {
        format: TextureFormat { code: 8 },
        blend_enabled: false,
        write_mask: COLOR_WRITE_ALL,
    };
    let pipeline = build_pipeline(&device, ct, PipelineBuildOutcome::Built).ok().unwrap();
    let view = create_view(&SurfaceTexture { format: TextureFormat { code: 8 } });
    let buffer = create_vertex_buffer(&device, &vec![2, 2, 2, 2, 2, 2]);
    let mut encoder = CommandEncoder::new(&device);
    encoder.begin_render_pass(&view);
    encoder.set_pipeline(&pipeline);
    encoder.set_vertex_buffer(0, &buffer);
    encoder.draw(0, 3, 0, 1);
    encoder.end_render_pass();
    encoder.begin_render_pass(&view);
    encoder.set_pipeline(&pipeline);
    encoder.set_vertex_buffer(0, &buffer);
    encoder.draw(0, 3, 0, 1);
    encoder.end_render_pass();
    let cb = encoder.finish();
    assert_eq!(cb.draws.len(), 2);
    assert_eq!(cb.draws[0], cb.draws[1]);
}

#[test]
fn submission_is_logged_after_the_upload_and_marks_the_buffer() {
    let instance = create_instance();
    let surface = create_surface(&instance, &valid_window()).ok().unwrap();
    let adapter = select_adapter(&instance, &surface, Some(caps_with_formats(&[2]))).ok().unwrap();
    let (device, mut queue) = open_device(&adapter, true).ok().unwrap();
    let mut buffer = create_vertex_buffer(&device, &vec![0, 0, 0, 0, 0, 0]);
    let ct = color_target_state(&adapter);
    let pipeline = build_pipeline(&device, ct, PipelineBuildOutcome::Built).ok().unwrap();
    let view = create_view(&SurfaceTexture { format: TextureFormat { code: 2 } });
    let mut cb = record_frame(&device, &pipeline, &view, &buffer);
    queue.write_buffer(&mut buffer, vec![10, 20, 30, 40, 50, 60]);
    assert_eq!(buffer.words, vec![10, 20, 30, 40, 50, 60]);
    assert!(!cb.submitted);
    queue.submit(&mut cb);
    assert!(cb.submitted);
    assert_eq!(queue.ops.len(), 2);
    assert!(matches!(queue.ops[0], QueueOp::WriteBuffer { .. }));
    assert!(matches!(queue.ops[1], QueueOp::Submit { .. }));
}
