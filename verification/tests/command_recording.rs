use texture_mapping::descriptor::{create_descriptor_set_writes, uniform_upload, DescriptorResource};
use texture_mapping::commands::{
    create_command_buffer_recordings, record_command_buffer, Command, Extent2D, IndexType,
};

#[test]
fn recording_draws_rectangle_on_its_framebuffer() {
    let extent = Extent2D { width: 800, height: 600 };
    let r = record_command_buffer(1, extent);
    assert_eq!(
        r,
        vec![
            Command::Begin { simultaneous_use: true },
            Command::BeginRenderPass {
                framebuffer: 1,
                offset_x: 0,
                offset_y: 0,
                extent,
                clear_color: [0, 0, 0, 0x3F80_0000],
            },
            Command::BindGraphicsPipeline,
            Command::BindVertexBuffer { first_binding: 0, offset: 0 },
            Command::BindIndexBuffer { offset: 0, index_type: IndexType::Uint32 },
            Command::BindDescriptorSet { first_set: 0, set: 1 },
            Command::DrawIndexed { index_count: 6, instance_count: 1, first_index: 0, vertex_offset: 0, first_instance: 0 },
            Command::EndRenderPass,
            Command::End,
        ]
    );
}

#[test]
fn clear_color_is_opaque_black() {
    let r = record_command_buffer(0, Extent2D { width: 1, height: 1 });
    match r[1] {
        Command::BeginRenderPass { clear_color, .. } => {
            assert_eq!(clear_color.map(f32::from_bits), [0.0, 0.0, 0.0, 1.0]);
        }
        _ => panic!("render pass expected"),
    }
}

#[test]
fn one_recording_per_framebuffer() {
    let extent = Extent2D { width: 640, height: 480 };
    let all = create_command_buffer_recordings(3, 3, extent);
    assert_eq!(all.len(), 3);
    for (i, r) in all.iter().enumerate() {
        assert_eq!(r, &record_command_buffer(i, extent));
    }
    assert!(create_command_buffer_recordings(0, 2, extent).is_empty());
}

#[test]
fn image_reads_its_own_transform() {
    let extent = Extent2D { width: 800, height: 600 };
    let writes = create_descriptor_set_writes(3, 3);
    for i in 0..3usize {
        let r = record_command_buffer(i, extent);
        assert_eq!(r[5], Command::BindDescriptorSet { first_set: 0, set: i });
        let upload = uniform_upload(i, 3);
        assert_eq!(
            writes[i][0].resource,
            DescriptorResource::UniformBuffer { buffer: upload.memory, offset: upload.offset, range: upload.size }
        );
    }
}
