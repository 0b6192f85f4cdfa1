use texture_mapping::descriptor::{
    create_descriptor_pool_plan, create_descriptor_set_layout_bindings, create_descriptor_set_writes,
    set_layouts_for, uniform_upload, DescriptorPoolSize, DescriptorResource, DescriptorSetLayoutBinding,
    DescriptorType, ShaderStage, UniformUpload, UNIFORM_BUFFER_OBJECT_SIZE,
};

#[test]
fn layout_has_uniform_and_sampler_bindings() {
    assert_eq!(
        create_descriptor_set_layout_bindings(),
        [
            DescriptorSetLayoutBinding {
                binding: 0,
                descriptor_type: DescriptorType::UniformBuffer,
                descriptor_count: 1,
                stage: ShaderStage::Vertex,
            },
            DescriptorSetLayoutBinding {
                binding: 1,
                descriptor_type: DescriptorType::CombinedImageSampler,
                descriptor_count: 1,
                stage: ShaderStage::Fragment,
            },
        ]
    );
}

#[test]
fn pool_holds_one_set_per_image() {
    let p = create_descriptor_pool_plan(3);
    assert_eq!(p.max_sets, 3);
    assert_eq!(
        p.pool_sizes,
        [
            DescriptorPoolSize { descriptor_type: DescriptorType::UniformBuffer, descriptor_count: 3 },
            DescriptorPoolSize { descriptor_type: DescriptorType::CombinedImageSampler, descriptor_count: 3 },
        ]
    );
}

#[test]
fn pool_counts_truncate_to_32_bits() {
    let p = create_descriptor_pool_plan(((1u64 << 32) + 5) as usize);
    assert_eq!(p.max_sets, 5);
    assert_eq!(p.pool_sizes[0].descriptor_count, 5);
}

#[test]
fn pool_agrees_with_layout_and_writes() {
    let n = 4;
    let layout = create_descriptor_set_layout_bindings();
    let pool = create_descriptor_pool_plan(n);
    let writes = create_descriptor_set_writes(n, n);
    for size in pool.pool_sizes {
        let per_set: u32 = layout
            .iter()
            .filter(|b| b.descriptor_type == size.descriptor_type)
            .map(|b| b.descriptor_count)
            .sum();
        assert_eq!(size.descriptor_count, n as u32 * per_set);
    }
    for (i, pair) in writes.iter().enumerate() {
        for (k, w) in pair.iter().enumerate() {
            assert_eq!(w.set, i);
            assert_eq!(w.binding, layout[k].binding);
            assert_eq!(w.descriptor_type, layout[k].descriptor_type);
        }
    }
}

#[test]
fn each_set_reads_its_own_uniform_buffer() {
    let writes = create_descriptor_set_writes(3, 5);
    assert_eq!(writes.len(), 3);
    for (i, pair) in writes.iter().enumerate() {
        assert_eq!(
            pair[0].resource,
            DescriptorResource::UniformBuffer { buffer: i, offset: 0, range: 192 }
        );
        assert_eq!(pair[1].resource, DescriptorResource::TextureSampler);
        assert_eq!(pair[1].binding, 1);
        assert_eq!(pair[0].array_element, 0);
        assert_eq!(pair[0].descriptor_count, 1);
    }
}

#[test]
fn no_sets_no_writes() {
    assert!(create_descriptor_set_writes(0, 0).is_empty());
}

#[test]
fn set_layouts_repeat_the_layout() {
    assert_eq!(set_layouts_for(7u64, 3), vec![7, 7, 7]);
    assert!(set_layouts_for(7u64, 0).is_empty());
}

#[test]
fn uniform_object_is_three_float_matrices() {
    assert_eq!(UNIFORM_BUFFER_OBJECT_SIZE as usize, 3 * std::mem::size_of::<[[f32; 4]; 4]>());
    assert_eq!(
        uniform_upload(2, 3),
        UniformUpload { memory: 2, offset: 0, size: 192, align: 4 }
    );
}
