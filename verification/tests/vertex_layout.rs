use texture_mapping::vertex::{
    packed_vertex_layout, rect_indices, rect_tex_coord_vertices, Format, VertexInputAttributeDescription,
    VertexInputBindingDescription, VertexInputRate, VertexV2, F32_ONE, F32_ZERO,
};

#[test]
fn binding_description_has_vertex_stride() {
    let b = VertexV2::get_binding_description();
    assert_eq!(
        b,
        [VertexInputBindingDescription { binding: 0, stride: 32, input_rate: VertexInputRate::Vertex }]
    );
}

#[test]
fn binding_stride_matches_float_vertex_size() {
    let b = VertexV2::get_binding_description();
    assert_eq!(b[0].stride as usize, std::mem::size_of::<[f32; 8]>());
}

#[test]
fn attribute_descriptions_are_packed() {
    let a = VertexV2::get_attribute_descriptions();
    assert_eq!(
        a,
        [
            VertexInputAttributeDescription { binding: 0, location: 0, format: Format::R32G32Sfloat, offset: 0 },
            VertexInputAttributeDescription { binding: 0, location: 1, format: Format::R32G32B32A32Sfloat, offset: 8 },
            VertexInputAttributeDescription { binding: 0, location: 2, format: Format::R32G32Sfloat, offset: 24 },
        ]
    );
}

#[test]
fn packed_layout_of_all_widths() {
    let (binding, attributes) = packed_vertex_layout(&[1, 2, 3, 4], 5);
    assert_eq!(binding, VertexInputBindingDescription { binding: 5, stride: 40, input_rate: VertexInputRate::Vertex });
    let formats: Vec<Format> = attributes.iter().map(|a| a.format).collect();
    assert_eq!(formats, vec![Format::R32Sfloat, Format::R32G32Sfloat, Format::R32G32B32Sfloat, Format::R32G32B32A32Sfloat]);
    let offsets: Vec<u32> = attributes.iter().map(|a| a.offset).collect();
    assert_eq!(offsets, vec![0, 4, 12, 24]);
    let locations: Vec<u32> = attributes.iter().map(|a| a.location).collect();
    assert_eq!(locations, vec![0, 1, 2, 3]);
    assert!(attributes.iter().all(|a| a.binding == 5));
}

#[test]
fn packed_layout_without_attributes() {
    let (binding, attributes) = packed_vertex_layout(&[], 0);
    assert_eq!(binding.stride, 0);
    assert!(attributes.is_empty());
}

#[test]
fn packed_attributes_are_contiguous() {
    let components = [2u32, 4, 2];
    let (binding, attributes) = packed_vertex_layout(&components, 0);
    for i in 0..attributes.len() {
        let end = attributes[i].offset + 4 * components[i];
        if i + 1 < attributes.len() {
            assert_eq!(end, attributes[i + 1].offset);
        } else {
            assert_eq!(end, binding.stride);
        }
    }
}

#[test]
fn rectangle_vertices_hold_the_corner_values() {
    let v = rect_tex_coord_vertices();
    let floats: Vec<([f32; 2], [f32; 4], [f32; 2])> = v
        .iter()
        .map(|x| {
            (
                x.pos.map(f32::from_bits),
                x.color.map(f32::from_bits),
                x.tex_coord.map(f32::from_bits),
            )
        })
        .collect();
    assert_eq!(floats[0], ([-0.75, -0.75], [1.0, 0.0, 0.0, 1.0], [1.0, 0.0]));
    assert_eq!(floats[1], ([0.75, -0.75], [0.0, 1.0, 0.0, 1.0], [0.0, 0.0]));
    assert_eq!(floats[2], ([0.75, 0.75], [0.0, 0.0, 1.0, 1.0], [0.0, 1.0]));
    assert_eq!(floats[3], ([-0.75, 0.75], [1.0, 1.0, 1.0, 1.0], [1.0, 1.0]));
    assert_eq!(f32::from_bits(F32_ONE), 1.0);
    assert_eq!(f32::from_bits(F32_ZERO), 0.0);
}

#[test]
fn rectangle_indices_name_its_vertices() {
    let i = rect_indices();
    assert_eq!(i, [0, 1, 2, 2, 3, 0]);
    let n = rect_tex_coord_vertices().len() as u32;
    assert!(i.iter().all(|&k| k < n));
}
