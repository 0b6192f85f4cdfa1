//! Vertex data and the vertex-input layout the pipeline reads it with.
//!
//! A vertex is a run of 32-bit float attributes laid out one after the other.
//! Float values are held by their IEEE-754 bit patterns, so the layout logic
//! stays on integers.
use vstd::prelude::*;

verus! {

/// Size in bytes of one 32-bit float component.
pub const COMPONENT_BYTES: u32 = 4;

/// Bit pattern of the float `0.0`.
pub const F32_ZERO: u32 = 0x0000_0000;

/// Bit pattern of the float `1.0`.
pub const F32_ONE: u32 = 0x3F80_0000;

/// Bit pattern of the float `0.75`.
pub const F32_THREE_QUARTERS: u32 = 0x3F40_0000;

/// Bit pattern of the float `-0.75`.
pub const F32_MINUS_THREE_QUARTERS: u32 = 0xBF40_0000;

/// How a vertex buffer binding advances.
#[derive(Clone, Copy, Debug, PartialEq, Eq)]
pub enum VertexInputRate {
    Vertex,
    Instance,
}

/// The formats of float vectors of one to four components.
#[derive(Clone, Copy, Debug, PartialEq, Eq)]
pub enum Format {
    R32Sfloat,
    R32G32Sfloat,
    R32G32B32Sfloat,
    R32G32B32A32Sfloat,
}

/// One vertex buffer binding: its number, the bytes from one vertex to the next,
/// and its input rate.
#[derive(Clone, Copy, Debug, PartialEq, Eq)]
pub struct VertexInputBindingDescription {
    pub binding: u32,
    pub stride: u32,
    pub input_rate: VertexInputRate,
}

/// One vertex attribute: the binding it reads, its shader location, its format
/// and its byte offset inside a vertex.
#[derive(Clone, Copy, Debug, PartialEq, Eq)]
pub struct VertexInputAttributeDescription {
    pub binding: u32,
    pub location: u32,
    pub format: Format,
    pub offset: u32,
}

/// The float-vector format with `components` components.
pub open spec fn format_of(components: u32) -> Format
    recommends
        1 <= components <= 4,
{
    if components == 1 {
        Format::R32Sfloat
    } else if components == 2 {
        Format::R32G32Sfloat
    } else if components == 3 {
        Format::R32G32B32Sfloat
    } else {
        Format::R32G32B32A32Sfloat
    }
}

/// The number of components of a float-vector format.
pub open spec fn components_of(format: Format) -> int {
    match format {
        Format::R32Sfloat => 1,
        Format::R32G32Sfloat => 2,
        Format::R32G32B32Sfloat => 3,
        Format::R32G32B32A32Sfloat => 4,
    }
}

/// Byte offset of attribute `i` when the attributes with the given component
/// counts are packed one after another: the bytes of all attributes before it.
pub open spec fn packed_offset(components: Seq<u32>, i: int) -> int
    decreases i,
{
    if i <= 0 {
        0
    } else {
        packed_offset(components, i - 1) + COMPONENT_BYTES * components[i - 1]
    }
}

/// Every attribute has one to four float components.
pub open spec fn valid_components(components: Seq<u32>) -> bool {
    forall|i: int| 0 <= i < components.len() ==> 1 <= #[trigger] components[i] <= 4
}

/// The description of attribute `i` of a packed vertex read from `binding`.
pub open spec fn packed_attribute(components: Seq<u32>, binding: u32, i: int) -> VertexInputAttributeDescription {
    VertexInputAttributeDescription {
        binding,
        location: i as u32,
        format: format_of(components[i]),
        offset: packed_offset(components, i) as u32,
    }
}

/// Packed offsets grow with the index.
pub proof fn lemma_packed_offset_monotonic(components: Seq<u32>, i: int, j: int)
    requires
        0 <= i <= j <= components.len(),
    ensures
        packed_offset(components, i) <= packed_offset(components, j),
    decreases j - i,
{
    if i < j {
        lemma_packed_offset_monotonic(components, i, j - 1);
    }
}

/// The vertex stride of a packed vertex, and the descriptions of its attributes,
/// in order, all read from `binding`.
///
/// Attribute `i` gets location `i`, the format of its component count and the
/// offset of the bytes of all attributes before it; the stride is the bytes of
/// all attributes.
pub fn packed_vertex_layout(components: &[u32], binding: u32) -> (r: (
    VertexInputBindingDescription,
    Vec<VertexInputAttributeDescription>,
))
    requires
        valid_components(components@),
        packed_offset(components@, components@.len() as int) <= u32::MAX,
    ensures
        r.0 == (VertexInputBindingDescription {
            binding,
            stride: packed_offset(components@, components@.len() as int) as u32,
            input_rate: VertexInputRate::Vertex,
        }),
        r.1@.len() == components@.len(),
        forall|i: int|
            0 <= i < components@.len() ==> #[trigger] r.1@[i] == packed_attribute(
                components@,
                binding,
                i,
            ),
{
    let n = components.len();
    let mut attributes: Vec<VertexInputAttributeDescription> = Vec::new();
    let mut offset: u32 = 0;
    let mut i: usize = 0;
    while i < n
        invariant
            n == components@.len(),
            i <= n,
            valid_components(components@),
            packed_offset(components@, n as int) <= u32::MAX,
            offset == packed_offset(components@, i as int),
            attributes@.len() == i,
            forall|k: int|
                0 <= k < i ==> #[trigger] attributes@[k] == packed_attribute(components@, binding, k),
        decreases n - i,
    {
        let c = components[i];
        let format = if c == 1 {
            Format::R32Sfloat
        } else if c == 2 {
            Format::R32G32Sfloat
        } else if c == 3 {
            Format::R32G32B32Sfloat
        } else {
            Format::R32G32B32A32Sfloat
        };
        proof {
            lemma_packed_offset_monotonic(components@, i as int + 1, n as int);
            assert(n <= u32::MAX) by {
                // each attribute adds at least one byte
                lemma_packed_offset_at_least_index(components@, n as int);
            }
        }
        attributes.push(
            VertexInputAttributeDescription { binding, location: i as u32, format, offset },
        );
        offset = offset + COMPONENT_BYTES * c;
        i = i + 1;
    }
    (VertexInputBindingDescription { binding, stride: offset, input_rate: VertexInputRate::Vertex }, attributes)
}

/// With every attribute at least one component wide, the packed offset of
/// attribute `i` is at least `i`.
pub proof fn lemma_packed_offset_at_least_index(components: Seq<u32>, i: int)
    requires
        0 <= i <= components.len(),
        valid_components(components),
    ensures
        packed_offset(components, i) >= i,
    decreases i,
{
    if i > 0 {
        lemma_packed_offset_at_least_index(components, i - 1);
    }
}

/// The attributes of a packed vertex follow one another without gap or
/// overlap: each one's bytes end where the next one's begin, the first starts
/// at byte 0, and the last ends at the stride. Each has the width of its format.
pub proof fn law_packed_layout_is_contiguous(components: Seq<u32>, binding: u32)
    requires
        valid_components(components),
        packed_offset(components, components.len() as int) <= u32::MAX,
    ensures
        components.len() > 0 ==> packed_attribute(components, binding, 0).offset == 0,
        forall|i: int|
            0 <= i < components.len() ==> {
                let a = #[trigger] packed_attribute(components, binding, i);
                &&& a.offset + COMPONENT_BYTES * components_of(a.format) == packed_offset(
                    components,
                    i + 1,
                )
                &&& packed_offset(components, i + 1) <= packed_offset(
                    components,
                    components.len() as int,
                )
                &&& a.location == i
            },
{
    assert forall|i: int| 0 <= i < components.len() implies {
        let a = #[trigger] packed_attribute(components, binding, i);
        &&& a.offset + COMPONENT_BYTES * components_of(a.format) == packed_offset(components, i + 1)
        &&& packed_offset(components, i + 1) <= packed_offset(components, components.len() as int)
        &&& a.location == i
    } by {
        lemma_packed_offset_monotonic(components, i + 1, components.len() as int);
        lemma_packed_offset_monotonic(components, i, components.len() as int);
        lemma_packed_offset_monotonic(components, 0, i);
        lemma_packed_offset_at_least_index(components, components.len() as int);
        assert(1 <= components[i] <= 4);
        assert(packed_offset(components, i + 1) == packed_offset(components, i) + COMPONENT_BYTES
            * components[i]);
        assert(components_of(format_of(components[i])) == components[i]);
        assert(packed_offset(components, i) <= u32::MAX);
        assert(packed_attribute(components, binding, i).offset == packed_offset(components, i));
    }
}

/// A vertex with a 2D position, an RGBA color and a 2D texture coordinate, each
/// component a 32-bit float held by its bit pattern.
#[derive(Clone, Copy, Debug, PartialEq, Eq)]
pub struct VertexV2 {
    pub pos: [u32; 2],
    pub color: [u32; 4],
    pub tex_coord: [u32; 2],
}

/// The component counts of the attributes of `VertexV2`, in field order.
pub open spec fn vertex_v2_components() -> Seq<u32> {
    seq![2u32, 4u32, 2u32]
}

impl VertexV2 {
    /// The one vertex buffer binding of `VertexV2`: binding 0, advancing one
    /// vertex of 32 bytes at a time.
    pub fn get_binding_description() -> (r: [VertexInputBindingDescription; 1])
        ensures
            r[0] == (VertexInputBindingDescription {
                binding: 0,
                stride: 32,
                input_rate: VertexInputRate::Vertex,
            }),
            r[0].stride == packed_offset(vertex_v2_components(), 3),
    {
        let components: [u32; 3] = [2, 4, 2];
        proof {
            assert(components@ =~= vertex_v2_components());
            reveal_with_fuel(packed_offset, 4);
        }
        let (binding, _attributes) = packed_vertex_layout(&components, 0);
        [binding]
    }

    /// The attributes of `VertexV2` read from binding 0: the position at
    /// location 0 and offset 0, the color at location 1 and offset 8, the
    /// texture coordinate at location 2 and offset 24.
    pub fn get_attribute_descriptions() -> (r: [VertexInputAttributeDescription; 3])
        ensures
            r[0] == (VertexInputAttributeDescription {
                binding: 0,
                location: 0,
                format: Format::R32G32Sfloat,
                offset: 0,
            }),
            r[1] == (VertexInputAttributeDescription {
                binding: 0,
                location: 1,
                format: Format::R32G32B32A32Sfloat,
                offset: 8,
            }),
            r[2] == (VertexInputAttributeDescription {
                binding: 0,
                location: 2,
                format: Format::R32G32Sfloat,
                offset: 24,
            }),
            forall|i: int| 0 <= i < 3 ==> r[i] == packed_attribute(vertex_v2_components(), 0, i),
    {
        let components: [u32; 3] = [2, 4, 2];
        proof {
            assert(components@ =~= vertex_v2_components());
            reveal_with_fuel(packed_offset, 4);
        }
        let (_binding, attributes) = packed_vertex_layout(&components, 0);
        proof {
            assert(attributes@[0] == packed_attribute(vertex_v2_components(), 0, 0));
            assert(attributes@[1] == packed_attribute(vertex_v2_components(), 0, 1));
            assert(attributes@[2] == packed_attribute(vertex_v2_components(), 0, 2));
        }
        [attributes[0], attributes[1], attributes[2]]
    }
}


/// The corners of the rectangle, in order.
pub open spec fn rect_vertices_spec() -> Seq<VertexV2> {
    seq![
        VertexV2 {
            pos: [F32_MINUS_THREE_QUARTERS, F32_MINUS_THREE_QUARTERS],
            color: [F32_ONE, F32_ZERO, F32_ZERO, F32_ONE],
            tex_coord: [F32_ONE, F32_ZERO],
        },
        VertexV2 {
            pos: [F32_THREE_QUARTERS, F32_MINUS_THREE_QUARTERS],
            color: [F32_ZERO, F32_ONE, F32_ZERO, F32_ONE],
            tex_coord: [F32_ZERO, F32_ZERO],
        },
        VertexV2 {
            pos: [F32_THREE_QUARTERS, F32_THREE_QUARTERS],
            color: [F32_ZERO, F32_ZERO, F32_ONE, F32_ONE],
            tex_coord: [F32_ZERO, F32_ONE],
        },
        VertexV2 {
            pos: [F32_MINUS_THREE_QUARTERS, F32_THREE_QUARTERS],
            color: [F32_ONE, F32_ONE, F32_ONE, F32_ONE],
            tex_coord: [F32_ONE, F32_ONE],
        },
    ]
}

/// The sign of a coordinate of the rectangle: -1 for -0.75, 1 for 0.75.
pub open spec fn corner_sign(bits: u32) -> int {
    if bits == F32_MINUS_THREE_QUARTERS {
        -1
    } else {
        1
    }
}

/// Twice the signed area of the triangle on corners `a`, `b`, `c` of the
/// rectangle, in units of 0.75: its sign is the triangle's winding.
pub open spec fn winding(a: VertexV2, b: VertexV2, c: VertexV2) -> int {
    (corner_sign(b.pos[0]) - corner_sign(a.pos[0])) * (corner_sign(c.pos[1]) - corner_sign(a.pos[1]))
        - (corner_sign(b.pos[1]) - corner_sign(a.pos[1])) * (corner_sign(c.pos[0]) - corner_sign(
        a.pos[0],
    ))
}

/// The vertices are the four corners of a square centred on the origin,
/// 0.75 from it on each axis, each corner once; the texture is mapped onto
/// it whole and flipped horizontally (texture u is 1 exactly on the
/// negative-x corners, v is 1 exactly on the positive-y corners); every
/// color is opaque, with components 0 or 1, and no two corners share one.
pub proof fn law_vertices_are_a_textured_square()
    ensures
        rect_vertices_spec().len() == 4,
        forall|k: int|
            0 <= k < 4 ==> {
                let v = #[trigger] rect_vertices_spec()[k];
                &&& (v.pos[0] == F32_THREE_QUARTERS || v.pos[0] == F32_MINUS_THREE_QUARTERS)
                &&& (v.pos[1] == F32_THREE_QUARTERS || v.pos[1] == F32_MINUS_THREE_QUARTERS)
                &&& (v.tex_coord[0] == F32_ONE <==> v.pos[0] == F32_MINUS_THREE_QUARTERS)
                &&& (v.tex_coord[0] == F32_ZERO <==> v.pos[0] == F32_THREE_QUARTERS)
                &&& (v.tex_coord[1] == F32_ONE <==> v.pos[1] == F32_THREE_QUARTERS)
                &&& (v.tex_coord[1] == F32_ZERO <==> v.pos[1] == F32_MINUS_THREE_QUARTERS)
                &&& v.color[3] == F32_ONE
                &&& forall|c: int| 0 <= c < 3 ==> (v.color[c] == F32_ZERO || v.color[c] == F32_ONE)
            },
        forall|k1: int, k2: int|
            0 <= k1 < 4 && 0 <= k2 < 4 && k1 != k2 ==> (#[trigger] rect_vertices_spec()[k1]).pos
                != (#[trigger] rect_vertices_spec()[k2]).pos && rect_vertices_spec()[k1].color
                != rect_vertices_spec()[k2].color,
{
    let vs = rect_vertices_spec();
    assert forall|k: int| 0 <= k < 4 implies {
        let v = #[trigger] rect_vertices_spec()[k];
        &&& (v.pos[0] == F32_THREE_QUARTERS || v.pos[0] == F32_MINUS_THREE_QUARTERS)
        &&& (v.pos[1] == F32_THREE_QUARTERS || v.pos[1] == F32_MINUS_THREE_QUARTERS)
        &&& (v.tex_coord[0] == F32_ONE <==> v.pos[0] == F32_MINUS_THREE_QUARTERS)
        &&& (v.tex_coord[0] == F32_ZERO <==> v.pos[0] == F32_THREE_QUARTERS)
        &&& (v.tex_coord[1] == F32_ONE <==> v.pos[1] == F32_THREE_QUARTERS)
        &&& (v.tex_coord[1] == F32_ZERO <==> v.pos[1] == F32_MINUS_THREE_QUARTERS)
        &&& v.color[3] == F32_ONE
        &&& forall|c: int| 0 <= c < 3 ==> (v.color[c] == F32_ZERO || v.color[c] == F32_ONE)
    } by {
        let v = vs[k];
        assert(v.color@ =~= seq![v.color[0], v.color[1], v.color[2], v.color[3]]);
    }
    assert forall|k1: int, k2: int|
        0 <= k1 < 4 && 0 <= k2 < 4 && k1 != k2 implies (#[trigger] rect_vertices_spec()[k1]).pos
        != (#[trigger] rect_vertices_spec()[k2]).pos && rect_vertices_spec()[k1].color
        != rect_vertices_spec()[k2].color by {
        let a = vs[k1];
        let b = vs[k2];
        assert(a.pos[0] != b.pos[0] || a.pos[1] != b.pos[1]);
        assert(a.color[0] != b.color[0] || a.color[1] != b.color[1] || a.color[2] != b.color[2]);
    }
}

/// The indices make the square from two triangles: every index names one of
/// the four corners and every corner is used; each triangle has three
/// different corners; the two triangles share exactly one diagonal (two
/// corners); and they wind the same way, so the pipeline culls both or
/// neither.
pub proof fn law_indices_make_the_square()
    ensures
        rect_indices_spec().len() == 6,
        forall|k: int| 0 <= k < 6 ==> #[trigger] rect_indices_spec()[k] < 4,
        forall|c: u32| c < 4 ==> #[trigger] rect_indices_spec().contains(c),
        forall|t: int|
            0 <= t < 2 ==> rect_indices_spec()[3 * t] != rect_indices_spec()[3 * t + 1]
                && rect_indices_spec()[3 * t + 1] != rect_indices_spec()[3 * t + 2]
                && rect_indices_spec()[3 * t] != #[trigger] rect_indices_spec()[3 * t + 2],
        rect_indices_spec().subrange(0, 3).filter(|c: u32| rect_indices_spec().subrange(3, 6).contains(c)).len()
            == 2,
        ({
            let vs = rect_vertices_spec();
            let ix = rect_indices_spec();
            &&& winding(vs[ix[0] as int], vs[ix[1] as int], vs[ix[2] as int]) == winding(
                vs[ix[3] as int],
                vs[ix[4] as int],
                vs[ix[5] as int],
            )
            &&& winding(vs[ix[0] as int], vs[ix[1] as int], vs[ix[2] as int]) != 0
        }),
{
    let ix = rect_indices_spec();
    assert forall|c: u32| c < 4 implies #[trigger] rect_indices_spec().contains(c) by {
        if c == 0 {
            assert(ix[0] == c);
        } else if c == 1 {
            assert(ix[1] == c);
        } else if c == 2 {
            assert(ix[2] == c);
        } else {
            assert(ix[4] == c);
        }
    }
    assert forall|t: int| 0 <= t < 2 implies ix[3 * t] != ix[3 * t + 1] && ix[3 * t + 1] != ix[3 * t
        + 2] && ix[3 * t] != #[trigger] ix[3 * t + 2] by {
        if t == 0 {
        } else {
            assert(3 * t == 3);
        }
    }
    let first = ix.subrange(0, 3);
    let second = ix.subrange(3, 6);
    assert(first =~= seq![0u32, 1u32, 2u32]);
    assert(second =~= seq![2u32, 3u32, 0u32]);
    reveal_with_fuel(Seq::filter, 4);
    assert(second.contains(0u32)) by {
        assert(second[2] == 0u32);
    }
    assert(second.contains(2u32)) by {
        assert(second[0] == 2u32);
    }
    assert(!second.contains(1u32));
    assert(first.filter(|c: u32| second.contains(c)) =~= seq![0u32, 2u32]);
    let vs = rect_vertices_spec();
    assert(corner_sign(vs[0].pos[0]) == -1 && corner_sign(vs[0].pos[1]) == -1);
    assert(corner_sign(vs[1].pos[0]) == 1 && corner_sign(vs[1].pos[1]) == -1);
    assert(corner_sign(vs[2].pos[0]) == 1 && corner_sign(vs[2].pos[1]) == 1);
    assert(corner_sign(vs[3].pos[0]) == -1 && corner_sign(vs[3].pos[1]) == 1);
    assert(winding(vs[0], vs[1], vs[2]) == 4);
    assert(winding(vs[2], vs[3], vs[0]) == 4);
}

/// The four corners of the textured rectangle: positions at plus or minus 0.75,
/// red, green, blue and white, and texture coordinates that flip the image
/// horizontally.
pub fn rect_tex_coord_vertices() -> (r: [VertexV2; 4])
    ensures
        r@ == rect_vertices_spec(),
        r[0] == (VertexV2 {
            pos: [F32_MINUS_THREE_QUARTERS, F32_MINUS_THREE_QUARTERS],
            color: [F32_ONE, F32_ZERO, F32_ZERO, F32_ONE],
            tex_coord: [F32_ONE, F32_ZERO],
        }),
        r[1] == (VertexV2 {
            pos: [F32_THREE_QUARTERS, F32_MINUS_THREE_QUARTERS],
            color: [F32_ZERO, F32_ONE, F32_ZERO, F32_ONE],
            tex_coord: [F32_ZERO, F32_ZERO],
        }),
        r[2] == (VertexV2 {
            pos: [F32_THREE_QUARTERS, F32_THREE_QUARTERS],
            color: [F32_ZERO, F32_ZERO, F32_ONE, F32_ONE],
            tex_coord: [F32_ZERO, F32_ONE],
        }),
        r[3] == (VertexV2 {
            pos: [F32_MINUS_THREE_QUARTERS, F32_THREE_QUARTERS],
            color: [F32_ONE, F32_ONE, F32_ONE, F32_ONE],
            tex_coord: [F32_ONE, F32_ONE],
        }),
{
    let r = [
        VertexV2 {
            pos: [F32_MINUS_THREE_QUARTERS, F32_MINUS_THREE_QUARTERS],
            color: [F32_ONE, F32_ZERO, F32_ZERO, F32_ONE],
            tex_coord: [F32_ONE, F32_ZERO],
        },
        VertexV2 {
            pos: [F32_THREE_QUARTERS, F32_MINUS_THREE_QUARTERS],
            color: [F32_ZERO, F32_ONE, F32_ZERO, F32_ONE],
            tex_coord: [F32_ZERO, F32_ZERO],
        },
        VertexV2 {
            pos: [F32_THREE_QUARTERS, F32_THREE_QUARTERS],
            color: [F32_ZERO, F32_ZERO, F32_ONE, F32_ONE],
            tex_coord: [F32_ZERO, F32_ONE],
        },
        VertexV2 {
            pos: [F32_MINUS_THREE_QUARTERS, F32_THREE_QUARTERS],
            color: [F32_ONE, F32_ONE, F32_ONE, F32_ONE],
            tex_coord: [F32_ONE, F32_ONE],
        },
    ];
    assert(r@ =~= rect_vertices_spec());
    r
}

/// The indices of the rectangle's two triangles, (0, 1, 2) and (2, 3, 0).
pub open spec fn rect_indices_spec() -> Seq<u32> {
    seq![0u32, 1u32, 2u32, 2u32, 3u32, 0u32]
}

/// The indices of the two triangles that make up the rectangle.
pub fn rect_indices() -> (r: [u32; 6])
    ensures
        r@ == rect_indices_spec(),
{
    let r: [u32; 6] = [0, 1, 2, 2, 3, 0];
    assert(r@ =~= rect_indices_spec());
    r
}

} // verus!
