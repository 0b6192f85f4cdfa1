//! What each command buffer records: one render pass over its framebuffer
//! that draws the textured rectangle with its own descriptor set.
use vstd::prelude::*;
use crate::vertex::{rect_indices, rect_indices_spec, F32_ONE, F32_ZERO};
use crate::descriptor::{set_writes, upload_for, DescriptorResource};

verus! {

/// A width and height in pixels.
#[derive(Clone, Copy, Debug, PartialEq, Eq)]
pub struct Extent2D {
    pub width: u32,
    pub height: u32,
}

/// The width of the indices in the index buffer.
#[derive(Clone, Copy, Debug, PartialEq, Eq)]
pub enum IndexType {
    Uint16,
    Uint32,
}

/// One recorded command. Buffers, pipelines and sets are those of the
/// renderer; a framebuffer or descriptor set is named by its index.
#[derive(Clone, Copy, Debug, PartialEq, Eq)]
pub enum Command {
    /// Begin recording; the buffer may be pending on several submissions at once
    /// when `simultaneous_use` holds.
    Begin { simultaneous_use: bool },
    /// Begin the render pass on a framebuffer, over the area at the offset with
    /// the extent, clearing to a color given by the bit patterns of its four
    /// float components; the pass's commands are recorded inline.
    BeginRenderPass {
        framebuffer: usize,
        offset_x: i32,
        offset_y: i32,
        extent: Extent2D,
        clear_color: [u32; 4],
    },
    /// Bind the graphics pipeline.
    BindGraphicsPipeline,
    /// Bind the vertex buffer to the first binding, from the offset.
    BindVertexBuffer { first_binding: u32, offset: u64 },
    /// Bind the index buffer from the offset, with this index width.
    BindIndexBuffer { offset: u64, index_type: IndexType },
    /// Bind a descriptor set, as set number `first_set` of the pipeline layout.
    BindDescriptorSet { first_set: u32, set: usize },
    /// Draw indexed triangles.
    DrawIndexed {
        index_count: u32,
        instance_count: u32,
        first_index: u32,
        vertex_offset: i32,
        first_instance: u32,
    },
    /// End the render pass.
    EndRenderPass,
    /// End recording.
    End,
}

/// The number of indices of the rectangle.
pub open spec fn rect_index_count() -> u32 {
    6
}

/// The commands of command buffer `i`: it begins for simultaneous use, runs
/// the render pass over all of framebuffer `i` cleared to opaque black, binds
/// the pipeline, the vertex buffer, the 32-bit index buffer and descriptor set
/// `i`, draws all indices of the rectangle once, and ends.
pub open spec fn recording(i: usize, extent: Extent2D) -> Seq<Command> {
    seq![
        Command::Begin { simultaneous_use: true },
        Command::BeginRenderPass {
            framebuffer: i,
            offset_x: 0,
            offset_y: 0,
            extent,
            clear_color: [F32_ZERO, F32_ZERO, F32_ZERO, F32_ONE],
        },
        Command::BindGraphicsPipeline,
        Command::BindVertexBuffer { first_binding: 0, offset: 0 },
        Command::BindIndexBuffer { offset: 0, index_type: IndexType::Uint32 },
        Command::BindDescriptorSet { first_set: 0, set: i },
        Command::DrawIndexed {
            index_count: rect_index_count(),
            instance_count: 1,
            first_index: 0,
            vertex_offset: 0,
            first_instance: 0,
        },
        Command::EndRenderPass,
        Command::End,
    ]
}

/// The commands of command buffer `i`.
pub fn record_command_buffer(i: usize, extent: Extent2D) -> (r: Vec<Command>)
    ensures
        r@ == recording(i, extent),
{
    let indices = rect_indices();
    let index_count = indices.len() as u32;
    let r = vec![
        Command::Begin { simultaneous_use: true },
        Command::BeginRenderPass {
            framebuffer: i,
            offset_x: 0,
            offset_y: 0,
            extent,
            clear_color: [F32_ZERO, F32_ZERO, F32_ZERO, F32_ONE],
        },
        Command::BindGraphicsPipeline,
        Command::BindVertexBuffer { first_binding: 0, offset: 0 },
        Command::BindIndexBuffer { offset: 0, index_type: IndexType::Uint32 },
        Command::BindDescriptorSet { first_set: 0, set: i },
        Command::DrawIndexed {
            index_count,
            instance_count: 1,
            first_index: 0,
            vertex_offset: 0,
            first_instance: 0,
        },
        Command::EndRenderPass,
        Command::End,
    ];
    assert(r@ =~= recording(i, extent));
    r
}

/// The recordings of one command buffer per framebuffer; buffer `i` uses
/// framebuffer `i` and descriptor set `i`, so there must be a descriptor set
/// for every framebuffer.
pub fn create_command_buffer_recordings(
    framebuffer_count: usize,
    descriptor_set_count: usize,
    extent: Extent2D,
) -> (r: Vec<Vec<Command>>)
    requires
        framebuffer_count <= descriptor_set_count,
    ensures
        r@.len() == framebuffer_count,
        forall|i: int| 0 <= i < framebuffer_count ==> #[trigger] r@[i]@ == recording(i as usize, extent),
{
    let mut recordings: Vec<Vec<Command>> = Vec::new();
    let mut i: usize = 0;
    while i < framebuffer_count
        invariant
            i <= framebuffer_count,
            recordings@.len() == i,
            forall|k: int| 0 <= k < i ==> #[trigger] recordings@[k]@ == recording(k as usize, extent),
        decreases framebuffer_count - i,
    {
        recordings.push(record_command_buffer(i, extent));
        i = i + 1;
    }
    recordings
}

/// Each recording is bracketed: it begins first and ends last, the render pass
/// on the buffer's own framebuffer opens before anything is bound and closes
/// after the one draw, the draw comes after the pipeline, both buffers and the
/// buffer's own descriptor set are bound, and it draws every index of the
/// rectangle, each of which names one of its four vertices.
pub proof fn law_recording_draws_the_rectangle(i: usize, extent: Extent2D)
    ensures
        (recording(i, extent)[0] is Begin),
        (recording(i, extent).last() is End),
        opens_pass_on(recording(i, extent)[1], i),
        (recording(i, extent)[recording(i, extent).len() - 2] is EndRenderPass),
        forall|k: int|
            1 < k < recording(i, extent).len() - 2 ==> inside_pass(#[trigger] recording(i, extent)[k]),
        (exists|p: int, v: int, x: int, s: int, d: int|
            1 < p < d && 1 < v < d && 1 < x < d && 1 < s < d && d < recording(i, extent).len() - 2
                && (#[trigger] recording(i, extent)[p] is BindGraphicsPipeline)
                && (#[trigger] recording(i, extent)[v] is BindVertexBuffer)
                && (#[trigger] recording(i, extent)[x] is BindIndexBuffer)
                && binds_set(#[trigger] recording(i, extent)[s], i)
                && draws_rectangle(#[trigger] recording(i, extent)[d])),
        rect_index_count() == rect_indices_spec().len(),
        forall|k: int|
            0 <= k < rect_indices_spec().len() ==> #[trigger] rect_indices_spec()[k] < 4,
{
    let r = recording(i, extent);
    assert(r[2] is BindGraphicsPipeline);
    assert(r[3] is BindVertexBuffer);
    assert(r[4] is BindIndexBuffer);
    assert(binds_set(r[5], i));
    assert(draws_rectangle(r[6]));
}

/// What image `i` draws with is what was written for it: its command buffer
/// binds descriptor set `i`, whose uniform binding reads exactly the bytes of
/// uniform buffer `i` that the transform upload for image `i` writes.
pub proof fn law_image_reads_its_own_transform(i: usize, extent: Extent2D)
    ensures
        binds_set(recording(i, extent)[5], i),
        set_writes(i)[0].resource == (DescriptorResource::UniformBuffer {
            buffer: upload_for(i).memory,
            offset: upload_for(i).offset,
            range: upload_for(i).size,
        }),
{
}

/// Bytes of one index of the given width.
pub open spec fn index_type_bytes(t: IndexType) -> nat {
    match t {
        IndexType::Uint16 => 2,
        IndexType::Uint32 => 4,
    }
}

/// Every command buffer reads its buffers as the data in them is laid out:
/// it binds the index buffer exactly once, before the draw, from its start,
/// with indices as wide as the `u32` index data; it binds the vertex buffer
/// to binding 0, the one binding of the vertex layout, from its start; it
/// binds only its own descriptor set, as set 0 of the layout; it begins for
/// simultaneous use and clears to opaque black over the whole extent.
pub proof fn law_buffers_are_read_as_laid_out(i: usize, extent: Extent2D)
    ensures
        forall|k: int|
            0 <= k < recording(i, extent).len() ==> ((#[trigger] recording(i, extent)[k]) matches Command::BindIndexBuffer {
                offset,
                index_type,
            } ==> offset == 0 && index_type_bytes(index_type) == vstd::layout::size_of::<u32>()),
        forall|k: int|
            0 <= k < recording(i, extent).len() ==> ((#[trigger] recording(i, extent)[k]) matches Command::BindVertexBuffer {
                first_binding,
                offset,
            } ==> first_binding == 0 && offset == 0),
        forall|k: int|
            0 <= k < recording(i, extent).len() ==> ((#[trigger] recording(i, extent)[k]) matches Command::BindDescriptorSet {
                first_set,
                set,
            } ==> first_set == 0 && set == i),
        forall|k: int|
            0 <= k < recording(i, extent).len() ==> ((#[trigger] recording(i, extent)[k]) matches Command::Begin {
                simultaneous_use,
            } ==> simultaneous_use),
        forall|k: int|
            0 <= k < recording(i, extent).len() ==> ((#[trigger] recording(i, extent)[k]) matches Command::BeginRenderPass {
                framebuffer,
                offset_x,
                offset_y,
                extent: area,
                clear_color,
            } ==> framebuffer == i && offset_x == 0 && offset_y == 0 && area == extent
                && clear_color@ == seq![F32_ZERO, F32_ZERO, F32_ZERO, F32_ONE]),
        (exists|k: int, d: int|
            0 <= k < d < recording(i, extent).len() && (#[trigger] recording(i, extent)[k] is BindIndexBuffer)
                && (#[trigger] recording(i, extent)[d] is DrawIndexed)),
        forall|k1: int, k2: int|
            0 <= k1 < recording(i, extent).len() && 0 <= k2 < recording(i, extent).len()
                && (#[trigger] recording(i, extent)[k1] is BindIndexBuffer)
                && (#[trigger] recording(i, extent)[k2] is BindIndexBuffer) ==> k1 == k2,
{
    broadcast use vstd::layout::layout_of_primitives;

    let r = recording(i, extent);
    assert(vstd::layout::size_of::<u32>() == 4);
    assert forall|k: int| 0 <= k < r.len() implies ((#[trigger] r[k]) matches Command::BeginRenderPass {
        framebuffer,
        offset_x,
        offset_y,
        extent: area,
        clear_color,
    } ==> framebuffer == i && offset_x == 0 && offset_y == 0 && area == extent && clear_color@ == seq![
        F32_ZERO,
        F32_ZERO,
        F32_ZERO,
        F32_ONE,
    ]) by {
        if k == 1 {
            assert([F32_ZERO, F32_ZERO, F32_ZERO, F32_ONE]@ =~= seq![F32_ZERO, F32_ZERO, F32_ZERO, F32_ONE]);
        }
    }
    assert(r[4] is BindIndexBuffer && r[6] is DrawIndexed);
}

/// The command opens the render pass on framebuffer `i`.
pub open spec fn opens_pass_on(c: Command, i: usize) -> bool {
    c matches Command::BeginRenderPass { framebuffer, .. } && framebuffer == i
}

/// The command belongs inside a render pass: it neither opens nor closes a
/// pass nor begins nor ends the recording.
pub open spec fn inside_pass(c: Command) -> bool {
    !(c is BeginRenderPass) && !(c is EndRenderPass) && !(c is Begin) && !(c is End)
}

/// The command binds descriptor set `i` as the layout's set 0.
pub open spec fn binds_set(c: Command, i: usize) -> bool {
    c == Command::BindDescriptorSet { first_set: 0, set: i }
}

/// The command draws all indices of the rectangle, once, from the start.
pub open spec fn draws_rectangle(c: Command) -> bool {
    c == Command::DrawIndexed {
        index_count: rect_index_count(),
        instance_count: 1,
        first_index: 0,
        vertex_offset: 0,
        first_instance: 0,
    }
}


} // verus!
