//! The shader resources: one uniform buffer for the transform, read by the
//! vertex shader, and one combined image sampler for the texture, read by the
//! fragment shader. The set layout, the pool the sets come from, and the
//! writes that point each set at its resources are planned here.
use vstd::prelude::*;

verus! {

/// Bytes in one 4x4 matrix of 32-bit floats.
pub const MATRIX4_BYTES: u64 = 64;

/// Bytes in the uniform buffer object: the model, view and projection matrices.
pub const UNIFORM_BUFFER_OBJECT_SIZE: u64 = 3 * MATRIX4_BYTES;

/// Alignment in bytes of the uniform buffer object (that of a 32-bit float).
pub const UNIFORM_BUFFER_OBJECT_ALIGN: u64 = 4;

/// The kinds of descriptors in use.
#[derive(Clone, Copy, Debug, PartialEq, Eq)]
pub enum DescriptorType {
    UniformBuffer,
    CombinedImageSampler,
}

/// The shader stages that read a descriptor.
#[derive(Clone, Copy, Debug, PartialEq, Eq)]
pub enum ShaderStage {
    Vertex,
    Fragment,
}

/// One binding of the descriptor set layout.
#[derive(Clone, Copy, Debug, PartialEq, Eq)]
pub struct DescriptorSetLayoutBinding {
    pub binding: u32,
    pub descriptor_type: DescriptorType,
    pub descriptor_count: u32,
    pub stage: ShaderStage,
}

/// How many descriptors of one type a pool holds.
#[derive(Clone, Copy, Debug, PartialEq, Eq)]
pub struct DescriptorPoolSize {
    pub descriptor_type: DescriptorType,
    pub descriptor_count: u32,
}

/// A descriptor pool: the most sets it hands out and its descriptors by type.
#[derive(Clone, Copy, Debug, PartialEq, Eq)]
pub struct DescriptorPoolPlan {
    pub max_sets: u32,
    pub pool_sizes: [DescriptorPoolSize; 2],
}

/// What a descriptor is pointed at.
#[derive(Clone, Copy, Debug, PartialEq, Eq)]
pub enum DescriptorResource {
    /// The uniform buffer with this index, from `offset`, `range` bytes.
    UniformBuffer { buffer: usize, offset: u64, range: u64 },
    /// The texture's image view and sampler, in the shader-read-only layout.
    TextureSampler,
}

/// One write into a descriptor set: the set (by index among the allocated
/// sets), the binding and array element, how many descriptors, their type and
/// what they point at.
#[derive(Clone, Copy, Debug, PartialEq, Eq)]
pub struct DescriptorWrite {
    pub set: usize,
    pub binding: u32,
    pub array_element: u32,
    pub descriptor_count: u32,
    pub descriptor_type: DescriptorType,
    pub resource: DescriptorResource,
}

/// The bindings of the set layout: binding 0 a uniform buffer for the vertex
/// stage, binding 1 a combined image sampler for the fragment stage.
pub open spec fn layout_bindings() -> Seq<DescriptorSetLayoutBinding> {
    seq![
        DescriptorSetLayoutBinding {
            binding: 0,
            descriptor_type: DescriptorType::UniformBuffer,
            descriptor_count: 1,
            stage: ShaderStage::Vertex,
        },
        DescriptorSetLayoutBinding {
            binding: 1,
            descriptor_type: DescriptorType::CombinedImageSampler,
            descriptor_count: 1,
            stage: ShaderStage::Fragment,
        },
    ]
}

/// The pool for `sets` sets: at most `sets` sets, and `sets` descriptors of
/// each type, every count truncated to 32 bits.
pub open spec fn pool_plan(sets: usize) -> DescriptorPoolPlan {
    DescriptorPoolPlan {
        max_sets: sets as u32,
        pool_sizes: [
            DescriptorPoolSize {
                descriptor_type: DescriptorType::UniformBuffer,
                descriptor_count: sets as u32,
            },
            DescriptorPoolSize {
                descriptor_type: DescriptorType::CombinedImageSampler,
                descriptor_count: sets as u32,
            },
        ],
    }
}

/// The two writes for set `set`: its binding 0 gets the whole uniform buffer
/// of the same index, its binding 1 the texture and sampler.
pub open spec fn set_writes(set: usize) -> [DescriptorWrite; 2] {
    [
        DescriptorWrite {
            set,
            binding: 0,
            array_element: 0,
            descriptor_count: 1,
            descriptor_type: DescriptorType::UniformBuffer,
            resource: DescriptorResource::UniformBuffer {
                buffer: set,
                offset: 0,
                range: UNIFORM_BUFFER_OBJECT_SIZE,
            },
        },
        DescriptorWrite {
            set,
            binding: 1,
            array_element: 0,
            descriptor_count: 1,
            descriptor_type: DescriptorType::CombinedImageSampler,
            resource: DescriptorResource::TextureSampler,
        },
    ]
}

/// The bindings of the descriptor set layout.
pub fn create_descriptor_set_layout_bindings() -> (r: [DescriptorSetLayoutBinding; 2])
    ensures
        r@ == layout_bindings(),
{
    let r = [
        DescriptorSetLayoutBinding {
            binding: 0,
            descriptor_type: DescriptorType::UniformBuffer,
            descriptor_count: 1,
            stage: ShaderStage::Vertex,
        },
        DescriptorSetLayoutBinding {
            binding: 1,
            descriptor_type: DescriptorType::CombinedImageSampler,
            descriptor_count: 1,
            stage: ShaderStage::Fragment,
        },
    ];
    assert(r@ =~= layout_bindings());
    r
}

/// The descriptor pool for one set per swapchain image.
pub fn create_descriptor_pool_plan(swapchain_images_size: usize) -> (r: DescriptorPoolPlan)
    ensures
        r == pool_plan(swapchain_images_size),
{
    let count = swapchain_images_size as u32;
    DescriptorPoolPlan {
        max_sets: count,
        pool_sizes: [
            DescriptorPoolSize {
                descriptor_type: DescriptorType::UniformBuffer,
                descriptor_count: count,
            },
            DescriptorPoolSize {
                descriptor_type: DescriptorType::CombinedImageSampler,
                descriptor_count: count,
            },
        ],
    }
}

/// `count` copies of the set layout, one per set to allocate.
pub fn set_layouts_for<L: Copy>(layout: L, count: usize) -> (r: Vec<L>)
    ensures
        r@ == Seq::new(count as nat, |i: int| layout),
{
    let mut layouts: Vec<L> = Vec::new();
    let mut i: usize = 0;
    while i < count
        invariant
            i <= count,
            layouts@ == Seq::new(i as nat, |k: int| layout),
        decreases count - i,
    {
        layouts.push(layout);
        i = i + 1;
        assert(layouts@ =~= Seq::new(i as nat, |k: int| layout));
    }
    layouts
}

/// The writes for each of `set_count` allocated sets, set by set; set `i`
/// reads uniform buffer `i`, so there must be a uniform buffer for every set.
pub fn create_descriptor_set_writes(set_count: usize, uniform_buffer_count: usize) -> (r: Vec<
    [DescriptorWrite; 2],
>)
    requires
        set_count <= uniform_buffer_count,
    ensures
        r@.len() == set_count,
        forall|i: int| 0 <= i < set_count ==> #[trigger] r@[i] == set_writes(i as usize),
        forall|i: int|
            0 <= i < set_count ==> (#[trigger] r@[i])[0].resource == (DescriptorResource::UniformBuffer {
                buffer: i as usize,
                offset: 0,
                range: UNIFORM_BUFFER_OBJECT_SIZE,
            }),
        forall|i: int|
            0 <= i < set_count ==> (#[trigger] r@[i])[0].set == i && r@[i][1].set == i,
{
    let mut writes: Vec<[DescriptorWrite; 2]> = Vec::new();
    let mut i: usize = 0;
    while i < set_count
        invariant
            i <= set_count,
            writes@.len() == i,
            forall|k: int| 0 <= k < i ==> #[trigger] writes@[k] == set_writes(k as usize),
        decreases set_count - i,
    {
        let pair = [
            DescriptorWrite {
                set: i,
                binding: 0,
                array_element: 0,
                descriptor_count: 1,
                descriptor_type: DescriptorType::UniformBuffer,
                resource: DescriptorResource::UniformBuffer {
                    buffer: i,
                    offset: 0,
                    range: UNIFORM_BUFFER_OBJECT_SIZE,
                },
            },
            DescriptorWrite {
                set: i,
                binding: 1,
                array_element: 0,
                descriptor_count: 1,
                descriptor_type: DescriptorType::CombinedImageSampler,
                resource: DescriptorResource::TextureSampler,
            },
        ];
        assert(pair == set_writes(i));
        writes.push(pair);
        i = i + 1;
    }
    writes
}

/// How many descriptors of type `t` one set of the layout holds.
pub open spec fn layout_count_of(t: DescriptorType) -> int {
    if t == DescriptorType::UniformBuffer {
        layout_bindings()[0].descriptor_count as int
    } else {
        layout_bindings()[1].descriptor_count as int
    }
}

/// The layout, the pool and the writes agree: the pool holds, for each
/// descriptor type, exactly what `sets` sets of the layout need, and no more
/// sets; every write of every set lands on a binding of the layout with that
/// binding's type and count, reads only buffers that exist, and every binding
/// of every set is written, once.
pub proof fn law_descriptor_plans_agree(sets: usize)
    requires
        sets <= u32::MAX,
    ensures
        pool_plan(sets).max_sets == sets,
        forall|k: int|
            0 <= k < 2 ==> {
                let size = #[trigger] pool_plan(sets).pool_sizes[k];
                size.descriptor_count == sets * layout_count_of(size.descriptor_type)
            },
        pool_plan(sets).pool_sizes[0].descriptor_type != pool_plan(sets).pool_sizes[1].descriptor_type,
        forall|i: usize, k: int|
            #![trigger set_writes(i)[k]]
            i < sets && 0 <= k < 2 ==> {
                let w = set_writes(i)[k];
                let b = layout_bindings()[k];
                &&& w.set == i
                &&& w.binding == b.binding
                &&& w.descriptor_type == b.descriptor_type
                &&& w.descriptor_count == b.descriptor_count
                &&& w.array_element == 0
                &&& (w.resource matches DescriptorResource::UniformBuffer { buffer, .. } ==> buffer
                    < sets)
            },
        forall|k1: int, k2: int|
            0 <= k1 < 2 && 0 <= k2 < 2 && k1 != k2 ==> #[trigger] layout_bindings()[k1].binding
                != #[trigger] layout_bindings()[k2].binding,
{
    let plan = pool_plan(sets);
    assert(plan.pool_sizes@ =~= seq![plan.pool_sizes[0], plan.pool_sizes[1]]);
    assert forall|k: int| 0 <= k < 2 implies {
        let size = #[trigger] pool_plan(sets).pool_sizes[k];
        size.descriptor_count == sets * layout_count_of(size.descriptor_type)
    } by {
        assert(plan.pool_sizes[k] == plan.pool_sizes@[k]);
        assert((sets as u32) as int == sets as int);
        assert(layout_count_of(DescriptorType::UniformBuffer) == 1);
        assert(layout_count_of(DescriptorType::CombinedImageSampler) == 1);
        if k == 0 {
            assert(plan.pool_sizes[k].descriptor_count == sets);
        } else {
            assert(plan.pool_sizes[k].descriptor_count == sets);
        }
    }
}

/// Where and how the transform is written for one frame: the whole of the
/// uniform buffer memory of one image, from its start, with the size and
/// alignment of the uniform buffer object.
#[derive(Clone, Copy, Debug, PartialEq, Eq)]
pub struct UniformUpload {
    pub memory: usize,
    pub offset: u64,
    pub size: u64,
    pub align: u64,
}

/// The write of the transform for image `image`: into its own uniform
/// buffer's memory, from the start, one object's size and alignment.
pub open spec fn upload_for(image: usize) -> UniformUpload {
    UniformUpload {
        memory: image,
        offset: 0,
        size: UNIFORM_BUFFER_OBJECT_SIZE,
        align: UNIFORM_BUFFER_OBJECT_ALIGN,
    }
}

/// The write of one uniform buffer object into the memory of the uniform
/// buffer of `current_image`, which must exist.
pub fn uniform_upload(current_image: usize, uniform_buffer_count: usize) -> (r: UniformUpload)
    requires
        current_image < uniform_buffer_count,
    ensures
        r == upload_for(current_image),
        r.memory == current_image,
        r.offset == 0,
        r.size == UNIFORM_BUFFER_OBJECT_SIZE,
{
    let objects: usize = 1;
    UniformUpload {
        memory: current_image,
        offset: 0,
        size: UNIFORM_BUFFER_OBJECT_SIZE * (objects as u64),
        align: UNIFORM_BUFFER_OBJECT_ALIGN,
    }
}

/// Every image has a uniform buffer of its own: the uniform binding of set
/// `i` reads all of uniform buffer `i` and nothing else, the transform for
/// image `i` is written into the memory of uniform buffer `i` over exactly the
/// bytes that binding reads, and two different sets or images never share a
/// uniform buffer.
pub proof fn law_each_image_has_its_own_uniform_buffer(i: usize, j: usize)
    ensures
        set_writes(i)[0].resource matches DescriptorResource::UniformBuffer { buffer, offset, range }
            && buffer == i && offset == 0 && range == UNIFORM_BUFFER_OBJECT_SIZE,
        upload_for(i).memory == i,
        upload_for(i).offset == 0,
        upload_for(i).size == UNIFORM_BUFFER_OBJECT_SIZE,
        i != j ==> set_writes(i)[0].resource != set_writes(j)[0].resource,
        i != j ==> upload_for(i).memory != upload_for(j).memory,
        set_writes(i)[0].set == i && set_writes(i)[1].set == i,
{
}

/// The set layout says what the shaders read: binding 0 holds one uniform
/// buffer, the transform, read by the vertex stage; binding 1 holds one
/// combined image sampler, the texture, read by the fragment stage; every set
/// writes exactly these two bindings with these types, the uniform buffer
/// whole, the texture through its sampler.
pub proof fn law_layout_matches_what_the_shaders_read(i: usize)
    ensures
        layout_bindings().len() == 2,
        layout_bindings()[0] == (DescriptorSetLayoutBinding {
            binding: 0,
            descriptor_type: DescriptorType::UniformBuffer,
            descriptor_count: 1,
            stage: ShaderStage::Vertex,
        }),
        layout_bindings()[1] == (DescriptorSetLayoutBinding {
            binding: 1,
            descriptor_type: DescriptorType::CombinedImageSampler,
            descriptor_count: 1,
            stage: ShaderStage::Fragment,
        }),
        set_writes(i)[0].binding == 0 && set_writes(i)[0].descriptor_type
            == DescriptorType::UniformBuffer,
        set_writes(i)[1].binding == 1 && set_writes(i)[1].descriptor_type
            == DescriptorType::CombinedImageSampler,
        set_writes(i)[1].resource == DescriptorResource::TextureSampler,
        UNIFORM_BUFFER_OBJECT_SIZE == 3 * MATRIX4_BYTES,
        MATRIX4_BYTES == 16 * 4,
{
}

/// The pool for `sets` sets holds `sets` sets and, of each descriptor type,
/// one descriptor per set, each count cut to 32 bits as the counts are.
pub proof fn law_pool_holds_one_of_each_per_set(sets: usize)
    ensures
        pool_plan(sets).max_sets == sets as u32,
        pool_plan(sets).pool_sizes[0] == (DescriptorPoolSize {
            descriptor_type: DescriptorType::UniformBuffer,
            descriptor_count: sets as u32,
        }),
        pool_plan(sets).pool_sizes[1] == (DescriptorPoolSize {
            descriptor_type: DescriptorType::CombinedImageSampler,
            descriptor_count: sets as u32,
        }),
        sets <= u32::MAX ==> pool_plan(sets).max_sets == sets,
{
}

} // verus!
