//! The order in which the renderer's objects are released: the objects built
//! on the swapchain, torn down and rebuilt whenever the swapchain is, and
//! everything at shutdown. Objects are named symbolically; the caller holds
//! the handles and releases each named object in turn.
use vstd::prelude::*;
use crate::frame::MAX_FRAMES_IN_FLIGHT;

verus! {

/// An object the renderer owns. Objects of which there are several carry
/// their index.
#[derive(Clone, Copy, Debug, PartialEq, Eq)]
pub enum Resource {
    ImageAvailableSemaphore(usize),
    RenderFinishedSemaphore(usize),
    InFlightFence(usize),
    /// All command buffers, freed back to the command pool at once.
    CommandBuffers,
    Framebuffer(usize),
    GraphicsPipeline,
    PipelineLayout,
    RenderPass,
    SwapchainImageView(usize),
    Swapchain,
    DescriptorPool,
    UniformBuffer(usize),
    UniformBufferMemory(usize),
    IndexBuffer,
    IndexBufferMemory,
    VertexBuffer,
    VertexBufferMemory,
    TextureSampler,
    TextureImageView,
    TextureImage,
    TextureImageMemory,
    DescriptorSetLayout,
    CommandPool,
    Device,
    Surface,
    DebugCallback,
    Instance,
}

/// A step of rebuilding the swapchain.
#[derive(Clone, Copy, Debug, PartialEq, Eq)]
pub enum SwapchainStep {
    /// Wait until the device is idle.
    WaitIdle,
    /// Release an object.
    Release(Resource),
    CreateSwapchain,
    CreateImageViews,
    CreateRenderPass,
    /// Create the graphics pipeline and its layout.
    CreateGraphicsPipeline,
    CreateFramebuffers,
    CreateCommandBuffers,
}

/// `a` uses `b`, so `a` must be released before `b`.
pub open spec fn depends_on(a: Resource, b: Resource) -> bool {
    match a {
        Resource::ImageAvailableSemaphore(_) => b == Resource::Device,
        Resource::RenderFinishedSemaphore(_) => b == Resource::Device,
        Resource::InFlightFence(_) => b == Resource::Device,
        Resource::CommandBuffers => (b is Framebuffer) || b == Resource::GraphicsPipeline || b
            == Resource::RenderPass || b == Resource::VertexBuffer || b == Resource::IndexBuffer
            || b == Resource::DescriptorPool || b == Resource::CommandPool || b == Resource::Device,
        Resource::Framebuffer(_) => b == Resource::RenderPass || (b is SwapchainImageView) || b
            == Resource::Device,
        Resource::GraphicsPipeline => b == Resource::PipelineLayout || b == Resource::RenderPass
            || b == Resource::Device,
        Resource::PipelineLayout => b == Resource::DescriptorSetLayout || b == Resource::Device,
        Resource::RenderPass => b == Resource::Device,
        Resource::SwapchainImageView(_) => b == Resource::Swapchain || b == Resource::Device,
        Resource::Swapchain => b == Resource::Surface || b == Resource::Device,
        Resource::DescriptorPool => (b is UniformBuffer) || b == Resource::TextureImageView || b
            == Resource::TextureSampler || b == Resource::DescriptorSetLayout || b
            == Resource::Device,
        Resource::UniformBuffer(i) => b == Resource::UniformBufferMemory(i) || b
            == Resource::Device,
        Resource::UniformBufferMemory(_) => b == Resource::Device,
        Resource::IndexBuffer => b == Resource::IndexBufferMemory || b == Resource::Device,
        Resource::IndexBufferMemory => b == Resource::Device,
        Resource::VertexBuffer => b == Resource::VertexBufferMemory || b == Resource::Device,
        Resource::VertexBufferMemory => b == Resource::Device,
        Resource::TextureSampler => b == Resource::Device,
        Resource::TextureImageView => b == Resource::TextureImage || b == Resource::Device,
        Resource::TextureImage => b == Resource::TextureImageMemory || b == Resource::Device,
        Resource::TextureImageMemory => b == Resource::Device,
        Resource::DescriptorSetLayout => b == Resource::Device,
        Resource::CommandPool => b == Resource::Device,
        Resource::Device => b == Resource::Instance,
        Resource::Surface => b == Resource::Instance,
        Resource::DebugCallback => b == Resource::Instance,
        Resource::Instance => false,
    }
}

/// The stage of shutdown at which an object is released.
pub open spec fn rank(r: Resource) -> int {
    match r {
        Resource::ImageAvailableSemaphore(_) => 0,
        Resource::RenderFinishedSemaphore(_) => 0,
        Resource::InFlightFence(_) => 0,
        Resource::CommandBuffers => 1,
        Resource::Framebuffer(_) => 2,
        Resource::GraphicsPipeline => 3,
        Resource::PipelineLayout => 4,
        Resource::RenderPass => 5,
        Resource::SwapchainImageView(_) => 6,
        Resource::Swapchain => 7,
        Resource::DescriptorPool => 8,
        Resource::UniformBuffer(_) => 9,
        Resource::UniformBufferMemory(_) => 9,
        Resource::IndexBuffer => 10,
        Resource::IndexBufferMemory => 11,
        Resource::VertexBuffer => 12,
        Resource::VertexBufferMemory => 13,
        Resource::TextureSampler => 14,
        Resource::TextureImageView => 15,
        Resource::TextureImage => 16,
        Resource::TextureImageMemory => 17,
        Resource::DescriptorSetLayout => 18,
        Resource::CommandPool => 19,
        Resource::Device => 20,
        Resource::Surface => 21,
        Resource::DebugCallback => 22,
        Resource::Instance => 23,
    }
}

/// The position of an object within its stage: per frame slot the
/// image-available semaphore, the render-finished semaphore, then the fence;
/// per uniform buffer the buffer, then its memory.
pub open spec fn position(r: Resource) -> int {
    match r {
        Resource::ImageAvailableSemaphore(i) => 3 * i,
        Resource::RenderFinishedSemaphore(i) => 3 * i + 1,
        Resource::InFlightFence(i) => 3 * i + 2,
        Resource::Framebuffer(i) => i as int,
        Resource::SwapchainImageView(i) => i as int,
        Resource::UniformBuffer(i) => 2 * i,
        Resource::UniformBufferMemory(i) => 2 * i + 1,
        _ => 0,
    }
}

/// `a` is released strictly before `b` in shutdown order.
pub open spec fn released_before(a: Resource, b: Resource) -> bool {
    rank(a) < rank(b) || (rank(a) == rank(b) && position(a) < position(b))
}

/// Each element is released strictly before every later one.
pub open spec fn in_release_order(s: Seq<Resource>) -> bool {
    forall|i: int, j: int| 0 <= i < j < s.len() ==> released_before(#[trigger] s[i], #[trigger] s[j])
}

/// The synchronisation object at position `k` of the per-frame run.
pub open spec fn sync_at(k: int) -> Resource {
    if k % 3 == 0 {
        Resource::ImageAvailableSemaphore((k / 3) as usize)
    } else if k % 3 == 1 {
        Resource::RenderFinishedSemaphore((k / 3) as usize)
    } else {
        Resource::InFlightFence((k / 3) as usize)
    }
}

/// The semaphores and fence of each of `n` frame slots.
pub open spec fn sync_objects(n: nat) -> Seq<Resource> {
    Seq::new(3 * n, |k: int| sync_at(k))
}

/// The object at position `k` of the run of uniform buffers.
pub open spec fn uniform_at(k: int) -> Resource {
    if k % 2 == 0 {
        Resource::UniformBuffer((k / 2) as usize)
    } else {
        Resource::UniformBufferMemory((k / 2) as usize)
    }
}

/// Each of `n` uniform buffers, then its memory.
pub open spec fn uniform_buffers(n: nat) -> Seq<Resource> {
    Seq::new(2 * n, |k: int| uniform_at(k))
}

/// Framebuffers `0..n`.
pub open spec fn framebuffers(n: nat) -> Seq<Resource> {
    Seq::new(n, |i: int| Resource::Framebuffer(i as usize))
}

/// Swapchain image views `0..n`.
pub open spec fn image_views(n: nat) -> Seq<Resource> {
    Seq::new(n, |i: int| Resource::SwapchainImageView(i as usize))
}

/// Releasing what is built on the swapchain: the command buffers, each
/// framebuffer, the pipeline, its layout, the render pass, each image view,
/// then the swapchain.
pub open spec fn swapchain_cleanup(framebuffer_count: nat, image_view_count: nat) -> Seq<Resource> {
    seq![Resource::CommandBuffers] + framebuffers(framebuffer_count) + seq![
        Resource::GraphicsPipeline,
        Resource::PipelineLayout,
        Resource::RenderPass,
    ] + image_views(image_view_count) + seq![Resource::Swapchain]
}

/// What follows the uniform buffers at shutdown.
pub open spec fn teardown_tail(validation: bool) -> Seq<Resource> {
    seq![
        Resource::IndexBuffer,
        Resource::IndexBufferMemory,
        Resource::VertexBuffer,
        Resource::VertexBufferMemory,
        Resource::TextureSampler,
        Resource::TextureImageView,
        Resource::TextureImage,
        Resource::TextureImageMemory,
        Resource::DescriptorSetLayout,
        Resource::CommandPool,
        Resource::Device,
        Resource::Surface,
    ] + (if validation {
        seq![Resource::DebugCallback]
    } else {
        Seq::empty()
    }) + seq![Resource::Instance]
}

/// Releasing everything at shutdown: the synchronisation objects of every
/// frame slot, what is built on the swapchain, the descriptor pool, the
/// uniform buffers, the index and vertex buffers, the texture, the set layout,
/// the command pool, the device, the surface, the debug callback when
/// validation is on, and the instance.
pub open spec fn teardown(
    framebuffer_count: nat,
    image_view_count: nat,
    uniform_buffer_count: nat,
    validation: bool,
) -> Seq<Resource> {
    sync_objects(MAX_FRAMES_IN_FLIGHT as nat) + swapchain_cleanup(
        framebuffer_count,
        image_view_count,
    ) + seq![Resource::DescriptorPool] + uniform_buffers(uniform_buffer_count) + teardown_tail(
        validation,
    )
}

/// The objects the renderer owns, given how many framebuffers, image views
/// and uniform buffers it has and whether validation is on.
pub open spec fn owned(
    r: Resource,
    framebuffer_count: nat,
    image_view_count: nat,
    uniform_buffer_count: nat,
    validation: bool,
) -> bool {
    match r {
        Resource::ImageAvailableSemaphore(i) => i < MAX_FRAMES_IN_FLIGHT,
        Resource::RenderFinishedSemaphore(i) => i < MAX_FRAMES_IN_FLIGHT,
        Resource::InFlightFence(i) => i < MAX_FRAMES_IN_FLIGHT,
        Resource::Framebuffer(i) => i < framebuffer_count,
        Resource::SwapchainImageView(i) => i < image_view_count,
        Resource::UniformBuffer(i) => i < uniform_buffer_count,
        Resource::UniformBufferMemory(i) => i < uniform_buffer_count,
        Resource::DebugCallback => validation,
        _ => true,
    }
}


/// Every element's stage lies in `lo..hi`.
pub open spec fn ranks_within(s: Seq<Resource>, lo: int, hi: int) -> bool {
    forall|k: int| 0 <= k < s.len() ==> lo <= #[trigger] rank(s[k]) < hi
}

/// Two runs in release order, the first entirely at earlier stages than the
/// second, make one run in release order.
pub proof fn lemma_concat_in_release_order(a: Seq<Resource>, b: Seq<Resource>, lo: int, mid: int, hi: int)
    requires
        lo <= mid <= hi,
        in_release_order(a),
        in_release_order(b),
        ranks_within(a, lo, mid),
        ranks_within(b, mid, hi),
    ensures
        in_release_order(a + b),
        ranks_within(a + b, lo, hi),
{
    let c = a + b;
    assert forall|i: int, j: int| 0 <= i < j < c.len() implies released_before(
        #[trigger] c[i],
        #[trigger] c[j],
    ) by {
        if j < a.len() {
            assert(c[i] == a[i] && c[j] == a[j]);
        } else if i >= a.len() {
            assert(c[i] == b[i - a.len()] && c[j] == b[j - a.len()]);
        } else {
            assert(c[i] == a[i] && c[j] == b[j - a.len()]);
            assert(rank(a[i]) < mid);
            assert(rank(b[j - a.len()]) >= mid);
        }
    }
    assert forall|k: int| 0 <= k < c.len() implies lo <= #[trigger] rank(c[k]) < hi by {
        if k < a.len() {
            assert(c[k] == a[k]);
        } else {
            assert(c[k] == b[k - a.len()]);
        }
    }
}

/// The objects of the per-frame run sit at their own positions.
pub proof fn lemma_sync_at(i: int)
    requires
        0 <= i,
    ensures
        sync_at(3 * i) == Resource::ImageAvailableSemaphore(i as usize),
        sync_at(3 * i + 1) == Resource::RenderFinishedSemaphore(i as usize),
        sync_at(3 * i + 2) == Resource::InFlightFence(i as usize),
{
    assert((3 * i) % 3 == 0 && (3 * i) / 3 == i) by (nonlinear_arith)
        requires
            0 <= i,
    ;
    assert((3 * i + 1) % 3 == 1 && (3 * i + 1) / 3 == i) by (nonlinear_arith)
        requires
            0 <= i,
    ;
    assert((3 * i + 2) % 3 == 2 && (3 * i + 2) / 3 == i) by (nonlinear_arith)
        requires
            0 <= i,
    ;
}

/// The objects of the uniform-buffer run sit at their own positions.
pub proof fn lemma_uniform_at(i: int)
    requires
        0 <= i,
    ensures
        uniform_at(2 * i) == Resource::UniformBuffer(i as usize),
        uniform_at(2 * i + 1) == Resource::UniformBufferMemory(i as usize),
{
    assert((2 * i) % 2 == 0 && (2 * i) / 2 == i) by (nonlinear_arith)
        requires
            0 <= i,
    ;
    assert((2 * i + 1) % 2 == 1 && (2 * i + 1) / 2 == i) by (nonlinear_arith)
        requires
            0 <= i,
    ;
}

/// Each element of the per-frame run has its own index as position.
pub proof fn lemma_sync_position(k: int)
    requires
        0 <= k,
        k / 3 <= usize::MAX,
    ensures
        position(sync_at(k)) == k,
        rank(sync_at(k)) == 0,
{
    assert(k == 3 * (k / 3) + k % 3 && 0 <= k % 3 < 3) by (nonlinear_arith)
        requires
            0 <= k,
    ;
}

/// Each element of the uniform-buffer run has its own index as position.
pub proof fn lemma_uniform_position(k: int)
    requires
        0 <= k,
        k / 2 <= usize::MAX,
    ensures
        position(uniform_at(k)) == k,
        rank(uniform_at(k)) == 9,
{
    assert(k == 2 * (k / 2) + k % 2 && 0 <= k % 2 < 2) by (nonlinear_arith)
        requires
            0 <= k,
    ;
}


/// The runs that make up the release plans are each in release order, at
/// their own stages.
pub proof fn lemma_runs_in_release_order(framebuffer_count: usize, image_view_count: usize, uniform_buffer_count: usize, validation: bool)
    ensures
        in_release_order(sync_objects(MAX_FRAMES_IN_FLIGHT as nat)),
        ranks_within(sync_objects(MAX_FRAMES_IN_FLIGHT as nat), 0, 1),
        in_release_order(framebuffers(framebuffer_count as nat)),
        ranks_within(framebuffers(framebuffer_count as nat), 2, 3),
        in_release_order(image_views(image_view_count as nat)),
        ranks_within(image_views(image_view_count as nat), 6, 7),
        in_release_order(uniform_buffers(uniform_buffer_count as nat)),
        ranks_within(uniform_buffers(uniform_buffer_count as nat), 9, 10),
        in_release_order(teardown_tail(validation)),
        ranks_within(teardown_tail(validation), 10, 24),
{
    let sync = sync_objects(MAX_FRAMES_IN_FLIGHT as nat);
    assert forall|k: int| 0 <= k < sync.len() implies 0 <= #[trigger] rank(sync[k]) < 1 by {
        lemma_sync_position(k);
    }
    assert forall|i: int, j: int| 0 <= i < j < sync.len() implies released_before(
        #[trigger] sync[i],
        #[trigger] sync[j],
    ) by {
        lemma_sync_position(i);
        lemma_sync_position(j);
    }
    let ub = uniform_buffers(uniform_buffer_count as nat);
    assert forall|k: int| 0 <= k < ub.len() implies 9 <= #[trigger] rank(ub[k]) < 10 by {
        lemma_uniform_position(k);
    }
    assert forall|i: int, j: int| 0 <= i < j < ub.len() implies released_before(
        #[trigger] ub[i],
        #[trigger] ub[j],
    ) by {
        lemma_uniform_position(i);
        lemma_uniform_position(j);
    }
    let tail = teardown_tail(validation);
    assert forall|i: int, j: int| 0 <= i < j < tail.len() implies released_before(
        #[trigger] tail[i],
        #[trigger] tail[j],
    ) by {
        assert forall|k: int| 0 <= k < tail.len() implies #[trigger] rank(tail[k]) == 10 + k + (if !validation && k == 12 { 1int } else { 0int }) by {
            if validation {
                assert(tail.len() == 14);
            } else {
                assert(tail.len() == 13);
            }
        }
        assert(rank(tail[i]) == 10 + i + (if !validation && i == 12 { 1int } else { 0int }));
        assert(rank(tail[j]) == 10 + j + (if !validation && j == 12 { 1int } else { 0int }));
    }
    assert forall|k: int| 0 <= k < tail.len() implies 10 <= #[trigger] rank(tail[k]) < 24 by {
        if validation {
            assert(tail.len() == 14);
        } else {
            assert(tail.len() == 13);
        }
    }
}


/// A single object is a run in release order.
pub proof fn lemma_single_in_release_order(r: Resource)
    ensures
        in_release_order(seq![r]),
        ranks_within(seq![r], rank(r), rank(r) + 1),
{
}

/// Releasing what is built on the swapchain goes in release order, at the
/// stages from the command buffers to the swapchain.
pub proof fn lemma_cleanup_in_release_order(framebuffer_count: usize, image_view_count: usize)
    ensures
        in_release_order(swapchain_cleanup(framebuffer_count as nat, image_view_count as nat)),
        ranks_within(swapchain_cleanup(framebuffer_count as nat, image_view_count as nat), 1, 8),
{
    lemma_runs_in_release_order(framebuffer_count, image_view_count, 0, false);
    let s1 = seq![Resource::CommandBuffers];
    let s2 = framebuffers(framebuffer_count as nat);
    let s3 = seq![Resource::GraphicsPipeline, Resource::PipelineLayout, Resource::RenderPass];
    let s4 = image_views(image_view_count as nat);
    let s5 = seq![Resource::Swapchain];
    lemma_single_in_release_order(Resource::CommandBuffers);
    lemma_single_in_release_order(Resource::Swapchain);
    assert(in_release_order(s3) && ranks_within(s3, 3, 6));
    lemma_concat_in_release_order(s1, s2, 1, 2, 3);
    lemma_concat_in_release_order(s1 + s2, s3, 1, 3, 6);
    lemma_concat_in_release_order(s1 + s2 + s3, s4, 1, 6, 7);
    lemma_concat_in_release_order(s1 + s2 + s3 + s4, s5, 1, 7, 8);
}

/// Shutdown releases in order: stage by stage, and within a stage by
/// position, so no object is released twice.
pub proof fn lemma_teardown_in_release_order(
    framebuffer_count: usize,
    image_view_count: usize,
    uniform_buffer_count: usize,
    validation: bool,
)
    ensures
        in_release_order(
            teardown(
                framebuffer_count as nat,
                image_view_count as nat,
                uniform_buffer_count as nat,
                validation,
            ),
        ),
{
    lemma_runs_in_release_order(framebuffer_count, image_view_count, uniform_buffer_count, validation);
    lemma_cleanup_in_release_order(framebuffer_count, image_view_count);
    let s0 = sync_objects(MAX_FRAMES_IN_FLIGHT as nat);
    let c = swapchain_cleanup(framebuffer_count as nat, image_view_count as nat);
    let d = seq![Resource::DescriptorPool];
    let u = uniform_buffers(uniform_buffer_count as nat);
    let t = teardown_tail(validation);
    lemma_single_in_release_order(Resource::DescriptorPool);
    lemma_concat_in_release_order(s0, c, 0, 1, 8);
    lemma_concat_in_release_order(s0 + c, d, 0, 8, 9);
    lemma_concat_in_release_order(s0 + c + d, u, 0, 9, 10);
    lemma_concat_in_release_order(s0 + c + d + u, t, 0, 10, 24);
}

/// An object that uses another is released before it in the shutdown order.
pub proof fn law_users_come_first(a: Resource, b: Resource)
    requires
        depends_on(a, b),
    ensures
        released_before(a, b),
{
}

/// Shutdown releases each object once, and never releases an object while
/// something that uses it is still to be released.
pub proof fn law_teardown_releases_users_first_and_once(
    framebuffer_count: usize,
    image_view_count: usize,
    uniform_buffer_count: usize,
    validation: bool,
)
    ensures
        ({
            let plan = teardown(
                framebuffer_count as nat,
                image_view_count as nat,
                uniform_buffer_count as nat,
                validation,
            );
            &&& forall|i: int, j: int|
                0 <= i < j < plan.len() ==> !depends_on(#[trigger] plan[j], #[trigger] plan[i])
            &&& forall|i: int, j: int|
                0 <= i < plan.len() && 0 <= j < plan.len() && i != j ==> #[trigger] plan[i]
                    != #[trigger] plan[j]
        }),
{
    lemma_teardown_in_release_order(framebuffer_count, image_view_count, uniform_buffer_count, validation);
    let plan = teardown(
        framebuffer_count as nat,
        image_view_count as nat,
        uniform_buffer_count as nat,
        validation,
    );
    assert forall|i: int, j: int| 0 <= i < j < plan.len() implies !depends_on(
        #[trigger] plan[j],
        #[trigger] plan[i],
    ) by {
        assert(released_before(plan[i], plan[j]));
        if depends_on(plan[j], plan[i]) {
            law_users_come_first(plan[j], plan[i]);
        }
    }
    assert forall|i: int, j: int|
        0 <= i < plan.len() && 0 <= j < plan.len() && i != j implies #[trigger] plan[i]
            != #[trigger] plan[j] by {
        if i < j {
            assert(released_before(plan[i], plan[j]));
        } else {
            assert(released_before(plan[j], plan[i]));
        }
    }
}

/// Releasing what is built on the swapchain releases each object once, and
/// never an object while something that uses it is still to be released.
pub proof fn law_cleanup_releases_users_first_and_once(framebuffer_count: usize, image_view_count: usize)
    ensures
        ({
            let plan = swapchain_cleanup(framebuffer_count as nat, image_view_count as nat);
            &&& forall|i: int, j: int|
                0 <= i < j < plan.len() ==> !depends_on(#[trigger] plan[j], #[trigger] plan[i])
            &&& forall|i: int, j: int|
                0 <= i < plan.len() && 0 <= j < plan.len() && i != j ==> #[trigger] plan[i]
                    != #[trigger] plan[j]
        }),
{
    lemma_cleanup_in_release_order(framebuffer_count, image_view_count);
    let plan = swapchain_cleanup(framebuffer_count as nat, image_view_count as nat);
    assert forall|i: int, j: int| 0 <= i < j < plan.len() implies !depends_on(
        #[trigger] plan[j],
        #[trigger] plan[i],
    ) by {
        assert(released_before(plan[i], plan[j]));
        if depends_on(plan[j], plan[i]) {
            law_users_come_first(plan[j], plan[i]);
        }
    }
    assert forall|i: int, j: int|
        0 <= i < plan.len() && 0 <= j < plan.len() && i != j implies #[trigger] plan[i]
            != #[trigger] plan[j] by {
        if i < j {
            assert(released_before(plan[i], plan[j]));
        } else {
            assert(released_before(plan[j], plan[i]));
        }
    }
}


/// The objects built on the swapchain, given how many framebuffers and image
/// views there are.
pub open spec fn swapchain_bound(r: Resource, framebuffer_count: nat, image_view_count: nat) -> bool {
    match r {
        Resource::CommandBuffers => true,
        Resource::Framebuffer(i) => i < framebuffer_count,
        Resource::GraphicsPipeline => true,
        Resource::PipelineLayout => true,
        Resource::RenderPass => true,
        Resource::SwapchainImageView(i) => i < image_view_count,
        Resource::Swapchain => true,
        _ => false,
    }
}

/// Releasing what is built on the swapchain releases exactly the objects
/// built on it: the command buffers, every framebuffer, the pipeline and its
/// layout, the render pass, every image view and the swapchain.
pub proof fn law_cleanup_releases_exactly_the_swapchain_objects(
    framebuffer_count: usize,
    image_view_count: usize,
)
    ensures
        forall|r: Resource|
            #![trigger swapchain_bound(r, framebuffer_count as nat, image_view_count as nat)]
            swapchain_cleanup(framebuffer_count as nat, image_view_count as nat).contains(r)
                <==> swapchain_bound(r, framebuffer_count as nat, image_view_count as nat),
{
    let fb = framebuffer_count as int;
    let iv = image_view_count as int;
    let s1 = seq![Resource::CommandBuffers];
    let s2 = framebuffers(fb as nat);
    let s3 = seq![Resource::GraphicsPipeline, Resource::PipelineLayout, Resource::RenderPass];
    let s4 = image_views(iv as nat);
    let s5 = seq![Resource::Swapchain];
    let plan = swapchain_cleanup(fb as nat, iv as nat);
    assert(plan == s1 + s2 + s3 + s4 + s5);
    assert(plan.len() == fb + iv + 5);
    assert forall|k: int| 0 <= k < plan.len() implies swapchain_bound(
        #[trigger] plan[k],
        fb as nat,
        iv as nat,
    ) by {
        if k == 0 {
        } else if k < 1 + fb {
            assert(plan[k] == s2[k - 1]);
        } else if k < 4 + fb {
            assert(plan[k] == s3[k - 1 - fb]);
        } else if k < 4 + fb + iv {
            assert(plan[k] == s4[k - 4 - fb]);
        } else {
            assert(plan[k] == s5[0]);
        }
    }
    assert forall|r: Resource| #[trigger]
        swapchain_bound(r, fb as nat, iv as nat) implies plan.contains(r) by {
        match r {
            Resource::CommandBuffers => {
                assert(plan[0] == r);
            },
            Resource::Framebuffer(i) => {
                assert(plan[1 + i] == s2[i as int]);
            },
            Resource::GraphicsPipeline => {
                assert(plan[1 + fb] == r);
            },
            Resource::PipelineLayout => {
                assert(plan[2 + fb] == r);
            },
            Resource::RenderPass => {
                assert(plan[3 + fb] == r);
            },
            Resource::SwapchainImageView(i) => {
                assert(plan[4 + fb + i] == s4[i as int]);
            },
            Resource::Swapchain => {
                assert(plan[4 + fb + iv] == r);
            },
            _ => {},
        }
    }
}

/// Shutdown releases exactly the objects the renderer owns: the semaphores
/// and fence of every frame slot, everything built on the swapchain, the
/// descriptor pool, every uniform buffer and its memory, the index and vertex
/// buffers and their memory, the texture's sampler, view, image and memory,
/// the set layout, the command pool, the device, the surface, the debug
/// callback exactly when validation is on, and the instance.
pub proof fn law_teardown_releases_exactly_what_is_owned(
    framebuffer_count: usize,
    image_view_count: usize,
    uniform_buffer_count: usize,
    validation: bool,
)
    ensures
        forall|r: Resource|
            #![trigger owned(r, framebuffer_count as nat, image_view_count as nat, uniform_buffer_count as nat, validation)]
            teardown(
                framebuffer_count as nat,
                image_view_count as nat,
                uniform_buffer_count as nat,
                validation,
            ).contains(r) <==> owned(
                r,
                framebuffer_count as nat,
                image_view_count as nat,
                uniform_buffer_count as nat,
                validation,
            ),
{
    let fb = framebuffer_count as nat;
    let iv = image_view_count as nat;
    let ub = uniform_buffer_count as nat;
    law_cleanup_releases_exactly_the_swapchain_objects(framebuffer_count, image_view_count);
    let s0 = sync_objects(MAX_FRAMES_IN_FLIGHT as nat);
    let c = swapchain_cleanup(fb, iv);
    let d = seq![Resource::DescriptorPool];
    let u = uniform_buffers(ub);
    let t = teardown_tail(validation);
    let plan = teardown(fb, iv, ub, validation);
    assert(plan == s0 + c + d + u + t);
    let cs = s0.len() as int;
    let ds = cs + c.len();
    let us = ds + 1;
    let ts = us + u.len();
    assert(s0.len() == 6);
    assert forall|k: int| 0 <= k < plan.len() implies owned(
        #[trigger] plan[k],
        fb,
        iv,
        ub,
        validation,
    ) by {
        if k < cs {
            assert(plan[k] == s0[k]);
            lemma_sync_position(k);
            assert(k / 3 < 2) by (nonlinear_arith)
                requires
                    0 <= k < 6,
            ;
        } else if k < ds {
            assert(plan[k] == c[k - cs]);
            assert(c.contains(c[k - cs]));
            assert(swapchain_bound(c[k - cs], fb, iv));
        } else if k < us {
            assert(plan[k] == d[0]);
        } else if k < ts {
            assert(plan[k] == u[k - us]);
            lemma_uniform_position(k - us);
            assert((k - us) / 2 < ub) by (nonlinear_arith)
                requires
                    0 <= k - us < 2 * ub,
            ;
        } else {
            assert(plan[k] == t[k - ts]);
            if validation {
                assert(t.len() == 14);
            } else {
                assert(t.len() == 13);
            }
        }
    }
    assert forall|r: Resource| #[trigger] owned(r, fb, iv, ub, validation) implies plan.contains(r) by {
        if swapchain_bound(r, fb, iv) {
            let k = choose|k: int| 0 <= k < c.len() && c[k] == r;
            assert(plan[cs + k] == c[k]);
        } else {
            match r {
                Resource::ImageAvailableSemaphore(i) => {
                    lemma_sync_at(i as int);
                    assert(plan[3 * i] == s0[3 * i]);
                },
                Resource::RenderFinishedSemaphore(i) => {
                    lemma_sync_at(i as int);
                    assert(plan[3 * i + 1] == s0[3 * i + 1]);
                },
                Resource::InFlightFence(i) => {
                    lemma_sync_at(i as int);
                    assert(plan[3 * i + 2] == s0[3 * i + 2]);
                },
                Resource::DescriptorPool => {
                    assert(plan[ds] == r);
                },
                Resource::UniformBuffer(i) => {
                    lemma_uniform_at(i as int);
                    assert(plan[us + 2 * i] == u[2 * i]);
                },
                Resource::UniformBufferMemory(i) => {
                    lemma_uniform_at(i as int);
                    assert(plan[us + 2 * i + 1] == u[2 * i + 1]);
                },
                Resource::IndexBuffer => {
                    assert(plan[ts] == t[0]);
                },
                Resource::IndexBufferMemory => {
                    assert(plan[ts + 1] == t[1]);
                },
                Resource::VertexBuffer => {
                    assert(plan[ts + 2] == t[2]);
                },
                Resource::VertexBufferMemory => {
                    assert(plan[ts + 3] == t[3]);
                },
                Resource::TextureSampler => {
                    assert(plan[ts + 4] == t[4]);
                },
                Resource::TextureImageView => {
                    assert(plan[ts + 5] == t[5]);
                },
                Resource::TextureImage => {
                    assert(plan[ts + 6] == t[6]);
                },
                Resource::TextureImageMemory => {
                    assert(plan[ts + 7] == t[7]);
                },
                Resource::DescriptorSetLayout => {
                    assert(plan[ts + 8] == t[8]);
                },
                Resource::CommandPool => {
                    assert(plan[ts + 9] == t[9]);
                },
                Resource::Device => {
                    assert(plan[ts + 10] == t[10]);
                },
                Resource::Surface => {
                    assert(plan[ts + 11] == t[11]);
                },
                Resource::DebugCallback => {
                    assert(plan[ts + 12] == t[12]);
                },
                Resource::Instance => {
                    assert(plan[plan.len() - 1] == t[t.len() - 1]);
                },
                _ => {},
            }
        }
    }
}

/// Releasing what is built on the swapchain, in order.
pub fn cleanup_swapchain_plan(framebuffer_count: usize, image_view_count: usize) -> (r: Vec<
    Resource,
>)
    ensures
        r@ == swapchain_cleanup(framebuffer_count as nat, image_view_count as nat),
{
    let mut plan: Vec<Resource> = Vec::new();
    plan.push(Resource::CommandBuffers);
    let ghost head = plan@;
    let mut i: usize = 0;
    while i < framebuffer_count
        invariant
            i <= framebuffer_count,
            plan@ == head + framebuffers(i as nat),
        decreases framebuffer_count - i,
    {
        plan.push(Resource::Framebuffer(i));
        i = i + 1;
        assert(plan@ =~= head + framebuffers(i as nat));
    }
    plan.push(Resource::GraphicsPipeline);
    plan.push(Resource::PipelineLayout);
    plan.push(Resource::RenderPass);
    let ghost middle = plan@;
    let mut j: usize = 0;
    while j < image_view_count
        invariant
            j <= image_view_count,
            plan@ == middle + image_views(j as nat),
        decreases image_view_count - j,
    {
        plan.push(Resource::SwapchainImageView(j));
        j = j + 1;
        assert(plan@ =~= middle + image_views(j as nat));
    }
    plan.push(Resource::Swapchain);
    assert(plan@ =~= swapchain_cleanup(framebuffer_count as nat, image_view_count as nat));
    plan
}

/// Releasing everything at shutdown, in order.
pub fn teardown_plan(
    framebuffer_count: usize,
    image_view_count: usize,
    uniform_buffer_count: usize,
    validation: bool,
) -> (r: Vec<Resource>)
    ensures
        r@ == teardown(
            framebuffer_count as nat,
            image_view_count as nat,
            uniform_buffer_count as nat,
            validation,
        ),
{
    let mut plan: Vec<Resource> = Vec::new();
    let mut f: usize = 0;
    while f < MAX_FRAMES_IN_FLIGHT
        invariant
            f <= MAX_FRAMES_IN_FLIGHT,
            plan@ == sync_objects(f as nat),
        decreases MAX_FRAMES_IN_FLIGHT - f,
    {
        plan.push(Resource::ImageAvailableSemaphore(f));
        plan.push(Resource::RenderFinishedSemaphore(f));
        plan.push(Resource::InFlightFence(f));
        proof {
            lemma_sync_at(f as int);
        }
        f = f + 1;
        assert(plan@ =~= sync_objects(f as nat));
    }
    let mut cleanup = cleanup_swapchain_plan(framebuffer_count, image_view_count);
    plan.append(&mut cleanup);
    plan.push(Resource::DescriptorPool);
    let ghost head = plan@;
    let mut u: usize = 0;
    while u < uniform_buffer_count
        invariant
            u <= uniform_buffer_count,
            plan@ == head + uniform_buffers(u as nat),
        decreases uniform_buffer_count - u,
    {
        plan.push(Resource::UniformBuffer(u));
        plan.push(Resource::UniformBufferMemory(u));
        proof {
            lemma_uniform_at(u as int);
        }
        u = u + 1;
        assert(plan@ =~= head + uniform_buffers(u as nat));
    }
    plan.push(Resource::IndexBuffer);
    plan.push(Resource::IndexBufferMemory);
    plan.push(Resource::VertexBuffer);
    plan.push(Resource::VertexBufferMemory);
    plan.push(Resource::TextureSampler);
    plan.push(Resource::TextureImageView);
    plan.push(Resource::TextureImage);
    plan.push(Resource::TextureImageMemory);
    plan.push(Resource::DescriptorSetLayout);
    plan.push(Resource::CommandPool);
    plan.push(Resource::Device);
    plan.push(Resource::Surface);
    if validation {
        plan.push(Resource::DebugCallback);
    }
    plan.push(Resource::Instance);
    assert(plan@ =~= teardown(
        framebuffer_count as nat,
        image_view_count as nat,
        uniform_buffer_count as nat,
        validation,
    ));
    plan
}


/// The step rebuilds the object `r` (of the new swapchain).
pub open spec fn rebuilds(step: SwapchainStep, r: Resource) -> bool {
    match step {
        SwapchainStep::CreateSwapchain => r == Resource::Swapchain,
        SwapchainStep::CreateImageViews => r is SwapchainImageView,
        SwapchainStep::CreateRenderPass => r == Resource::RenderPass,
        SwapchainStep::CreateGraphicsPipeline => r == Resource::GraphicsPipeline || r
            == Resource::PipelineLayout,
        SwapchainStep::CreateFramebuffers => r is Framebuffer,
        SwapchainStep::CreateCommandBuffers => r == Resource::CommandBuffers,
        _ => false,
    }
}

/// The step creates something.
pub open spec fn is_create(step: SwapchainStep) -> bool {
    !(step is WaitIdle) && !(step is Release)
}

/// Rebuilding what sits on the swapchain, in order: the swapchain, its image
/// views, the render pass, the pipeline and its layout, the framebuffers, the
/// command buffers.
pub open spec fn rebuild_steps() -> Seq<SwapchainStep> {
    seq![
        SwapchainStep::CreateSwapchain,
        SwapchainStep::CreateImageViews,
        SwapchainStep::CreateRenderPass,
        SwapchainStep::CreateGraphicsPipeline,
        SwapchainStep::CreateFramebuffers,
        SwapchainStep::CreateCommandBuffers,
    ]
}

/// Rebuilding the swapchain: wait for the device to be idle, release what is
/// built on the old swapchain, then rebuild it all.
pub open spec fn recreate_steps(framebuffer_count: nat, image_view_count: nat) -> Seq<SwapchainStep> {
    seq![SwapchainStep::WaitIdle] + swapchain_cleanup(framebuffer_count, image_view_count).map_values(
        |r: Resource| SwapchainStep::Release(r),
    ) + rebuild_steps()
}

/// The steps of rebuilding the swapchain, for an old swapchain with these
/// numbers of framebuffers and image views.
pub fn recreate_swapchain_plan(framebuffer_count: usize, image_view_count: usize) -> (r: Vec<
    SwapchainStep,
>)
    ensures
        r@ == recreate_steps(framebuffer_count as nat, image_view_count as nat),
{
    let cleanup = cleanup_swapchain_plan(framebuffer_count, image_view_count);
    let mut steps: Vec<SwapchainStep> = Vec::new();
    steps.push(SwapchainStep::WaitIdle);
    let ghost head = steps@;
    let n = cleanup.len();
    let mut i: usize = 0;
    while i < n
        invariant
            n == cleanup@.len(),
            i <= n,
            steps@ == head + cleanup@.take(i as int).map_values(
                |r: Resource| SwapchainStep::Release(r),
            ),
        decreases n - i,
    {
        steps.push(SwapchainStep::Release(cleanup[i]));
        i = i + 1;
        assert(steps@ =~= head + cleanup@.take(i as int).map_values(
            |r: Resource| SwapchainStep::Release(r),
        ));
    }
    assert(cleanup@.take(n as int) =~= cleanup@);
    steps.push(SwapchainStep::CreateSwapchain);
    steps.push(SwapchainStep::CreateImageViews);
    steps.push(SwapchainStep::CreateRenderPass);
    steps.push(SwapchainStep::CreateGraphicsPipeline);
    steps.push(SwapchainStep::CreateFramebuffers);
    steps.push(SwapchainStep::CreateCommandBuffers);
    assert(steps@ =~= recreate_steps(framebuffer_count as nat, image_view_count as nat));
    steps
}

/// Rebuilding the swapchain first waits for the device to be idle; it releases
/// everything before it creates anything; every object it releases is rebuilt
/// by a later step; and nothing is created before an object it uses.
pub proof fn law_recreate_rebuilds_what_it_releases(framebuffer_count: usize, image_view_count: usize)
    ensures
        ({
            let steps = recreate_steps(framebuffer_count as nat, image_view_count as nat);
            &&& steps[0] == SwapchainStep::WaitIdle
            &&& forall|j: int, k: int|
                0 <= j < k < steps.len() && is_create(#[trigger] steps[j]) ==> !(
                #[trigger] steps[k] is Release)
            &&& forall|k: int|
                0 <= k < steps.len() && (#[trigger] steps[k] is Release) ==> exists|j: int|
                    k < j < steps.len() && rebuilds(#[trigger] steps[j], steps[k]->Release_0)
            &&& forall|j: int, k: int, a: Resource, b: Resource|
                0 <= j < k < steps.len() && #[trigger] rebuilds(steps[j], a) && #[trigger] rebuilds(
                    steps[k],
                    b,
                ) ==> !depends_on(a, b)
        }),
{
    let fb = framebuffer_count as nat;
    let iv = image_view_count as nat;
    let c = swapchain_cleanup(fb, iv);
    let released = c.map_values(|r: Resource| SwapchainStep::Release(r));
    let steps = recreate_steps(fb, iv);
    let rs: int = 1 + released.len() as int;
    law_cleanup_releases_exactly_the_swapchain_objects(framebuffer_count, image_view_count);
    assert(steps.len() == rs + 6);
    assert forall|k: int| 0 <= k < steps.len() implies (#[trigger] steps[k] is Release) <==> (1
        <= k < rs) by {
        if k == 0 {
        } else if k < rs {
            assert(steps[k] == released[k - 1]);
        } else {
            assert(steps[k] == rebuild_steps()[k - rs]);
        }
    }
    assert forall|k: int| rs <= k < steps.len() implies #[trigger] steps[k] == rebuild_steps()[k
        - rs] by {}
    assert forall|k: int|
        0 <= k < steps.len() && (#[trigger] steps[k] is Release) implies exists|j: int|
        k < j < steps.len() && rebuilds(#[trigger] steps[j], steps[k]->Release_0) by {
        let r = c[k - 1];
        assert(steps[k] == released[k - 1]);
        assert(c.contains(r));
        assert(swapchain_bound(r, fb, iv));
        if r == Resource::Swapchain {
            assert(rebuilds(steps[rs], r));
        } else if r is SwapchainImageView {
            assert(rebuilds(steps[rs + 1], r));
        } else if r == Resource::RenderPass {
            assert(rebuilds(steps[rs + 2], r));
        } else if r == Resource::GraphicsPipeline || r == Resource::PipelineLayout {
            assert(rebuilds(steps[rs + 3], r));
        } else if r is Framebuffer {
            assert(rebuilds(steps[rs + 4], r));
        } else {
            assert(rebuilds(steps[rs + 5], r));
        }
    }
}

} // verus!
