use texture_mapping::lifecycle::{
    cleanup_swapchain_plan, recreate_swapchain_plan, teardown_plan, Resource, SwapchainStep,
};

#[test]
fn cleanup_releases_swapchain_objects_in_order() {
    assert_eq!(
        cleanup_swapchain_plan(2, 2),
        vec![
            Resource::CommandBuffers,
            Resource::Framebuffer(0),
            Resource::Framebuffer(1),
            Resource::GraphicsPipeline,
            Resource::PipelineLayout,
            Resource::RenderPass,
            Resource::SwapchainImageView(0),
            Resource::SwapchainImageView(1),
            Resource::Swapchain,
        ]
    );
}

#[test]
fn teardown_releases_everything_in_order() {
    let plan = teardown_plan(1, 1, 2, true);
    assert_eq!(
        plan,
        vec![
            Resource::ImageAvailableSemaphore(0),
            Resource::RenderFinishedSemaphore(0),
            Resource::InFlightFence(0),
            Resource::ImageAvailableSemaphore(1),
            Resource::RenderFinishedSemaphore(1),
            Resource::InFlightFence(1),
            Resource::CommandBuffers,
            Resource::Framebuffer(0),
            Resource::GraphicsPipeline,
            Resource::PipelineLayout,
            Resource::RenderPass,
            Resource::SwapchainImageView(0),
            Resource::Swapchain,
            Resource::DescriptorPool,
            Resource::UniformBuffer(0),
            Resource::UniformBufferMemory(0),
            Resource::UniformBuffer(1),
            Resource::UniformBufferMemory(1),
            Resource::IndexBuffer,
            Resource::IndexBufferMemory,
            Resource::VertexBuffer,
            Resource::VertexBufferMemory,
            Resource::TextureSampler,
            Resource::TextureImageView,
            Resource::TextureImage,
            Resource::TextureImageMemory,
            Resource::DescriptorSetLayout,
            Resource::CommandPool,
            Resource::Device,
            Resource::Surface,
            Resource::DebugCallback,
            Resource::Instance,
        ]
    );
}

#[test]
fn teardown_without_validation_keeps_no_debug_callback() {
    let plan = teardown_plan(3, 3, 3, false);
    assert!(!plan.contains(&Resource::DebugCallback));
    assert_eq!(plan.last(), Some(&Resource::Instance));
    assert_eq!(plan[plan.len() - 2], Resource::Surface);
}

#[test]
fn teardown_releases_each_object_once_and_device_after_its_children() {
    let plan = teardown_plan(3, 3, 3, true);
    for i in 0..plan.len() {
        for j in 0..plan.len() {
            if i != j {
                assert_ne!(plan[i], plan[j]);
            }
        }
    }
    let device = plan.iter().position(|r| *r == Resource::Device).unwrap();
    let instance = plan.iter().position(|r| *r == Resource::Instance).unwrap();
    let swapchain = plan.iter().position(|r| *r == Resource::Swapchain).unwrap();
    let surface = plan.iter().position(|r| *r == Resource::Surface).unwrap();
    assert!(device < instance);
    assert!(swapchain < surface);
    assert_eq!(instance, plan.len() - 1);
}

#[test]
fn recreate_waits_releases_then_rebuilds() {
    let steps = recreate_swapchain_plan(1, 1);
    assert_eq!(
        steps,
        vec![
            SwapchainStep::WaitIdle,
            SwapchainStep::Release(Resource::CommandBuffers),
            SwapchainStep::Release(Resource::Framebuffer(0)),
            SwapchainStep::Release(Resource::GraphicsPipeline),
            SwapchainStep::Release(Resource::PipelineLayout),
            SwapchainStep::Release(Resource::RenderPass),
            SwapchainStep::Release(Resource::SwapchainImageView(0)),
            SwapchainStep::Release(Resource::Swapchain),
            SwapchainStep::CreateSwapchain,
            SwapchainStep::CreateImageViews,
            SwapchainStep::CreateRenderPass,
            SwapchainStep::CreateGraphicsPipeline,
            SwapchainStep::CreateFramebuffers,
            SwapchainStep::CreateCommandBuffers,
        ]
    );
}
