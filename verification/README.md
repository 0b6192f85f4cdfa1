# texture_mapping

The decisions behind a Vulkan renderer that draws one textured rectangle,
written as verified Verus code over plain values, with the Vulkan calls
themselves kept in a thin program around it.

- `src/vertex.rs`: the vertex type, its packed attribute layout, and the
  rectangle's vertices and indices.
- `src/descriptor.rs`: the descriptor set layout, the pool, the writes that
  point each set at its uniform buffer and the texture, and the uniform upload.
- `src/commands.rs`: what each command buffer records.
- `src/pipeline.rs`: the fixed state of the graphics pipeline.
- `src/frame.rs`: the present loop as a state machine (fence, acquire, submit,
  present, rebuild on an out-of-date swapchain or a resize).
- `src/lifecycle.rs`: the order in which objects are released when the
  swapchain is rebuilt and at shutdown.
- `app/`: the program that owns the Vulkan handles, performs each planned step
  with `ash`, and computes the float transform with `cgmath`.
