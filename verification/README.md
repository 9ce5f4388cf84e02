# skyshard

The logic of a small Vulkan engine, with contracts proved by Verus, and an
example program around it.

- `src/` is the library:
  - `blend/` reads Blender's `.blend` files: the header, the file blocks with
    their locations, the blocks by identifier and by address, and the names
    and types of the DNA block.
  - `assets/` holds the table of third vertices and indices with adjacency of
    triangle meshes, the interning of vertex attributes, the buffers of glTF
    documents, and the assets manager.
  - `graphics/vulkan/` makes the choices Vulkan objects are made with: the
    queue family of a device, the settings of a swapchain, what an instance is
    made with, SPIR-V binaries and shader modules, debug levels, usage flags
    of buffers and images, and the resources that carry GPU memory.
  - `input.rs` keeps which movement actions the keyboard holds active.
  - `noise.rs` holds the lattice of a gradient noise.
  - `util.rs` parses and packs versions and rounds to multiples.
- `tests/` runs the library on concrete values.
- `app/` is the example program: the window, the event loop, logging, the
  Vulkan calls, and the floating-point camera, movement and noise.
