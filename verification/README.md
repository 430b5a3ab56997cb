# psionic

A small OpenGL game engine whose core is verified with Verus.

- `src/` is the verified library: scene templates and the scene loader
  (internal ids, resources, scene graph), the resource manager, models and
  vertex data, the render pipeline's batching, sorting and draw planning, the
  input state machine, the runtime's event handling, and the OpenGL
  enumeration values. Floating-point values are carried as their `f32` bits;
  the library moves them and, to sort draws by distance, compares them by
  their bits (IEEE `<`), but does no arithmetic on them.
- `app/` is the program around it: the window and event loop (winit), the
  OpenGL calls (glow), the camera and matrix maths (glam), file loading
  (stb_image) and the demo scene with a quad.
- `tests/` exercises the library with concrete scenes, inputs and values.
