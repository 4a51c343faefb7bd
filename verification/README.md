# win_sdf_ui

A bevy program that renders sprites into an offscreen camera and turns the
result into a signed distance field with the jump-flood algorithm.

- `src/` is the verified library: the ping-pong texture pairs, the jump-flood
  step schedule, the single-entry bind group caches of the post-processing
  passes, the sizing of offscreen textures and the fullscreen sprite toggle.
  Each public function has a contract, and the laws that tie the functions
  together are proof functions next to them.
- `app/` is the bevy program: plugins, render pipelines, GPU passes, and the
  floating-point parts (the jump-flood pass count and the sprites' circular
  motion). It calls the library for every decision above.
- `tests/` runs the library on concrete values.
