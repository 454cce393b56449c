# Cutlass

The engine of a video player, verified with Verus: opening a video with optional
hardware acceleration, decoding it frame by frame, repacking and uploading
frames, importing hardware frames as textures, compositing NV12 to RGB, and
playback.

- `src/` is the library. It works on plain values: it says what FFmpeg, the GPU
  and the window are asked for, and takes their answers. Its contracts and laws
  are proved. The one thing that they take on trust is the standard library's
  formatter, which `Debug` writes to (`src/text.rs`).
- `app/` is the player around it. It calls FFmpeg (`ffmpeg-next`), the GPU
  (`wgpu`), Metal and the window (`slint` with its `unstable-wgpu-28` feature).
- `tests/` runs the library on concrete values.

A decode call is a conversation. `VideoDecoder::decode_next` or
`decode_next_hw` starts it and asks for a piece of work; the caller does the
work and hands the result to `VideoDecoder::resume`, which asks for the next,
until the call ends with an outcome or an error.
