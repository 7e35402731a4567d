# icarus

A small game and graphics toolkit whose logic is written in Verus and proved
against its contracts.

## Layout

- `src/` — the verified library:
  - `color`, `input`, `platform`: colours packed as ARGB words, the keyboard
    and mouse state, and how window-system events change it.
  - `parsing`, `blender`, `spirv`, `glyph`, `string_util`, `text`: readers for
    binary formats (a `.blend` file's header and DNA, SPIR-V shader modules,
    the glyph sheet) and small text helpers.
  - `vk`, `swapchain`, `vk_example_base`: the Vulkan values the framework
    decides on (present mode, image count, queue families, memory types,
    depth formats), the command-line options and the window events.
  - `games`, `tetris`, `minesweeper`: the rules of the board games: moves,
    wins, the snake's steps, the falling pieces and the mine field.
- `tests/` — tests of the library on concrete values.
- `app/` — what runs outside the proofs: the window, Vulkan and image loading
  through C libraries, and the floating-point maths and camera.
