//! Icarus: byte-stream readers, the Blender DNA and SPIR-V decoders, input
//! state, colours and the small decision procedures of the game framework.

pub mod color;
pub mod input;
pub mod platform;
pub mod text;
pub mod parsing;
pub mod spirv;
pub mod blender;
pub mod glyph;
pub mod string_util;
pub mod vk;
pub mod swapchain;
pub mod vk_example_base;
pub mod games;
pub mod tetris;
pub mod minesweeper;
