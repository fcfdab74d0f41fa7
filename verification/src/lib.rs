//! A bitmap-font text-rendering layer for an OpenGL-backed terminal-style
//! display.
//!
//! The crate owns two things: loading a bitmap-font description and its glyph
//! atlas into normalized per-character texture regions ([`font`]), and the
//! render-orchestration state machine that turns a window, a projection
//! matrix, and pre-built draw meshes into composited frames ([`terminal`],
//! [`viewport`]).  Window creation, event decoding, GPU program compilation
//! and the draw-call primitive itself are external collaborators: the
//! orchestrator only decides, and hands its decisions out as plain values.

use vstd::prelude::*;

pub mod font;
pub mod terminal;
pub mod viewport;

verus! {

/// Everything that can go wrong in this crate.
///
/// Asset-loading failures (`AssetMissing`, `FormatError`,
/// `UnsupportedColorFormat`, `CorruptAsset`) are unrecoverable at load time:
/// the loader aborts and never hands out a partially-built font.
/// `CharacterNotFound` is a normal, recoverable lookup failure.
/// `UnsupportedOperation` signals caller misuse: a graphics-dependent
/// operation was invoked on a headless instance.
#[derive(Clone, Copy, Debug, PartialEq, Eq, Structural)]
pub enum GlermError {
    /// A referenced description or atlas file does not exist on disk.
    AssetMissing,
    /// The description grammar is violated, or the atlas image is undecodable.
    FormatError,
    /// The atlas decodes, but not to a 4-channel (RGBA) layout.
    UnsupportedColorFormat,
    /// The decoded pixel buffer length mismatches the declared dimensions.
    CorruptAsset,
    /// A graphics-dependent operation was invoked on a headless instance.
    UnsupportedOperation,
    /// Metrics were requested for a character code with no glyph entry.
    CharacterNotFound,
}

} // verus!
