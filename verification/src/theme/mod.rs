//! Semantic theme vocabulary: glyphs, badges and terminal capabilities.

pub mod badges;
pub mod glyphs;
pub mod terminal_caps;
