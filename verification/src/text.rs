//! Text rendering: the font texture used for glyph sprites.

use crate::engine::TextureHandle;
use vstd::prelude::*;

verus! {

/// Turns strings into glyph sprites drawn from a font texture.
#[derive(Debug)]
pub struct TextRenderer {
    pub font_texture: Option<TextureHandle>,
}

impl TextRenderer {
    /// A renderer without a font (it draws nothing until one is set).
    pub fn new() -> (t: TextRenderer)
        ensures
            t.font_texture.is_none(),
    {
        TextRenderer { font_texture: None }
    }

    /// Uses this texture as the font atlas.
    pub fn set_font(&mut self, tex: TextureHandle)
        ensures
            final(self).font_texture == Some(tex),
    {
        self.font_texture = Some(tex);
    }
}

} // verus!
