use vstd::prelude::*;

verus! {

/// The record of the picture a widget draws on: whether there is one, and its size.
/// The picture itself is kept by whoever paints.
#[derive(Clone, Copy, Debug, PartialEq, Eq, Structural)]
pub struct TextureStore {
    pub stored: bool,
    pub width: u32,
    pub height: u32,
}

impl TextureStore {
    /// The record of no picture.
    pub fn new() -> (s: TextureStore)
        ensures
            s == (TextureStore { stored: false, width: 0, height: 0 }),
    {
        TextureStore { stored: false, width: 0, height: 0 }
    }

    /// Whether a picture of `width` by `height` has to be made: there is none yet,
    /// or the one there is has another size.
    pub open spec fn outdated(self, width: u32, height: u32) -> bool {
        !self.stored || self.width != width || self.height != height
    }

    /// Asks for a picture of `width` by `height` to draw on. Says whether a new
    /// one has to be made, and takes note of its size.
    pub fn create_or_resize_texture(&mut self, width: u32, height: u32) -> (create: bool)
        ensures
            create == old(self).outdated(width, height),
            *final(self) == (TextureStore { stored: true, width, height }),
    {
        let create = !self.stored || self.width != width || self.height != height;
        self.stored = true;
        self.width = width;
        self.height = height;
        create
    }
}

} // verus!
