//! The 64x32 monochrome display buffer.
use vstd::prelude::*;

verus! {

pub const SCREEN_WIDTH: usize = 64;

pub const SCREEN_HEIGHT: usize = 32;

/// Number of pixels on the screen.
pub const SCREEN_SIZE: usize = 2048;

/// The display buffer, row-major: pixel `(x, y)` is `screen[y * 64 + x]`.
#[derive(Debug, Clone, Copy)]
pub struct Gpu {
    pub screen: [bool; 2048],
}

/// A screen with every pixel unset.
pub open spec fn blank_screen() -> Seq<bool> {
    Seq::new(2048, |_p: int| false)
}

impl Gpu {
    /// A display with every pixel unset.
    pub fn new() -> (r: Self)
        ensures
            r.screen@ == blank_screen(),
    {
        let r = Gpu { screen: [false; 2048] };
        assert(r.screen@ =~= blank_screen());
        r
    }

    /// Whether the pixel at column `x`, row `y` is set.
    pub fn pixel(&self, x: usize, y: usize) -> (r: bool)
        requires
            x < SCREEN_WIDTH,
            y < SCREEN_HEIGHT,
        ensures
            r == self.screen@[y * 64 + x],
    {
        self.screen[y * SCREEN_WIDTH + x]
    }
}

impl Default for Gpu {
    fn default() -> (r: Self)
        ensures
            r.screen@ == blank_screen(),
    {
        Gpu::new()
    }
}

} // verus!
