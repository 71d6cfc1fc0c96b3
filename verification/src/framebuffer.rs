//! The pixel buffer a frame is rendered into.

use vstd::prelude::*;

verus! {

/// A row-major grid of packed `0xRRGGBB` pixels with a current draw color.
pub struct Framebuffer {
    pub width: usize,
    pub height: usize,
    pub buffer: Vec<u32>,
    pub current_color: u32,
}

impl Framebuffer {
    /// The buffer really covers `width` by `height` pixels, row-major.
    pub open spec fn wf(&self) -> bool {
        self.buffer@.len() == (self.width as int) * (self.height as int)
    }

    /// The pixel stored at column `x` of row `y`.
    pub open spec fn pixel_at(&self, x: int, y: int) -> u32 {
        self.buffer@[y * self.width + x]
    }

    /// A black buffer of the given size.
    pub fn new(width: usize, height: usize) -> (fb: Framebuffer)
        requires
            (width as int) * (height as int) <= usize::MAX,
        ensures
            fb.width == width,
            fb.height == height,
            fb.current_color == 0,
            fb.wf(),
            forall|i: int| 0 <= i < fb.buffer@.len() ==> fb.buffer@[i] == 0u32,
    {
        proof {
            assert((width as int) * (height as int) >= 0) by (nonlinear_arith)
                requires
                    width >= 0,
                    height >= 0,
            ;
        }
        let n: usize = width * height;
        let mut buffer: Vec<u32> = Vec::new();
        let mut i: usize = 0;
        while i < n
            invariant
                i <= n,
                buffer@.len() == i,
                forall|j: int| 0 <= j < i ==> buffer@[j] == 0u32,
            decreases n - i,
        {
            buffer.push(0);
            i = i + 1;
        }
        Framebuffer { width, height, buffer, current_color: 0 }
    }

    /// Set the color the next `point` calls will write.
    pub fn set_current_color(&mut self, color: u32)
        ensures
            final(self).current_color == color,
            final(self).width == old(self).width,
            final(self).height == old(self).height,
            final(self).buffer == old(self).buffer,
    {
        self.current_color = color;
    }

    /// Write the current color at pixel (x, y).
    pub fn point(&mut self, x: usize, y: usize)
        requires
            old(self).wf(),
            x < old(self).width,
            y < old(self).height,
        ensures
            final(self).wf(),
            final(self).width == old(self).width,
            final(self).height == old(self).height,
            final(self).current_color == old(self).current_color,
            final(self).buffer@ == old(self).buffer@.update(
                (y as int) * (old(self).width as int) + (x as int),
                old(self).current_color,
            ),
    {
        proof {
            assert((y as int) * (self.width as int) + (x as int) < (self.width as int) * (
            self.height as int)) by (nonlinear_arith)
                requires
                    0 <= x < self.width,
                    0 <= y < self.height,
            ;
        }
        let n: usize = self.buffer.len();
        let idx: usize = y * self.width + x;
        let c: u32 = self.current_color;
        self.buffer.set(idx, c);
    }
}

} // verus!
