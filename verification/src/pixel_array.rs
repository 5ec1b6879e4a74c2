//! A raster of pixels, row by row.

use vstd::prelude::*;
use crate::color::Pixel;

verus! {

/// A raster of `width` by `height` pixels. The pixel in column `x` of row `y`
/// is item `y * width + x` of `data`. Nothing forces `data` to hold as many
/// pixels as the raster has places: a new array holds none.
#[derive(Debug, Clone, PartialEq, Eq)]
pub struct PixelArray {
    pub data: Vec<Pixel>,
    pub width: usize,
    pub height: usize,
}

impl Default for PixelArray {
    /// The array of no width and no height, without pixels.
    fn default() -> (r: PixelArray)
        ensures
            r.data@ == Seq::<Pixel>::empty(),
            r.width == 0,
            r.height == 0,
    {
        PixelArray { data: Vec::new(), width: 0, height: 0 }
    }
}

impl PixelArray {
    /// Where in `data` the pixel in column `index.0` of row `index.1` lies.
    pub open spec fn offset(self, index: (usize, usize)) -> int {
        index.1 * self.width + index.0
    }

    /// Whether `index` names a place of the raster whose pixel `data` holds.
    pub open spec fn holds(self, index: (usize, usize)) -> bool {
        index.0 < self.width && index.1 < self.height && self.offset(index) < self.data@.len()
    }

    /// An array of the given width and height that holds no pixel yet.
    pub fn with(width: usize, height: usize) -> (r: PixelArray)
        ensures
            r.data@ == Seq::<Pixel>::empty(),
            r.width == width,
            r.height == height,
    {
        PixelArray { data: Vec::new(), width, height }
    }

    /// The pixel in column `index.0` of row `index.1`.
    pub fn index(&self, index: (usize, usize)) -> (r: &Pixel)
        requires
            self.holds(index),
        ensures
            *r == self.data@[self.offset(index)],
    {
        let held: usize = self.data.len();
        assert(0 <= index.1 * self.width <= self.offset(index) < held) by (nonlinear_arith)
            requires
                self.offset(index) == index.1 * self.width + index.0,
                self.offset(index) < held,
        ;
        &self.data[index.1 * self.width + index.0]
    }

    /// The pixel in column `index.0` of row `index.1`, to be changed in place.
    /// Nothing else of the array changes.
    pub fn index_mut(&mut self, index: (usize, usize)) -> (r: &mut Pixel)
        requires
            old(self).holds(index),
        ensures
            *r == old(self).data@[old(self).offset(index)],
            final(self).data@ == old(self).data@.update(old(self).offset(index), *final(r)),
            final(self).width == old(self).width,
            final(self).height == old(self).height,
    {
        let held: usize = self.data.len();
        assert(0 <= index.1 * self.width <= self.offset(index) < held) by (nonlinear_arith)
            requires
                self.offset(index) == index.1 * self.width + index.0,
                self.offset(index) < held,
        ;
        let at: usize = index.1 * self.width + index.0;
        &mut self.data[at]
    }
}

} // verus!
