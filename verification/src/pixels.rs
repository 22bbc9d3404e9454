//! An owned ARGB32 pixel buffer: the plain-value model of an image's pixel
//! store, on which the pixel-level operations are verified.

use vstd::prelude::*;

verus! {

/// An owned pixel buffer in row-major ARGB32 format.  Dimensions are at
/// least one; the data holds exactly `width * height` pixels.
#[derive(Clone, Debug)]
pub struct PixelBuffer {
    width: u32,
    height: u32,
    data: Vec<u32>,
}

impl PixelBuffer {
    /// The width in pixels.
    pub closed spec fn spec_width(&self) -> u32 {
        self.width
    }

    /// The height in pixels.
    pub closed spec fn spec_height(&self) -> u32 {
        self.height
    }

    /// The pixels, row-major.
    pub closed spec fn view(&self) -> Seq<u32> {
        self.data@
    }

    /// Well-formedness: positive dimensions, and one pixel per cell.
    pub open spec fn wf(&self) -> bool {
        &&& self.spec_width() >= 1
        &&& self.spec_height() >= 1
        &&& self.view().len() == self.spec_width() * self.spec_height()
    }

    /// A new buffer of the given dimensions, each floored to one, filled
    /// with zero (transparent black) pixels.
    pub fn new(width: u32, height: u32) -> (r: PixelBuffer)
        requires
            (if width >= 1 {
                width as int
            } else {
                1
            }) * (if height >= 1 {
                height as int
            } else {
                1
            }) <= usize::MAX as int,
        ensures
            r.wf(),
            r.spec_width() == (if width >= 1 {
                width
            } else {
                1u32
            }),
            r.spec_height() == (if height >= 1 {
                height
            } else {
                1u32
            }),
            r.view() == Seq::new((r.spec_width() * r.spec_height()) as nat, |i: int| 0u32),
    {
        let w: u32 = if width >= 1 {
            width
        } else {
            1
        };
        let h: u32 = if height >= 1 {
            height
        } else {
            1
        };
        let total: usize = (w as usize) * (h as usize);
        let mut data: Vec<u32> = Vec::new();
        let mut i: usize = 0;
        while i < total
            invariant
                i <= total,
                data@ == Seq::new(i as nat, |j: int| 0u32),
            decreases total - i,
        {
            data.push(0);
            proof {
                assert(data@ =~= Seq::new((i + 1) as nat, |j: int| 0u32));
            }
            i += 1;
        }
        PixelBuffer { width: w, height: h, data }
    }

    /// The width in pixels.
    pub fn getwidth(&self) -> (r: u32)
        ensures
            r == self.spec_width(),
    {
        self.width
    }

    /// The height in pixels.
    pub fn getheight(&self) -> (r: u32)
        ensures
            r == self.spec_height(),
    {
        self.height
    }

    /// The index of a coordinate pair in the row-major pixel data.
    pub open spec fn spec_index(&self, x: u32, y: u32) -> int {
        y * self.spec_width() + x
    }

    /// The pixel at column `x` of row `y`.
    pub fn getpixel(&self, x: u32, y: u32) -> (r: u32)
        requires
            self.wf(),
            x < self.spec_width(),
            y < self.spec_height(),
        ensures
            r == self.view()[self.spec_index(x, y)],
    {
        let n = self.data.len();
        proof {
            lemma_row_major_index(self.spec_width(), self.spec_height(), x, y);
        }
        let idx: usize = (y as usize) * (self.width as usize) + (x as usize);
        self.data[idx]
    }

    /// Set the pixel at column `x` of row `y`; no other pixel changes.
    pub fn putpixel(&mut self, x: u32, y: u32, color: u32)
        requires
            old(self).wf(),
            x < old(self).spec_width(),
            y < old(self).spec_height(),
        ensures
            final(self).wf(),
            final(self).spec_width() == old(self).spec_width(),
            final(self).spec_height() == old(self).spec_height(),
            final(self).view() == old(self).view().update(old(self).spec_index(x, y), color),
    {
        let n = self.data.len();
        proof {
            lemma_row_major_index(self.spec_width(), self.spec_height(), x, y);
        }
        let idx: usize = (y as usize) * (self.width as usize) + (x as usize);
        self.data.set(idx, color);
    }

    /// Wrap existing row-major pixel data; succeeds exactly when the data
    /// holds one pixel per cell of the floored dimensions.
    pub fn from_pixels(width: u32, height: u32, data: Vec<u32>) -> (r: Option<PixelBuffer>)
        ensures
            r is Some <==> data@.len() == (if width >= 1 {
                width as int
            } else {
                1
            }) * (if height >= 1 {
                height as int
            } else {
                1
            }),
            r is Some ==> r->0.wf(),
            r is Some ==> r->0.spec_width() == (if width >= 1 {
                width
            } else {
                1u32
            }),
            r is Some ==> r->0.spec_height() == (if height >= 1 {
                height
            } else {
                1u32
            }),
            r is Some ==> r->0.view() == data@,
    {
        let w: u32 = if width >= 1 {
            width
        } else {
            1
        };
        let h: u32 = if height >= 1 {
            height
        } else {
            1
        };
        assert((w as u64) * (h as u64) <= u64::MAX) by (nonlinear_arith)
            requires
                w <= u32::MAX,
                h <= u32::MAX,
        ;
        let need: u64 = (w as u64) * (h as u64);
        if data.len() as u64 == need {
            Some(PixelBuffer { width: w, height: h, data })
        } else {
            None
        }
    }

    /// The pixels, row-major, surrendering the buffer.
    pub fn into_pixels(self) -> (r: Vec<u32>)
        ensures
            r@ == self.view(),
    {
        self.data
    }

    /// An independent copy with the same dimensions and pixels: the two
    /// buffers share no storage, so mutating one never changes the other.
    pub fn copy(&self) -> (r: PixelBuffer)
        ensures
            r.spec_width() == self.spec_width(),
            r.spec_height() == self.spec_height(),
            r.view() == self.view(),
    {
        let mut data: Vec<u32> = Vec::new();
        let n = self.data.len();
        let mut i: usize = 0;
        while i < n
            invariant
                i <= n,
                n == self.data@.len(),
                data@ == self.data@.take(i as int),
            decreases n - i,
        {
            data.push(self.data[i]);
            proof {
                assert(data@ =~= self.data@.take(i + 1));
            }
            i += 1;
        }
        proof {
            assert(self.data@.take(n as int) =~= self.data@);
        }
        PixelBuffer { width: self.width, height: self.height, data }
    }

    /// Apply a function to every pixel in place.
    pub fn transform<F: Fn(u32) -> u32>(&mut self, trans: F)
        requires
            forall|p: u32| call_requires(trans, (p,)),
        ensures
            final(self).spec_width() == old(self).spec_width(),
            final(self).spec_height() == old(self).spec_height(),
            final(self).view().len() == old(self).view().len(),
            forall|i: int|
                0 <= i < old(self).view().len() ==> call_ensures(
                    trans,
                    (old(self).view()[i],),
                    final(self).view()[i],
                ),
    {
        let n = self.data.len();
        let mut i: usize = 0;
        while i < n
            invariant
                i <= n,
                n == self.data@.len(),
                self.width == old(self).width,
                self.height == old(self).height,
                forall|p: u32| call_requires(trans, (p,)),
                forall|j: int|
                    0 <= j < i ==> call_ensures(trans, (old(self).data@[j],), self.data@[j]),
                forall|j: int| i <= j < n ==> self.data@[j] == old(self).data@[j],
            decreases n - i,
        {
            let p = self.data[i];
            let q = trans(p);
            self.data.set(i, q);
            i += 1;
        }
    }
}

/// A row-major index lies inside the pixel data.
pub proof fn lemma_row_major_index(w: u32, h: u32, x: u32, y: u32)
    requires
        x < w,
        y < h,
    ensures
        0 <= y * w + x < w * h,
        y * w + x <= (h - 1) * w + (w - 1),
    decreases h,
{
    assert(y * w + x < w * h) by (nonlinear_arith)
        requires
            x < w,
            y < h,
    ;
    assert(y * w + x <= (h - 1) * w + (w - 1)) by (nonlinear_arith)
        requires
            x < w,
            y < h,
    ;
}

/// Copy independence: a copy starts equal to its source, and updating any
/// pixel of the copy leaves the source's pixels exactly as they were.
pub proof fn lemma_copy_independence(source: Seq<u32>, copied: Seq<u32>, i: int, color: u32)
    requires
        copied == source,
        0 <= i < copied.len(),
    ensures
        copied.update(i, color)[i] == color,
        forall|j: int| 0 <= j < source.len() && j != i ==> copied.update(i, color)[j] == source[j],
        source == copied.update(i, color).update(i, source[i]),
{
    assert(source =~= copied.update(i, color).update(i, source[i]));
}

} // verus!
