//! The pixel buffer a render fills: `width * height` RGB byte triples in
//! row-major order, top row first.
use vstd::prelude::*;

verus! {

/// Where the triple of pixel `(x, y)` starts in a buffer `width` pixels wide.
pub open spec fn pixel_offset(width: nat, x: nat, y: nat) -> int {
    (3 * (y * width + x)) as int
}

proof fn lemma_offset_in_bounds(width: nat, height: nat, x: nat, y: nat)
    requires
        x < width,
        y < height,
    ensures
        y * width + x < width * height,
        pixel_offset(width, x, y) + 3 <= 3 * width * height,
{
    assert(y * width + x < width * height) by (nonlinear_arith)
        requires
            x < width,
            y < height,
    ;
    assert(3 * (width * height) == 3 * width * height) by (nonlinear_arith);
}

pub struct Raster {
    width: u32,
    height: u32,
    bytes: Vec<u8>,
}

impl Raster {
    pub closed spec fn spec_width(&self) -> nat {
        self.width as nat
    }

    pub closed spec fn spec_height(&self) -> nat {
        self.height as nat
    }

    /// The bytes of the buffer, three per pixel.
    pub closed spec fn spec_bytes(&self) -> Seq<u8> {
        self.bytes@
    }

    pub open spec fn wf(&self) -> bool {
        &&& self.spec_bytes().len() == 3 * self.spec_width() * self.spec_height()
        &&& 3 * self.spec_width() * self.spec_height() <= usize::MAX
    }

    /// The triple of pixel `(x, y)`.
    pub open spec fn spec_pixel(&self, x: nat, y: nat) -> Seq<u8> {
        let o = pixel_offset(self.spec_width(), x, y);
        self.spec_bytes().subrange(o, o + 3)
    }

    /// A buffer of the given size with every pixel black.
    pub fn new(width: u32, height: u32) -> (r: Raster)
        requires
            3 * width * height <= usize::MAX,
        ensures
            r.wf(),
            r.spec_width() == width,
            r.spec_height() == height,
            forall|k: int| 0 <= k < r.spec_bytes().len() ==> r.spec_bytes()[k] == 0,
    {
        proof {
            assert(width * height <= 3 * width * height) by (nonlinear_arith);
            assert(3 * (width * height) == 3 * width * height) by (nonlinear_arith);
        }
        let n: usize = (width as usize) * (height as usize) * 3;
        let mut bytes: Vec<u8> = Vec::new();
        while bytes.len() < n
            invariant
                bytes@.len() <= n,
                forall|k: int| 0 <= k < bytes@.len() ==> bytes@[k] == 0,
            decreases n - bytes@.len(),
        {
            bytes.push(0);
        }
        Raster { width, height, bytes }
    }

    pub fn width(&self) -> (r: u32)
        ensures
            r == self.spec_width(),
    {
        self.width
    }

    pub fn height(&self) -> (r: u32)
        ensures
            r == self.spec_height(),
    {
        self.height
    }

    /// Writes the triple of pixel `(x, y)`; no other byte changes.
    pub fn set_pixel(&mut self, x: u32, y: u32, rgb: [u8; 3])
        requires
            old(self).wf(),
            x < old(self).spec_width(),
            y < old(self).spec_height(),
        ensures
            final(self).wf(),
            final(self).spec_width() == old(self).spec_width(),
            final(self).spec_height() == old(self).spec_height(),
            final(self).spec_bytes() == old(self).spec_bytes().update(
                pixel_offset(old(self).spec_width(), x as nat, y as nat),
                rgb[0],
            ).update(
                pixel_offset(old(self).spec_width(), x as nat, y as nat) + 1,
                rgb[1],
            ).update(pixel_offset(old(self).spec_width(), x as nat, y as nat) + 2, rgb[2]),
    {
        proof {
            lemma_offset_in_bounds(self.width as nat, self.height as nat, x as nat, y as nat);
        }
        let o: usize = ((y as usize) * (self.width as usize) + (x as usize)) * 3;
        self.bytes.set(o, rgb[0]);
        self.bytes.set(o + 1, rgb[1]);
        self.bytes.set(o + 2, rgb[2]);
    }

    /// The triple of pixel `(x, y)`.
    pub fn pixel(&self, x: u32, y: u32) -> (r: [u8; 3])
        requires
            self.wf(),
            x < self.spec_width(),
            y < self.spec_height(),
        ensures
            r@ == self.spec_pixel(x as nat, y as nat),
    {
        proof {
            lemma_offset_in_bounds(self.width as nat, self.height as nat, x as nat, y as nat);
        }
        let o: usize = ((y as usize) * (self.width as usize) + (x as usize)) * 3;
        let r = [self.bytes[o], self.bytes[o + 1], self.bytes[o + 2]];
        assert(r@ =~= self.spec_pixel(x as nat, y as nat));
        r
    }

    /// The bytes, row-major with the top row first.
    pub fn into_bytes(self) -> (r: Vec<u8>)
        ensures
            r@ == self.spec_bytes(),
    {
        self.bytes
    }
}

} // verus!
