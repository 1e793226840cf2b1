//! Rasters: the single-channel bitmap of a QR code and the four-channel canvas
//! of a card, both stored row by row.

use vstd::prelude::*;

verus! {

/// One pixel of a canvas: red, green, blue and alpha.
#[derive(Clone, Copy, Debug, PartialEq, Eq, Structural)]
pub struct Rgba {
    pub r: u8,
    pub g: u8,
    pub b: u8,
    pub a: u8,
}

/// A bitmap as plain values: its size and its luminance samples, row by row.
pub ghost struct BitmapView {
    pub width: nat,
    pub height: nat,
    pub pixels: Seq<u8>,
}

/// A canvas as plain values: its size and its pixels, row by row.
pub ghost struct CanvasView {
    pub width: nat,
    pub height: nat,
    pub pixels: Seq<Rgba>,
}

/// A single-channel luminance bitmap.
#[derive(Clone, Debug)]
pub struct Bitmap {
    pub(crate) width: u32,
    pub(crate) height: u32,
    pub(crate) pixels: Vec<u8>,
}

/// A four-channel raster.
#[derive(Clone, Debug)]
pub struct Canvas {
    pub(crate) width: u32,
    pub(crate) height: u32,
    pub(crate) pixels: Vec<Rgba>,
}

/// The index of the sample at column `x` of row `y` in a raster `width` wide.
pub open spec fn offset(width: nat, x: nat, y: nat) -> int {
    (y * width + x) as int
}

/// A position inside a raster has its offset inside the raster's storage.
pub proof fn offset_in_range(width: nat, height: nat, x: nat, y: nat)
    requires
        x < width,
        y < height,
    ensures
        0 <= offset(width, x, y) < width * height,
        0 <= (y as int) * (width as int) <= (y as int) * (width as int) + (x as int),
        (y as int) * (width as int) + (x as int) < (width as int) * (height as int),
{
    assert(0 <= (y as int) * (width as int) && (y as int) * (width as int) + (x as int) < (width as int)
        * (height as int)) by (nonlinear_arith)
        requires
            0 <= x < width,
            0 <= y < height,
    ;
}

impl View for Bitmap {
    type V = BitmapView;

    closed spec fn view(&self) -> BitmapView {
        BitmapView { width: self.width as nat, height: self.height as nat, pixels: self.pixels@ }
    }
}

impl View for Canvas {
    type V = CanvasView;

    closed spec fn view(&self) -> CanvasView {
        CanvasView { width: self.width as nat, height: self.height as nat, pixels: self.pixels@ }
    }
}

impl BitmapView {
    /// There is exactly one sample for each position.
    pub open spec fn well_formed(self) -> bool {
        self.pixels.len() == self.width * self.height
    }

    /// The sample at column `x` of row `y`.
    pub open spec fn at(self, x: nat, y: nat) -> u8 {
        self.pixels[offset(self.width, x, y)]
    }
}

impl CanvasView {
    /// There is exactly one pixel for each position.
    pub open spec fn well_formed(self) -> bool {
        self.pixels.len() == self.width * self.height
    }

    /// The pixel at column `x` of row `y`.
    pub open spec fn at(self, x: nat, y: nat) -> Rgba {
        self.pixels[offset(self.width, x, y)]
    }
}

/// The pixels that a run of bytes holds, four bytes a pixel: red, green, blue
/// and alpha.
pub open spec fn unpacked(bytes: Seq<u8>) -> Seq<Rgba> {
    Seq::new(
        bytes.len() / 4,
        |i: int| Rgba { r: bytes[4 * i], g: bytes[4 * i + 1], b: bytes[4 * i + 2], a: bytes[4 * i + 3] },
    )
}

/// The bytes of a run of pixels, four bytes a pixel: red, green, blue and
/// alpha.
pub open spec fn packed(pixels: Seq<Rgba>) -> Seq<u8> {
    Seq::new(
        4 * pixels.len(),
        |j: int|
            {
                let p = pixels[j / 4];
                if j % 4 == 0 {
                    p.r
                } else if j % 4 == 1 {
                    p.g
                } else if j % 4 == 2 {
                    p.b
                } else {
                    p.a
                }
            },
    )
}

/// Pixels that were turned into bytes are read back from the bytes unchanged.
pub proof fn unpacking_what_was_packed(pixels: Seq<Rgba>)
    ensures
        unpacked(packed(pixels)) == pixels,
{
    assert(unpacked(packed(pixels)) =~= pixels);
}

/// The number of positions of a raster, where it fits the machine's word.
fn area(width: u32, height: u32) -> (n: Option<usize>)
    ensures
        n matches Some(a) ==> a == width * height,
        n is None ==> width * height > usize::MAX,
{
    assert(width * height <= 0xFFFF_FFFF * 0xFFFF_FFFF) by (nonlinear_arith)
        requires
            width <= 0xFFFF_FFFF,
            height <= 0xFFFF_FFFF,
    ;
    let a: u64 = (width as u64) * (height as u64);
    if a > usize::MAX as u64 {
        None
    } else {
        Some(a as usize)
    }
}

impl Bitmap {
    /// There is exactly one sample for each position.
    pub open spec fn well_formed(&self) -> bool {
        self@.well_formed()
    }

    /// A bitmap of the given size over `pixels`, where `pixels` holds one sample
    /// for each position; none otherwise.
    pub fn new(width: u32, height: u32, pixels: Vec<u8>) -> (out: Option<Bitmap>)
        ensures
            pixels@.len() == width * height <==> out is Some,
            out matches Some(b) ==> b.well_formed() && b@ == (BitmapView {
                width: width as nat,
                height: height as nat,
                pixels: pixels@,
            }),
    {
        let n = pixels.len();
        match area(width, height) {
            Some(a) => {
                if n == a {
                    Some(Bitmap { width, height, pixels })
                } else {
                    None
                }
            },
            None => None,
        }
    }

    /// Whether there is exactly one entry for each position.
    pub fn check(&self) -> (ok: bool)
        ensures
            ok == self.well_formed(),
    {
        let n = self.pixels.len();
        match area(self.width, self.height) {
            Some(a) => n == a,
            None => false,
        }
    }

    /// The number of columns.
    pub fn width(&self) -> (w: u32)
        ensures
            w == self@.width,
    {
        self.width
    }

    /// The number of rows.
    pub fn height(&self) -> (h: u32)
        ensures
            h == self@.height,
    {
        self.height
    }

    /// The samples, row by row.
    pub fn pixels(&self) -> (p: &Vec<u8>)
        ensures
            p@ == self@.pixels,
    {
        &self.pixels
    }

    /// The sample at column `x` of row `y`.
    pub fn get(&self, x: u32, y: u32) -> (p: u8)
        requires
            self.well_formed(),
            x < self@.width,
            y < self@.height,
        ensures
            p == self@.at(x as nat, y as nat),
    {
        proof {
            offset_in_range(self.width as nat, self.height as nat, x as nat, y as nat);
        }
        let n = self.pixels.len();
        assert(n == (self.width as int) * (self.height as int));
        self.pixels[(y as usize) * (self.width as usize) + (x as usize)]
    }
}

impl Canvas {
    /// There is exactly one pixel for each position.
    pub open spec fn well_formed(&self) -> bool {
        self@.well_formed()
    }

    /// A canvas of the given size over `pixels`, where `pixels` holds one pixel
    /// for each position; none otherwise.
    pub fn new(width: u32, height: u32, pixels: Vec<Rgba>) -> (out: Option<Canvas>)
        ensures
            pixels@.len() == width * height <==> out is Some,
            out matches Some(c) ==> c.well_formed() && c@ == (CanvasView {
                width: width as nat,
                height: height as nat,
                pixels: pixels@,
            }),
    {
        let n = pixels.len();
        match area(width, height) {
            Some(a) => {
                if n == a {
                    Some(Canvas { width, height, pixels })
                } else {
                    None
                }
            },
            None => None,
        }
    }

    /// Whether there is exactly one entry for each position.
    pub fn check(&self) -> (ok: bool)
        ensures
            ok == self.well_formed(),
    {
        let n = self.pixels.len();
        match area(self.width, self.height) {
            Some(a) => n == a,
            None => false,
        }
    }

    /// The number of columns.
    pub fn width(&self) -> (w: u32)
        ensures
            w == self@.width,
    {
        self.width
    }

    /// The number of rows.
    pub fn height(&self) -> (h: u32)
        ensures
            h == self@.height,
    {
        self.height
    }

    /// The pixels, row by row.
    pub fn pixels(&self) -> (p: &Vec<Rgba>)
        ensures
            p@ == self@.pixels,
    {
        &self.pixels
    }

    /// A canvas of the given size over four bytes for each pixel, where
    /// `bytes` holds exactly that many; none otherwise.
    pub fn from_bytes(width: u32, height: u32, bytes: &Vec<u8>) -> (out: Option<Canvas>)
        ensures
            bytes@.len() == 4 * (width * height) <==> out is Some,
            out matches Some(c) ==> c.well_formed() && c@ == (CanvasView {
                width: width as nat,
                height: height as nat,
                pixels: unpacked(bytes@),
            }),
    {
        let len = bytes.len();
        let n = match area(width, height) {
            Some(a) => a,
            None => {
                return None;
            },
        };
        if n > usize::MAX / 4 || len != 4 * n {
            return None;
        }
        let mut pixels: Vec<Rgba> = Vec::new();
        let mut i: usize = 0;
        while i < n
            invariant
                i <= n,
                len == bytes@.len(),
                len == 4 * n,
                pixels@.len() == i,
                forall|k: int| 0 <= k < i ==> pixels@[k] == unpacked(bytes@)[k],
            decreases n - i,
        {
            pixels.push(
                Rgba {
                    r: bytes[4 * i],
                    g: bytes[4 * i + 1],
                    b: bytes[4 * i + 2],
                    a: bytes[4 * i + 3],
                },
            );
            i += 1;
        }
        assert(pixels@ =~= unpacked(bytes@));
        Some(Canvas { width, height, pixels })
    }

    /// The bytes of the canvas, row by row, four bytes a pixel.
    pub fn to_bytes(&self) -> (out: Vec<u8>)
        ensures
            out@ == packed(self@.pixels),
    {
        let mut out: Vec<u8> = Vec::new();
        let n = self.pixels.len();
        let mut i: usize = 0;
        while i < n
            invariant
                i <= n,
                n == self.pixels@.len(),
                out@.len() == 4 * i,
                forall|j: int| 0 <= j < 4 * i ==> out@[j] == packed(self.pixels@)[j],
            decreases n - i,
        {
            let p = self.pixels[i];
            out.push(p.r);
            out.push(p.g);
            out.push(p.b);
            out.push(p.a);
            i += 1;
        }
        assert(out@ =~= packed(self.pixels@));
        out
    }

    /// Sets the pixel at column `x` of row `y`; every other pixel stays.
    pub fn put(&mut self, x: u32, y: u32, pixel: Rgba)
        requires
            old(self).well_formed(),
            x < old(self)@.width,
            y < old(self)@.height,
        ensures
            final(self)@ == (CanvasView {
                width: old(self)@.width,
                height: old(self)@.height,
                pixels: old(self)@.pixels.update(offset(old(self)@.width, x as nat, y as nat), pixel),
            }),
            final(self).well_formed(),
    {
        proof {
            offset_in_range(self.width as nat, self.height as nat, x as nat, y as nat);
        }
        let n = self.pixels.len();
        assert(n == (self.width as int) * (self.height as int));
        let at = (y as usize) * (self.width as usize) + (x as usize);
        self.pixels.set(at, pixel);
    }

    /// The pixel at column `x` of row `y`.
    pub fn get(&self, x: u32, y: u32) -> (p: Rgba)
        requires
            self.well_formed(),
            x < self@.width,
            y < self@.height,
        ensures
            p == self@.at(x as nat, y as nat),
    {
        proof {
            offset_in_range(self.width as nat, self.height as nat, x as nat, y as nat);
        }
        let n = self.pixels.len();
        assert(n == (self.width as int) * (self.height as int));
        self.pixels[(y as usize) * (self.width as usize) + (x as usize)]
    }
}

} // verus!
