use vstd::arithmetic::div_mod::lemma_fundamental_div_mod_converse;
use vstd::prelude::*;

verus! {

/// A texture identifier handed out by the GUI layer.
#[derive(Clone, Copy, Debug, PartialEq, Eq, Structural, Hash)]
pub enum TextureId {
    /// A texture of the GUI layer's own atlas, numbered.
    Managed(u64),
    /// A texture supplied by the application.
    User(u64),
}

/// The pixels of an image, row by row.
pub enum Pixels {
    /// One coverage (opacity) value per texel, as used by font atlases.
    Coverage(Vec<u8>),
    /// One RGBA color per texel.
    Rgba(Vec<[u8; 4]>),
}

/// An image of `width` x `height` texels.
pub struct Image {
    width: u32,
    height: u32,
    pixels: Pixels,
}

/// One texel to be written into a renderer texture.
#[derive(Clone, Copy, Debug, PartialEq, Eq, Structural)]
pub struct Texel {
    pub x: u64,
    pub y: u64,
    /// The texel in the renderer's layout: red in the lowest byte, alpha in
    /// the highest.
    pub color: u32,
}

/// The renderer texel for a coverage value: premultiplied gray, every
/// channel equal to the coverage.
pub open spec fn gray_texel(c: u8) -> u32 {
    (c as u32 * 0x0101_0101u32) as u32
}

/// The renderer texel for an RGBA color.
pub open spec fn rgba_texel(p: [u8; 4]) -> u32 {
    (p[0] as u32 | (p[1] as u32) << 8u32 | (p[2] as u32) << 16u32 | (p[3] as u32) << 24u32) as u32
}

/// Channel `k` (0 red, 1 green, 2 blue, 3 alpha) of a renderer texel.
pub open spec fn channel(t: u32, k: u32) -> u8 {
    ((t >> (8 * k)) & 0xffu32) as u8
}

/// A full-color texel keeps each channel of its color.
pub proof fn lemma_rgba_texel_channels(p: [u8; 4])
    ensures
        channel(rgba_texel(p), 0) == p[0],
        channel(rgba_texel(p), 1) == p[1],
        channel(rgba_texel(p), 2) == p[2],
        channel(rgba_texel(p), 3) == p[3],
{
    let (r, g, b, a) = (p[0] as u32, p[1] as u32, p[2] as u32, p[3] as u32);
    let t = (r | g << 8u32 | b << 16u32 | a << 24u32) as u32;
    assert(t >> 0u32 & 0xffu32 == r && t >> 8u32 & 0xffu32 == g && t >> 16u32 & 0xffu32 == b
        && t >> 24u32 & 0xffu32 == a) by (bit_vector)
        requires
            r <= 0xff && g <= 0xff && b <= 0xff && a <= 0xff,
            t == r | g << 8u32 | b << 16u32 | a << 24u32,
    ;
}

/// A coverage texel is premultiplied gray: every channel equals the
/// coverage.
pub proof fn lemma_gray_texel_channels(c: u8)
    ensures
        channel(gray_texel(c), 0) == c,
        channel(gray_texel(c), 1) == c,
        channel(gray_texel(c), 2) == c,
        channel(gray_texel(c), 3) == c,
{
    let cu = c as u32;
    let t = (cu * 0x0101_0101u32) as u32;
    assert(t >> 0u32 & 0xffu32 == cu && t >> 8u32 & 0xffu32 == cu && t >> 16u32 & 0xffu32 == cu
        && t >> 24u32 & 0xffu32 == cu) by (bit_vector)
        requires
            cu <= 0xff,
            t == (cu * 0x0101_0101u32) as u32,
    ;
}

proof fn lemma_area_bounds(w: u32, h: u32)
    ensures
        w as int * h as int <= u64::MAX,
        w as int * h as int > 0 ==> w > 0,
{
    assert(w as int * h as int <= 0xffff_ffffint * 0xffff_ffffint) by (nonlinear_arith)
        requires
            w <= 0xffff_ffffint,
            h <= 0xffff_ffffint,
            w >= 0,
            h >= 0,
    ;
    assert(w as int * h as int > 0 ==> w > 0) by (nonlinear_arith);
}

/// Moving one texel right, wrapping to the next row, keeps the row-major
/// index in step and stays inside the image.
proof fn lemma_row_major_step(w: int, h: int, x: int, y: int)
    requires
        0 <= x < w,
        0 <= y,
        y * w + x < w * h,
    ensures
        y < h,
        x + 1 == w ==> (y + 1) * w == y * w + x + 1,
{
    assert(y < h) by (nonlinear_arith)
        requires
            0 <= x < w,
            0 <= y,
            y * w + x < w * h,
    ;
    assert((y + 1) * w == y * w + w) by (nonlinear_arith);
}

impl Image {
    pub closed spec fn spec_width(&self) -> nat {
        self.width as nat
    }

    pub closed spec fn spec_height(&self) -> nat {
        self.height as nat
    }

    pub closed spec fn spec_pixels(&self) -> Pixels {
        self.pixels
    }

    /// Number of texels in the image.
    pub open spec fn area(&self) -> nat {
        self.spec_width() * self.spec_height()
    }

    /// The renderer texel for the image's `i`-th pixel (row-major).
    pub open spec fn texel_color(&self, i: int) -> u32 {
        match self.spec_pixels() {
            Pixels::Coverage(c) => gray_texel(c@[i]),
            Pixels::Rgba(p) => rgba_texel(p@[i]),
        }
    }

    pub open spec fn pixel_count(&self) -> nat {
        match self.spec_pixels() {
            Pixels::Coverage(c) => c@.len(),
            Pixels::Rgba(p) => p@.len(),
        }
    }

    #[verifier::type_invariant]
    closed spec fn inv(&self) -> bool {
        self.pixel_count() == self.area()
    }

    /// A coverage image; `None` unless there is one value per texel.
    pub fn coverage(width: u32, height: u32, pixels: Vec<u8>) -> (r: Option<Image>)
        ensures
            r.is_some() <==> pixels@.len() == width as nat * height as nat,
            r matches Some(img) ==> img.spec_width() == width && img.spec_height() == height
                && img.spec_pixels() == Pixels::Coverage(pixels),
    {
        proof {
            lemma_area_bounds(width, height);
        }
        if pixels.len() as u64 == width as u64 * height as u64 {
            Some(Image { width, height, pixels: Pixels::Coverage(pixels) })
        } else {
            None
        }
    }

    /// A full-color image; `None` unless there is one color per texel.
    pub fn rgba(width: u32, height: u32, pixels: Vec<[u8; 4]>) -> (r: Option<Image>)
        ensures
            r.is_some() <==> pixels@.len() == width as nat * height as nat,
            r matches Some(img) ==> img.spec_width() == width && img.spec_height() == height
                && img.spec_pixels() == Pixels::Rgba(pixels),
    {
        proof {
            lemma_area_bounds(width, height);
        }
        if pixels.len() as u64 == width as u64 * height as u64 {
            Some(Image { width, height, pixels: Pixels::Rgba(pixels) })
        } else {
            None
        }
    }

    /// Both sides fit in a `u32`.
    pub proof fn lemma_side_bounds(&self)
        ensures
            self.spec_width() <= u32::MAX,
            self.spec_height() <= u32::MAX,
    {
    }

    pub fn width(&self) -> (r: u32)
        ensures
            r == self.spec_width(),
    {
        self.width
    }

    pub fn height(&self) -> (r: u32)
        ensures
            r == self.spec_height(),
    {
        self.height
    }
}

/// The texel that the image's `i`-th pixel becomes when the image is written
/// with its top-left corner at (`ox`, `oy`).
pub open spec fn placed_texel(img: &Image, ox: u32, oy: u32, i: int) -> Texel {
    Texel {
        x: (ox + i % img.spec_width() as int) as u64,
        y: (oy + i / img.spec_width() as int) as u64,
        color: img.texel_color(i),
    }
}

/// All texels of an image written at offset (`ox`, `oy`), row-major.
pub open spec fn image_texels(img: &Image, ox: u32, oy: u32) -> Seq<Texel> {
    Seq::new(img.area(), |i: int| placed_texel(img, ox, oy, i))
}

/// Expands an image into renderer texels placed at offset (`ox`, `oy`), in
/// row-major order: coverage becomes premultiplied gray, RGBA is copied.
pub fn texels_from_image(img: &Image, ox: u32, oy: u32) -> (r: Vec<Texel>)
    ensures
        r@ == image_texels(img, ox, oy),
{
    proof {
        use_type_invariant(img);
    }
    let w = img.width;
    let h = img.height;
    proof {
        lemma_area_bounds(w, h);
    }
    let n: usize = match &img.pixels {
        Pixels::Coverage(c) => c.len(),
        Pixels::Rgba(p) => p.len(),
    };
    let mut r: Vec<Texel> = Vec::new();
    let mut i: usize = 0;
    let mut x: u32 = 0;
    let mut y: u32 = 0;
    while i < n
        invariant
            w == img.spec_width(),
            h == img.spec_height(),
            n == img.area(),
            img.pixel_count() == img.area(),
            r@.len() == i,
            i <= n,
            i < n ==> x < w,
            i == y as int * w as int + x as int,
            forall|k: int| 0 <= k < r@.len() ==> #[trigger] r@[k] == placed_texel(img, ox, oy, k),
        decreases n - i,
    {
        proof {
            lemma_fundamental_div_mod_converse(i as int, w as int, y as int, x as int);
            lemma_row_major_step(w as int, h as int, x as int, y as int);
        }
        let color = match &img.pixels {
            Pixels::Coverage(c) => {
                c[i] as u32 * 0x0101_0101u32
            },
            Pixels::Rgba(p) => {
                let px = p[i];
                px[0] as u32 | (px[1] as u32) << 8u32 | (px[2] as u32) << 16u32 | (px[3] as u32) << 24u32
            },
        };
        let t = Texel { x: ox as u64 + x as u64, y: oy as u64 + y as u64, color };
        r.push(t);
        i = i + 1;
        if x + 1 == w {
            x = 0;
            y = y + 1;
        } else {
            x = x + 1;
        }
    }
    assert(r@ =~= image_texels(img, ox, oy));
    r
}

/// A change to one GUI texture: a full image when `pos` is `None` (the
/// texture is created, or created anew), otherwise a patch whose top-left
/// corner lands at `pos`.
pub struct TextureDelta {
    pub id: TextureId,
    pub pos: Option<[u32; 2]>,
    pub image: Image,
}

} // verus!
