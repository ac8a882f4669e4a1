//! Sky textures in RGBA16F layout: four `u16` channels (binary16 bit
//! patterns) per texel, stored row by row.  The module packs decoded RGB
//! channels into that layout and shrinks oversized textures by
//! nearest-neighbour sampling, in resumable chunks of rows so that the
//! caller can report progress between chunks.
use vstd::prelude::*;

verus! {

/// Number of output rows that the resampler produces between two progress
/// reports.
pub const ROWS_PER_PROGRESS: u32 = 32;

/// A texture in RGBA16F layout.
pub struct HdrTextureData {
    pub pixels: Vec<u16>,
    pub width: u32,
    pub height: u32,
}

impl HdrTextureData {
    /// The pixel buffer holds exactly four channels for every texel.
    pub open spec fn wf(&self) -> bool {
        self.pixels@.len() == self.width as int * self.height as int * 4
    }

    /// The four channels of the texel in column `x` and row `y`.
    pub open spec fn texel(&self, x: int, y: int) -> Seq<u16> {
        let start = (y * self.width + x) * 4;
        self.pixels@.subrange(start, start + 4)
    }

    /// A texture with a single texel whose channels are `r`, `g`, `b`, `a`.
    pub fn single_texel(r: u16, g: u16, b: u16, a: u16) -> (data: HdrTextureData)
        ensures
            data.wf(),
            data.width == 1,
            data.height == 1,
            data.pixels@ == seq![r, g, b, a],
    {
        let mut pixels: Vec<u16> = Vec::new();
        pixels.push(r);
        pixels.push(g);
        pixels.push(b);
        pixels.push(a);
        HdrTextureData { pixels, width: 1, height: 1 }
    }

    /// Builds an RGBA texture from three channels per texel (`rgb`, row by
    /// row), giving every texel the alpha channel `alpha`.
    pub fn from_rgb(rgb: &Vec<u16>, width: u32, height: u32, alpha: u16) -> (data: HdrTextureData)
        requires
            rgb@.len() == width as int * height as int * 3,
        ensures
            data.wf(),
            data.width == width,
            data.height == height,
            data.pixels@ == rgba_from_rgb(rgb@, alpha, width as int * height as int),
    {
        let total: usize = rgb.len();
        let count: usize = total / 3;
        let mut pixels: Vec<u16> = Vec::new();
        let mut i: usize = 0;
        while i < count
            invariant
                total == rgb@.len(),
                count == total / 3,
                i <= count,
                pixels@ == rgba_from_rgb(rgb@, alpha, i as int),
            decreases count - i,
        {
            let base = i * 3;
            pixels.push(rgb[base]);
            pixels.push(rgb[base + 1]);
            pixels.push(rgb[base + 2]);
            pixels.push(alpha);
            proof {
                assert(pixels@ =~= rgba_from_rgb(rgb@, alpha, i as int) + seq![
                    rgb@[3 * i],
                    rgb@[3 * i + 1],
                    rgb@[3 * i + 2],
                    alpha,
                ]);
            }
            i = i + 1;
        }
        proof {
            lemma_rgba_len(rgb@, alpha, count as int);
            assert(count as int * 4 == width as int * height as int * 4) by (nonlinear_arith)
                requires
                    count as int == rgb@.len() / 3,
                    rgb@.len() == width as int * height as int * 3,
            ;
        }
        HdrTextureData { pixels, width, height }
    }

    /// Whether the texture already fits a square of side `max_dim`.
    pub fn fits_within(&self, max_dim: u32) -> (r: bool)
        ensures
            r == (self.width <= max_dim && self.height <= max_dim),
    {
        self.width <= max_dim && self.height <= max_dim
    }

    /// Bytes in one row of the texture (eight per texel), or `None` where
    /// that count does not fit in a `u32`.
    pub fn bytes_per_row(&self) -> (r: Option<u32>)
        ensures
            r == if 8 * self.width <= u32::MAX {
                Some((8 * self.width) as u32)
            } else {
                None::<u32>
            },
    {
        self.width.checked_mul(8)
    }

    /// The pixel buffer viewed as bytes, two per channel.
    pub fn pixel_bytes(&self) -> (bytes: &[u8])
        ensures
            exists|little_endian: bool| bytes_encode(self.pixels@, bytes@, little_endian),
    {
        u16_slice_as_bytes(self.pixels.as_slice())
    }
}

/// `bytes` holds each channel of `channels` as two bytes, in the same byte
/// order for every channel: low byte first when `little_endian`, high byte
/// first otherwise.
pub open spec fn bytes_encode(channels: Seq<u16>, bytes: Seq<u8>, little_endian: bool) -> bool {
    &&& bytes.len() == 2 * channels.len()
    &&& forall|i: int|
        0 <= i < channels.len() ==> #[trigger] channels[i] == if little_endian {
            bytes[2 * i] + 256 * bytes[2 * i + 1]
        } else {
            256 * bytes[2 * i] + bytes[2 * i + 1]
        }
}

/// `bytemuck::cast_slice::<u16, u8>`: views the channels as bytes.  The
/// crate reinterprets the memory in place, so the result has two bytes per
/// channel, each channel stored in the machine's byte order.  Which order
/// that is differs between machines and is left unsaid; that it is one
/// order, shared by all channels, is stated.
#[verifier::external_body]
fn u16_slice_as_bytes(channels: &[u16]) -> (bytes: &[u8])
    ensures
        exists|little_endian: bool| bytes_encode(channels@, bytes@, little_endian),
{
    bytemuck::cast_slice(channels)
}

/// The first `n` texels of `rgb` (three channels each) with `alpha` added
/// as a fourth channel.
pub open spec fn rgba_from_rgb(rgb: Seq<u16>, alpha: u16, n: int) -> Seq<u16>
    decreases n,
{
    if n <= 0 {
        Seq::empty()
    } else {
        rgba_from_rgb(rgb, alpha, n - 1) + seq![
            rgb[3 * (n - 1)],
            rgb[3 * (n - 1) + 1],
            rgb[3 * (n - 1) + 2],
            alpha,
        ]
    }
}

proof fn lemma_rgba_len(rgb: Seq<u16>, alpha: u16, n: int)
    requires
        n >= 0,
    ensures
        rgba_from_rgb(rgb, alpha, n).len() == 4 * n,
    decreases n,
{
    if n > 0 {
        lemma_rgba_len(rgb, alpha, n - 1);
    }
}

/// Texel `i` of the packed texture holds the three channels of texel `i`
/// of `rgb`, then `alpha`.
pub proof fn lemma_rgba_texel(rgb: Seq<u16>, alpha: u16, n: int, i: int)
    requires
        0 <= i < n,
    ensures
        rgba_from_rgb(rgb, alpha, n).len() == 4 * n,
        rgba_from_rgb(rgb, alpha, n).subrange(4 * i, 4 * i + 4) == seq![
            rgb[3 * i],
            rgb[3 * i + 1],
            rgb[3 * i + 2],
            alpha,
        ],
    decreases n,
{
    lemma_rgba_len(rgb, alpha, n);
    lemma_rgba_len(rgb, alpha, n - 1);
    let prefix = rgba_from_rgb(rgb, alpha, n - 1);
    let last = seq![rgb[3 * (n - 1)], rgb[3 * (n - 1) + 1], rgb[3 * (n - 1) + 2], alpha];
    assert(rgba_from_rgb(rgb, alpha, n) == prefix + last);
    if i < n - 1 {
        lemma_rgba_texel(rgb, alpha, n - 1, i);
        assert((prefix + last).subrange(4 * i, 4 * i + 4) =~= prefix.subrange(4 * i, 4 * i + 4));
    } else {
        assert((prefix + last).subrange(4 * i, 4 * i + 4) =~= last);
    }
}

/// The source coordinate sampled for output coordinate `i` when a length
/// `src_len` is resampled to `dst_len`.
pub open spec fn source_coord(i: int, src_len: int, dst_len: int) -> int {
    i * src_len / dst_len
}

/// The first `n` texels of output row `y` when `src` is resampled to
/// `new_width` by `new_height` texels.
pub open spec fn resampled_row(
    src: HdrTextureData,
    new_width: int,
    new_height: int,
    y: int,
    n: int,
) -> Seq<u16>
    decreases n,
{
    if n <= 0 {
        Seq::empty()
    } else {
        resampled_row(src, new_width, new_height, y, n - 1) + src.texel(
            source_coord(n - 1, src.width as int, new_width),
            source_coord(y, src.height as int, new_height),
        )
    }
}

/// The first `n` rows of the resampled texture.
pub open spec fn resampled_rows(src: HdrTextureData, new_width: int, new_height: int, n: int) -> Seq<
    u16,
>
    decreases n,
{
    if n <= 0 {
        Seq::empty()
    } else {
        resampled_rows(src, new_width, new_height, n - 1) + resampled_row(
            src,
            new_width,
            new_height,
            n - 1,
            new_width,
        )
    }
}

/// All channels of `src` resampled to `new_width` by `new_height` texels.
pub open spec fn resampled(src: HdrTextureData, new_width: int, new_height: int) -> Seq<u16> {
    resampled_rows(src, new_width, new_height, new_height)
}

proof fn lemma_coord_below(i: int, src_len: int, dst_len: int)
    requires
        0 <= i < dst_len,
        0 <= src_len,
    ensures
        0 <= source_coord(i, src_len, dst_len),
        src_len > 0 ==> source_coord(i, src_len, dst_len) < src_len,
{
    assert(0 <= i * src_len) by (nonlinear_arith)
        requires
            0 <= i,
            0 <= src_len,
    ;
    assert(0 <= i * src_len / dst_len) by (nonlinear_arith)
        requires
            0 <= i * src_len,
            0 < dst_len,
    ;
    if src_len > 0 {
        assert(i * src_len < dst_len * src_len) by (nonlinear_arith)
            requires
                0 <= i < dst_len,
                0 < src_len,
        ;
        assert(i * src_len / dst_len < src_len) by (nonlinear_arith)
            requires
                0 <= i * src_len < dst_len * src_len,
                0 < dst_len,
        ;
    }
}

proof fn lemma_texel_in_bounds(w: int, h: int, x: int, y: int)
    requires
        0 <= x < w,
        0 <= y < h,
    ensures
        0 <= (y * w + x) * 4,
        (y * w + x) * 4 + 4 <= w * h * 4,
{
    assert(0 <= y * w) by (nonlinear_arith)
        requires
            0 <= y,
            0 <= w,
    ;
    assert(y * w + w <= h * w) by (nonlinear_arith)
        requires
            0 <= y < h,
            0 <= w,
    ;
    assert(h * w == w * h) by (nonlinear_arith);
}

/// The sizes for which resampling reads only texels that exist.
pub open spec fn resamplable(src: HdrTextureData, new_width: int, new_height: int) -> bool {
    &&& src.wf()
    &&& src.width > 0
    &&& src.height > 0
    &&& new_width >= 1
    &&& new_height >= 1
}

proof fn lemma_source_texel(src: HdrTextureData, nw: int, nh: int, x: int, y: int)
    requires
        resamplable(src, nw, nh),
        0 <= x < nw,
        0 <= y < nh,
    ensures
        0 <= source_coord(x, src.width as int, nw) < src.width,
        0 <= source_coord(y, src.height as int, nh) < src.height,
        src.texel(source_coord(x, src.width as int, nw), source_coord(y, src.height as int, nh)).len()
            == 4,
{
    lemma_coord_below(x, src.width as int, nw);
    lemma_coord_below(y, src.height as int, nh);
    lemma_texel_in_bounds(
        src.width as int,
        src.height as int,
        source_coord(x, src.width as int, nw),
        source_coord(y, src.height as int, nh),
    );
}

proof fn lemma_row_len(src: HdrTextureData, nw: int, nh: int, y: int, n: int)
    requires
        resamplable(src, nw, nh),
        0 <= y < nh,
        0 <= n <= nw,
    ensures
        resampled_row(src, nw, nh, y, n).len() == 4 * n,
    decreases n,
{
    if n > 0 {
        lemma_row_len(src, nw, nh, y, n - 1);
        lemma_source_texel(src, nw, nh, n - 1, y);
    }
}

proof fn lemma_rows_len(src: HdrTextureData, nw: int, nh: int, n: int)
    requires
        resamplable(src, nw, nh),
        0 <= n <= nh,
    ensures
        resampled_rows(src, nw, nh, n).len() == n * nw * 4,
    decreases n,
{
    if n > 0 {
        lemma_rows_len(src, nw, nh, n - 1);
        lemma_row_len(src, nw, nh, n - 1, nw);
        let prefix = resampled_rows(src, nw, nh, n - 1);
        let row = resampled_row(src, nw, nh, n - 1, nw);
        assert(resampled_rows(src, nw, nh, n) == prefix + row);
        assert((prefix + row).len() == prefix.len() + row.len());
        assert((n - 1) * nw * 4 + 4 * nw == n * nw * 4) by (nonlinear_arith);
    } else {
        assert(n * nw * 4 == 0) by (nonlinear_arith)
            requires
                n == 0,
        ;
    }
}

proof fn lemma_row_texel(src: HdrTextureData, nw: int, nh: int, y: int, n: int, x: int)
    requires
        resamplable(src, nw, nh),
        0 <= y < nh,
        0 <= x < n <= nw,
    ensures
        resampled_row(src, nw, nh, y, n).subrange(4 * x, 4 * x + 4) == src.texel(
            source_coord(x, src.width as int, nw),
            source_coord(y, src.height as int, nh),
        ),
    decreases n,
{
    let prefix = resampled_row(src, nw, nh, y, n - 1);
    let last = src.texel(
        source_coord(n - 1, src.width as int, nw),
        source_coord(y, src.height as int, nh),
    );
    lemma_row_len(src, nw, nh, y, n - 1);
    lemma_source_texel(src, nw, nh, n - 1, y);
    assert(resampled_row(src, nw, nh, y, n) == prefix + last);
    if x < n - 1 {
        lemma_row_texel(src, nw, nh, y, n - 1, x);
        assert((prefix + last).subrange(4 * x, 4 * x + 4) =~= prefix.subrange(4 * x, 4 * x + 4));
    } else {
        assert((prefix + last).subrange(4 * x, 4 * x + 4) =~= last);
    }
}

proof fn lemma_rows_texel(src: HdrTextureData, nw: int, nh: int, n: int, x: int, y: int)
    requires
        resamplable(src, nw, nh),
        0 <= x < nw,
        0 <= y < n <= nh,
    ensures
        resampled_rows(src, nw, nh, n).subrange((y * nw + x) * 4, (y * nw + x) * 4 + 4)
            == src.texel(
            source_coord(x, src.width as int, nw),
            source_coord(y, src.height as int, nh),
        ),
    decreases n,
{
    let prefix = resampled_rows(src, nw, nh, n - 1);
    let row = resampled_row(src, nw, nh, n - 1, nw);
    let start = (y * nw + x) * 4;
    lemma_rows_len(src, nw, nh, n - 1);
    lemma_row_len(src, nw, nh, n - 1, nw);
    assert(resampled_rows(src, nw, nh, n) == prefix + row);
    if y < n - 1 {
        lemma_rows_texel(src, nw, nh, n - 1, x, y);
        assert(start + 4 <= (n - 1) * nw * 4) by (nonlinear_arith)
            requires
                start == (y * nw + x) * 4,
                0 <= x < nw,
                0 <= y < n - 1,
        ;
        assert((prefix + row).subrange(start, start + 4) =~= prefix.subrange(start, start + 4));
    } else {
        lemma_row_texel(src, nw, nh, y, nw, x);
        assert(start == (n - 1) * nw * 4 + 4 * x) by (nonlinear_arith)
            requires
                start == (y * nw + x) * 4,
                y == n - 1,
        ;
        assert((prefix + row).subrange(start, start + 4) =~= row.subrange(4 * x, 4 * x + 4));
    }
}

/// The sampled coordinate is the floor of `i * src_len / dst_len`, taken on
/// the product: `dst_len` times it is at most `i * src_len`, and `dst_len`
/// times its successor exceeds `i * src_len`.
pub proof fn lemma_source_coord_is_floor(i: int, src_len: int, dst_len: int)
    requires
        0 <= i,
        0 <= src_len,
        0 < dst_len,
    ensures
        source_coord(i, src_len, dst_len) == (i * src_len) / dst_len,
        dst_len * source_coord(i, src_len, dst_len) <= i * src_len,
        i * src_len < dst_len * (source_coord(i, src_len, dst_len) + 1),
{
    let p = i * src_len;
    let c = p / dst_len;
    assert(dst_len * c <= p && p < dst_len * (c + 1)) by (nonlinear_arith)
        requires
            0 < dst_len,
            c == p / dst_len,
    ;
}

/// Nearest-neighbour sampling: the texel in column `x` and row `y` of the
/// resampled texture is the source texel in column `x * width / new_width`
/// and row `y * height / new_height`.
pub proof fn lemma_resampled_texel(src: HdrTextureData, new_width: int, new_height: int, x: int, y: int)
    requires
        resamplable(src, new_width, new_height),
        0 <= x < new_width,
        0 <= y < new_height,
    ensures
        resampled(src, new_width, new_height).len() == new_width * new_height * 4,
        ({
            let start = (y * new_width + x) * 4;
            let src_x = (x * src.width) / new_width;
            let src_y = (y * src.height) / new_height;
            &&& 0 <= src_x < src.width
            &&& 0 <= src_y < src.height
            &&& new_width * src_x <= x * src.width < new_width * (src_x + 1)
            &&& new_height * src_y <= y * src.height < new_height * (src_y + 1)
            &&& resampled(src, new_width, new_height).subrange(start, start + 4)
                == src.pixels@.subrange(
                (src_y * src.width + src_x) * 4,
                (src_y * src.width + src_x) * 4 + 4,
            )
        }),
{
    lemma_source_coord_is_floor(x, src.width as int, new_width);
    lemma_source_coord_is_floor(y, src.height as int, new_height);
    lemma_source_texel(src, new_width, new_height, x, y);
    lemma_rows_len(src, new_width, new_height, new_height);
    assert(new_height * new_width * 4 == new_width * new_height * 4) by (nonlinear_arith);
    lemma_rows_texel(src, new_width, new_height, new_height, x, y);
}

/// Appends output row `y` of the resampled texture to `out`.
fn append_resampled_row(
    src: &HdrTextureData,
    new_width: u32,
    new_height: u32,
    y: u32,
    out: &mut Vec<u16>,
)
    requires
        src.wf(),
        src.width > 0,
        src.height > 0,
        new_width >= 1,
        new_height >= 1,
        y < new_height,
    ensures
        final(out)@ == old(out)@ + resampled_row(
            *src,
            new_width as int,
            new_height as int,
            y as int,
            new_width as int,
        ),
{
    let ghost start = old(out)@;
    let total: usize = src.pixels.len();
    proof {
        assert(y as int * src.height as int <= u32::MAX as int * u32::MAX as int) by (nonlinear_arith)
            requires
                y <= u32::MAX,
                src.height <= u32::MAX,
        ;
    }
    let src_y: u64 = (y as u64 * src.height as u64) / (new_height as u64);
    proof {
        lemma_coord_below(y as int, src.height as int, new_height as int);
    }
    let mut x: u32 = 0;
    while x < new_width
        invariant
            src.wf(),
            src.width > 0,
            src.height > 0,
            new_width >= 1,
            new_height >= 1,
            y < new_height,
            x <= new_width,
            src_y == source_coord(y as int, src.height as int, new_height as int),
            src_y < src.height,
            total == src.pixels@.len(),
            out@ == start + resampled_row(*src, new_width as int, new_height as int, y as int, x as int),
        decreases new_width - x,
    {
        proof {
            assert(x as int * src.width as int <= u32::MAX as int * u32::MAX as int) by (nonlinear_arith)
                requires
                    x <= u32::MAX,
                    src.width <= u32::MAX,
            ;
        }
        let src_x: u64 = (x as u64 * src.width as u64) / (new_width as u64);
        proof {
            lemma_coord_below(x as int, src.width as int, new_width as int);
        }
        proof {
            lemma_texel_in_bounds(src.width as int, src.height as int, src_x as int, src_y as int);
            assert(src_y as int * src.width as int + src_x as int <= src.width as int * src.height as int)
                by (nonlinear_arith)
                requires
                    0 <= src_x < src.width,
                    0 <= src_y < src.height,
            ;
        }
        let ghost before = out@;
        let base: usize = ((src_y * src.width as u64 + src_x) * 4) as usize;
        out.push(src.pixels[base]);
        out.push(src.pixels[base + 1]);
        out.push(src.pixels[base + 2]);
        out.push(src.pixels[base + 3]);
        proof {
            assert(out@ =~= before + src.texel(src_x as int, src_y as int));
        }
        x = x + 1;
    }
}

/// A resampling of `source` to `new_width` by `new_height` texels that
/// proceeds in chunks of `ROWS_PER_PROGRESS` output rows.
pub struct Downscale {
    source: HdrTextureData,
    new_width: u32,
    new_height: u32,
    rows_done: u32,
    pixels: Vec<u16>,
}

impl Downscale {
    /// The texture being resampled.
    pub closed spec fn source(&self) -> HdrTextureData {
        self.source
    }

    /// Width of the output.
    pub closed spec fn target_width(&self) -> int {
        self.new_width as int
    }

    /// Height of the output.
    pub closed spec fn target_height(&self) -> int {
        self.new_height as int
    }

    /// Number of output rows produced so far.
    pub closed spec fn rows(&self) -> int {
        self.rows_done as int
    }

    /// The output channels produced so far.
    pub closed spec fn output(&self) -> Seq<u16> {
        self.pixels@
    }

    /// The output produced so far is the first `rows()` rows of the
    /// resampled texture, and chunks end on multiples of
    /// `ROWS_PER_PROGRESS`.
    pub closed spec fn wf(&self) -> bool {
        &&& resamplable(self.source, self.new_width as int, self.new_height as int)
        &&& self.rows_done <= self.new_height
        &&& (self.rows_done == self.new_height || self.rows_done % ROWS_PER_PROGRESS == 0)
        &&& self.pixels@ == resampled_rows(
            self.source,
            self.new_width as int,
            self.new_height as int,
            self.rows_done as int,
        )
    }

    /// Starts resampling `source` to `new_width` by `new_height` texels.
    pub fn new(source: HdrTextureData, new_width: u32, new_height: u32) -> (d: Downscale)
        requires
            resamplable(source, new_width as int, new_height as int),
        ensures
            d.wf(),
            d.source() == source,
            d.target_width() == new_width,
            d.target_height() == new_height,
            d.rows() == 0,
            d.output() == Seq::<u16>::empty(),
    {
        Downscale { source, new_width, new_height, rows_done: 0, pixels: Vec::new() }
    }

    /// Number of output rows produced so far.
    pub fn rows_done(&self) -> (r: u32)
        requires
            self.wf(),
        ensures
            r == self.rows(),
            r <= self.target_height(),
            r == self.target_height() || r % ROWS_PER_PROGRESS == 0,
            r == self.target_height() || r % 32 == 0,
    {
        self.rows_done
    }

    /// Whether every output row has been produced.
    pub fn is_done(&self) -> (r: bool)
        requires
            self.wf(),
        ensures
            r == (self.rows() == self.target_height()),
            self.rows() <= self.target_height(),
    {
        self.rows_done == self.new_height
    }

    /// Produces the next `ROWS_PER_PROGRESS` output rows, or the remaining
    /// ones where fewer are left.
    pub fn step(&mut self)
        requires
            old(self).wf(),
        ensures
            final(self).wf(),
            final(self).source() == old(self).source(),
            final(self).target_width() == old(self).target_width(),
            final(self).target_height() == old(self).target_height(),
            final(self).rows() == if old(self).rows() + 32 <= old(self).target_height() {
                old(self).rows() + 32
            } else {
                old(self).target_height()
            },
            final(self).rows() == if old(self).rows() + ROWS_PER_PROGRESS <= old(
                self,
            ).target_height() {
                old(self).rows() + ROWS_PER_PROGRESS
            } else {
                old(self).target_height()
            },
            final(self).output() == resampled_rows(
                final(self).source(),
                final(self).target_width(),
                final(self).target_height(),
                final(self).rows(),
            ),
    {
        let end: u32 = if self.new_height - self.rows_done >= ROWS_PER_PROGRESS {
            self.rows_done + ROWS_PER_PROGRESS
        } else {
            self.new_height
        };
        let mut row: u32 = self.rows_done;
        while row < end
            invariant
                resamplable(self.source, self.new_width as int, self.new_height as int),
                self.source == old(self).source,
                self.new_width == old(self).new_width,
                self.new_height == old(self).new_height,
                self.rows_done == old(self).rows_done,
                old(self).rows_done <= row <= end <= self.new_height,
                self.pixels@ == resampled_rows(
                    self.source,
                    self.new_width as int,
                    self.new_height as int,
                    row as int,
                ),
            decreases end - row,
        {
            append_resampled_row(
                &self.source,
                self.new_width,
                self.new_height,
                row,
                &mut self.pixels,
            );
            row = row + 1;
        }
        self.rows_done = end;
    }

    /// The resampled texture, once every row has been produced.
    pub fn finish(self) -> (data: HdrTextureData)
        requires
            self.wf(),
            self.rows() == self.target_height(),
        ensures
            data.wf(),
            data.width == self.target_width(),
            data.height == self.target_height(),
            data.pixels@ == resampled(self.source(), self.target_width(), self.target_height()),
    {
        proof {
            lemma_rows_len(
                self.source,
                self.new_width as int,
                self.new_height as int,
                self.new_height as int,
            );
            assert(self.new_height as int * self.new_width as int * 4 == self.new_width as int
                * self.new_height as int * 4) by (nonlinear_arith);
        }
        let Downscale { source: _, new_width, new_height, rows_done: _, pixels } = self;
        HdrTextureData { pixels, width: new_width, height: new_height }
    }
}

/// Resamples `source` to `new_width` by `new_height` texels in one go.
pub fn downscale_to(source: HdrTextureData, new_width: u32, new_height: u32) -> (data: HdrTextureData)
    requires
        resamplable(source, new_width as int, new_height as int),
    ensures
        data.wf(),
        data.width == new_width,
        data.height == new_height,
        data.pixels@ == resampled(source, new_width as int, new_height as int),
{
    run_to_end(Downscale::new(source, new_width, new_height))
}

/// What to do with a texture that has to fit a square of side `max_dim`:
/// keep it, or resample it.
pub enum DownscalePlan {
    /// The texture fits and is kept as it is.
    Keep(HdrTextureData),
    /// The texture is too large; the job resamples it.
    Resample(Downscale),
}

/// Decides whether `data` fits a square of side `max_dim`: a texture that
/// fits is handed back, a larger one comes back as a resampling job to
/// `new_width` by `new_height` texels that has produced no row yet.
pub fn plan_downscale(data: HdrTextureData, max_dim: u32, new_width: u32, new_height: u32) -> (plan:
    DownscalePlan)
    requires
        data.wf(),
        (data.width <= max_dim && data.height <= max_dim) || resamplable(
            data,
            new_width as int,
            new_height as int,
        ),
    ensures
        match plan {
            DownscalePlan::Keep(kept) => {
                &&& data.width <= max_dim && data.height <= max_dim
                &&& kept == data
            },
            DownscalePlan::Resample(job) => {
                &&& !(data.width <= max_dim && data.height <= max_dim)
                &&& job.wf()
                &&& job.source() == data
                &&& job.target_width() == new_width
                &&& job.target_height() == new_height
                &&& job.rows() == 0
                &&& job.output() == Seq::<u16>::empty()
            },
        },
{
    if data.fits_within(max_dim) {
        DownscalePlan::Keep(data)
    } else {
        DownscalePlan::Resample(Downscale::new(data, new_width, new_height))
    }
}

/// Fits `data` within a square of side `max_dim`: a texture that fits is
/// returned as it is, a larger one is resampled to `new_width` by
/// `new_height` texels.
pub fn downscale_hdr_rgba16f(data: HdrTextureData, max_dim: u32, new_width: u32, new_height: u32) -> (r:
    HdrTextureData)
    requires
        data.wf(),
        (data.width <= max_dim && data.height <= max_dim) || resamplable(
            data,
            new_width as int,
            new_height as int,
        ),
    ensures
        r.wf(),
        data.width <= max_dim && data.height <= max_dim ==> r == data,
        !(data.width <= max_dim && data.height <= max_dim) ==> {
            &&& r.width == new_width
            &&& r.height == new_height
            &&& r.pixels@ == resampled(data, new_width as int, new_height as int)
        },
{
    match plan_downscale(data, max_dim, new_width, new_height) {
        DownscalePlan::Keep(kept) => kept,
        DownscalePlan::Resample(job) => run_to_end(job),
    }
}

/// Runs a resampling job until every row has been produced.
fn run_to_end(job: Downscale) -> (data: HdrTextureData)
    requires
        job.wf(),
    ensures
        data.wf(),
        data.width == job.target_width(),
        data.height == job.target_height(),
        data.pixels@ == resampled(job.source(), job.target_width(), job.target_height()),
{
    let ghost start = job;
    let mut job = job;
    while !job.is_done()
        invariant
            job.wf(),
            job.source() == start.source(),
            job.target_width() == start.target_width(),
            job.target_height() == start.target_height(),
        decreases job.target_height() - job.rows(),
    {
        job.step();
    }
    job.finish()
}

} // verus!
