//! The frame generator: one RGBA8 pixel per noise sample, row-major.
use crate::canvas::Canvas;
use crate::params::FrameParams;
use crate::sample::{band_of, Band, NoiseValue};
use vstd::prelude::*;

verus! {

/// `a + b` on bytes, wrapping past 255 as `u8::wrapping_add` does.
pub open spec fn wrapping_add_u8(a: u8, b: u8) -> u8 {
    ((a + b) % 256) as u8
}

/// The alpha byte of each band.
pub open spec fn alpha_of(band: Band) -> u8 {
    match band {
        Band::Water => 40,
        Band::Mountains => 20,
        Band::Peaks => 0,
    }
}

/// The RGBA bytes of a pixel in `band` under the frame parameters `p`.
pub open spec fn color_of(band: Band, p: FrameParams) -> Seq<u8> {
    match band {
        Band::Water => seq![
            wrapping_add_u8(p.base, 2),
            wrapping_add_u8(p.base, 1),
            wrapping_add_u8(p.base, 1),
            alpha_of(band),
        ],
        Band::Mountains => seq![
            wrapping_add_u8(40, p.variation),
            46u8,
            wrapping_add_u8(34, p.variation),
            alpha_of(band),
        ],
        Band::Peaks => seq![20u8, 25u8, 255u8, alpha_of(band)],
    }
}

/// The frame for row-major `samples`: byte `k` is channel `k % 4` of the
/// colour of sample `k / 4`.
pub open spec fn frame_bytes(samples: Seq<NoiseValue>, p: FrameParams) -> Seq<u8> {
    Seq::new(4 * samples.len(), |k: int| color_of(band_of(samples[k / 4].bits), p)[k % 4])
}

/// The RGBA bytes of a pixel in `band`.
pub fn band_color(band: Band, params: &FrameParams) -> (r: [u8; 4])
    ensures
        r@ == color_of(band, *params),
{
    let r = match band {
        Band::Water => [
            params.base.wrapping_add(2),
            params.base.wrapping_add(1),
            params.base.wrapping_add(1),
            40,
        ],
        Band::Mountains => [
            40u8.wrapping_add(params.variation),
            46,
            34u8.wrapping_add(params.variation),
            20,
        ],
        Band::Peaks => [20, 25, 255, 0],
    };
    assert(r@ =~= color_of(band, *params));
    r
}

/// Renders one frame of `canvas` from its noise samples in row-major order:
/// four bytes per pixel, each pixel coloured by the band of its sample.
pub fn render_frame(canvas: &Canvas, samples: &Vec<NoiseValue>, params: &FrameParams) -> (r: Vec<
    u8,
>)
    requires
        canvas.wf(),
        samples@.len() == canvas.pixels(),
    ensures
        r@ == frame_bytes(samples@, *params),
        r@.len() == 4 * canvas.width * canvas.height,
{
    let n = canvas.pixel_count();
    let mut out: Vec<u8> = Vec::with_capacity(canvas.buffer_len());
    let mut i: usize = 0;
    while i < n
        invariant
            n == samples@.len(),
            4 * n <= usize::MAX,
            i <= n,
            out@.len() == 4 * i,
            forall|k: int|
                0 <= k < 4 * i ==> #[trigger] out@[k] == color_of(
                    band_of(samples@[k / 4].bits),
                    *params,
                )[k % 4],
        decreases n - i,
    {
        let c = band_color(samples[i].band(), params);
        let ghost before = out@;
        out.push(c[0]);
        out.push(c[1]);
        out.push(c[2]);
        out.push(c[3]);
        assert forall|k: int| 4 * i <= k < 4 * i + 4 implies k / 4 == i && #[trigger] out@[k]
            == c@[k % 4] by {
            assert(out@ == before.push(c[0]).push(c[1]).push(c[2]).push(c[3]));
        }
        i = i + 1;
    }
    assert(4 * canvas.width * canvas.height == 4 * (canvas.width * canvas.height)) by (
    nonlinear_arith);
    assert(out@ =~= frame_bytes(samples@, *params));
    out
}

/// Every frame holds exactly four bytes per pixel.
pub proof fn lemma_frame_length(canvas: Canvas, samples: Seq<NoiseValue>, p: FrameParams)
    requires
        canvas.wf(),
        samples.len() == canvas.pixels(),
    ensures
        frame_bytes(samples, p).len() == 4 * canvas.width * canvas.height,
{
    assert(4 * canvas.width * canvas.height == 4 * (canvas.width * canvas.height)) by (
    nonlinear_arith);
}

/// The four bytes of pixel `(x, y)` stand at offset `(y * width + x) * 4`
/// and are the colour of that pixel's sample: every pixel is written once,
/// with no gap and no overlap.
pub proof fn lemma_pixel_bytes(
    canvas: Canvas,
    samples: Seq<NoiseValue>,
    p: FrameParams,
    x: int,
    y: int,
)
    requires
        canvas.wf(),
        samples.len() == canvas.pixels(),
        0 <= x < canvas.width,
        0 <= y < canvas.height,
    ensures
        0 <= y * canvas.width + x < canvas.pixels(),
        frame_bytes(samples, p).subrange((y * canvas.width + x) * 4, (y * canvas.width + x) * 4 + 4)
            == color_of(band_of(samples[y * canvas.width + x].bits), p),
{
    let w = canvas.width as int;
    let h = canvas.height as int;
    assert(0 <= y * w + x < w * h) by (nonlinear_arith)
        requires
            0 <= x < w,
            0 <= y < h,
    ;
    let i = y * w + x;
    let f = frame_bytes(samples, p);
    assert forall|k: int| 0 <= k < 4 implies #[trigger] f[i * 4 + k] == color_of(
        band_of(samples[i].bits),
        p,
    )[k] by {
        assert((i * 4 + k) / 4 == i && (i * 4 + k) % 4 == k);
    }
    assert(f.subrange(i * 4, i * 4 + 4) =~= color_of(band_of(samples[i].bits), p));
}

/// The alpha byte of every pixel is 40, 20 or 0, and depends on the band of
/// its sample alone.
pub proof fn lemma_alpha_by_band(samples: Seq<NoiseValue>, p: FrameParams, i: int)
    requires
        0 <= i < samples.len(),
    ensures
        frame_bytes(samples, p)[4 * i + 3] == alpha_of(band_of(samples[i].bits)),
        alpha_of(band_of(samples[i].bits)) == 40 || alpha_of(band_of(samples[i].bits)) == 20
            || alpha_of(band_of(samples[i].bits)) == 0,
{
    assert((4 * i + 3) / 4 == i && (4 * i + 3) % 4 == 3);
}

/// Samples that fall into the same bands give the same frame: the frame
/// depends on the noise field only through the band of each sample.
pub proof fn lemma_frame_depends_on_bands(a: Seq<NoiseValue>, b: Seq<NoiseValue>, p: FrameParams)
    requires
        a.len() == b.len(),
        forall|i: int| 0 <= i < a.len() ==> band_of(#[trigger] a[i].bits) == band_of(b[i].bits),
    ensures
        frame_bytes(a, p) == frame_bytes(b, p),
{
    assert forall|k: int| 0 <= k < 4 * a.len() implies #[trigger] frame_bytes(a, p)[k]
        == frame_bytes(b, p)[k] by {
        assert(0 <= k / 4 < a.len());
        assert(band_of(a[k / 4].bits) == band_of(b[k / 4].bits));
    }
    assert(frame_bytes(a, p) =~= frame_bytes(b, p));
}

/// Rendering is deterministic: two frames rendered from the same samples
/// with the same parameters are byte for byte the same.
pub proof fn lemma_frame_deterministic(
    samples: Seq<NoiseValue>,
    p: FrameParams,
    first: Seq<u8>,
    second: Seq<u8>,
)
    requires
        first == frame_bytes(samples, p),
        second == frame_bytes(samples, p),
    ensures
        first == second,
{
}

} // verus!
