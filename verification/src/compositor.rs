//! Coverage-weighted alpha blending of subtitle layers onto an RGBA
//! framebuffer.
//!
//! A layer is a rectangular 8-bit coverage bitmap with an offset into the
//! frame and a single packed RGBA tint color. Compositing blends the tint
//! into the framebuffer pixel by pixel, weighted by the coverage byte, with
//! the tint's alpha byte inverted once per layer: the packed value stores a
//! transparency, and blending needs an opacity. Writes are clipped to the
//! frame; layers are applied strictly in the given order.

use vstd::prelude::*;

verus! {

/// Failure conditions of the compositor.
#[derive(Debug, Clone, Copy, PartialEq, Eq)]
pub enum Error {
    /// A layer's bitmap length does not match its declared dimensions.
    MalformedLayer,
}

/// One rasterized subtitle layer: a rectangular coverage bitmap, its offset
/// within the frame, and a solid tint color.
#[derive(Debug, Clone)]
pub struct Layer {
    /// Frame column of the bitmap's left edge; may be negative or past the
    /// right edge, in which case the out-of-frame pixels are clipped.
    pub x: i32,
    /// Frame row of the bitmap's top edge; may likewise lie outside the frame.
    pub y: i32,
    /// Width of the coverage bitmap, in pixels.
    pub width: u32,
    /// Height of the coverage bitmap, in pixels.
    pub height: u32,
    /// Row-major coverage bytes, one per pixel: 0 contributes nothing,
    /// 255 replaces the destination.
    pub bitmap: Vec<u8>,
    /// Packed RGBA tint, red in the highest byte. The alpha byte stores a
    /// transparency and is inverted before blending.
    pub color: u32,
}

impl Layer {
    /// A layer is well formed when its bitmap holds exactly one byte per pixel.
    pub open spec fn wf(self) -> bool {
        self.bitmap@.len() == self.width * self.height
    }
}

/// The tint byte that channel `i` (0 red, 1 green, 2 blue, 3 alpha) of a
/// packed RGBA color contributes to the blend. The alpha byte alone is
/// inverted, turning the stored transparency into an opacity.
pub open spec fn tint_byte(color: u32, i: int) -> u8
    recommends
        0 <= i < 4,
{
    if i == 0 {
        ((color >> 24) & 0xff) as u8
    } else if i == 1 {
        ((color >> 16) & 0xff) as u8
    } else if i == 2 {
        ((color >> 8) & 0xff) as u8
    } else {
        (255 - ((color & 0xff) as int)) as u8
    }
}

/// One blended channel byte: the average of the tint `c` and the present
/// value `d`, weighted `k` to `255 - k`, truncated toward zero.
pub open spec fn blend_byte(k: u8, c: u8, d: u8) -> u8 {
    ((k * c + (255 - k) * d) / 255) as u8
}

/// Blends one channel byte, carrying the arithmetic in 16 bits so that it
/// cannot overflow.
pub fn blend(k: u8, c: u8, d: u8) -> (r: u8)
    ensures
        r == blend_byte(k, c, d),
{
    let kw = k as u16;
    let cw = c as u16;
    let dw = d as u16;
    proof {
        assert(kw * cw + (255 - kw) * dw <= 255 * 255) by (nonlinear_arith)
            requires
                kw <= 255,
                cw <= 255,
                dw <= 255,
        ;
    }
    let num = kw * cw + (255 - kw) * dw;
    (num / 255) as u8
}

/// The frame column addressed by byte offset `o` of a framebuffer with
/// `fw` pixels per row and four bytes per pixel.
pub open spec fn offset_x(fw: int, o: int) -> int {
    (o / 4) % fw
}

/// The frame row addressed by byte offset `o`.
pub open spec fn offset_y(fw: int, o: int) -> int {
    (o / 4) / fw
}

/// The channel (0 red, 1 green, 2 blue, 3 alpha) addressed by byte offset `o`.
pub open spec fn offset_channel(o: int) -> int {
    o % 4
}

/// Whether the layer's bitmap has a pixel at frame coordinates `(dx, dy)`.
pub open spec fn covers(l: Layer, dx: int, dy: int) -> bool {
    &&& l.x <= dx < l.x + l.width
    &&& l.y <= dy < l.y + l.height
}

/// The layer's coverage byte at frame coordinates `(dx, dy)`.
pub open spec fn coverage_at(l: Layer, dx: int, dy: int) -> u8
    recommends
        l.wf(),
        covers(l, dx, dy),
{
    l.bitmap@[(dy - l.y) * l.width + (dx - l.x)]
}

/// The value of framebuffer byte `o` after the layer is composited over
/// `dst`: blended where the layer covers the byte's pixel, untouched
/// everywhere else.
pub open spec fn layer_byte(l: Layer, fw: int, dst: Seq<u8>, o: int) -> u8 {
    if covers(l, offset_x(fw, o), offset_y(fw, o)) {
        blend_byte(
            coverage_at(l, offset_x(fw, o), offset_y(fw, o)),
            tint_byte(l.color, offset_channel(o)),
            dst[o],
        )
    } else {
        dst[o]
    }
}

/// The whole framebuffer after one layer is composited over `dst`.
pub open spec fn composite_layer_spec(l: Layer, fw: int, dst: Seq<u8>) -> Seq<u8> {
    Seq::new(dst.len(), |o: int| layer_byte(l, fw, dst, o))
}

/// Whether frame pixel `(dx, dy)` lies in the part of the layer already
/// processed when the blend loop stands before local row `py`, column `px`:
/// every full row above, and the first `px` columns of that row.
spec fn done_upto(l: Layer, dx: int, dy: int, py: int, px: int) -> bool {
    &&& covers(l, dx, dy)
    &&& (dy - l.y < py || (dy - l.y == py && dx - l.x < px))
}

/// The value of framebuffer byte `o` when the blend loop stands before local
/// row `py`, column `px`.
spec fn partial_byte(l: Layer, fw: int, dst: Seq<u8>, o: int, py: int, px: int) -> u8 {
    if done_upto(l, offset_x(fw, o), offset_y(fw, o), py, px) {
        blend_byte(
            coverage_at(l, offset_x(fw, o), offset_y(fw, o)),
            tint_byte(l.color, offset_channel(o)),
            dst[o],
        )
    } else {
        dst[o]
    }
}

/// Byte offsets decompose uniquely into a pixel and a channel: offset
/// `(q * fw + r) * 4 + i` addresses column `r`, row `q`, channel `i`.
proof fn lemma_offset_of_coords(fw: int, q: int, r: int, i: int)
    requires
        fw > 0,
        0 <= q,
        0 <= r < fw,
        0 <= i < 4,
    ensures
        offset_x(fw, (q * fw + r) * 4 + i) == r,
        offset_y(fw, (q * fw + r) * 4 + i) == q,
        offset_channel((q * fw + r) * 4 + i) == i,
{
    let p = q * fw + r;
    assert(q * fw + r >= 0) by (nonlinear_arith)
        requires
            q >= 0,
            fw > 0,
            r >= 0,
    ;
    vstd::arithmetic::div_mod::lemma_fundamental_div_mod_converse(p * 4 + i, 4, p, i);
    vstd::arithmetic::div_mod::lemma_fundamental_div_mod_converse(p, fw, q, r);
}

/// Every byte offset addresses the pixel and channel its decomposition names:
/// `o` equals `(offset_y * fw + offset_x) * 4 + offset_channel`, with the
/// column and channel in range, and the row below `fh` whenever `o` lies
/// within a `fw * fh * 4`-byte framebuffer.
proof fn lemma_coords_of_offset(fw: int, fh: int, o: int)
    requires
        fw > 0,
        fh >= 0,
        0 <= o < fw * fh * 4,
    ensures
        o == (offset_y(fw, o) * fw + offset_x(fw, o)) * 4 + offset_channel(o),
        0 <= offset_x(fw, o) < fw,
        0 <= offset_y(fw, o) < fh,
        0 <= offset_channel(o) < 4,
{
    let p = o / 4;
    vstd::arithmetic::div_mod::lemma_fundamental_div_mod(o, 4);
    assert(0 <= o % 4 < 4);
    assert(0 <= p) by (nonlinear_arith)
        requires
            o >= 0,
            o == 4 * p + o % 4,
            0 <= o % 4 < 4,
    ;
    assert(p < fw * fh) by (nonlinear_arith)
        requires
            o < fw * fh * 4,
            o == 4 * p + o % 4,
            0 <= o % 4,
    ;
    vstd::arithmetic::div_mod::lemma_fundamental_div_mod(p, fw);
    assert(0 <= p % fw < fw) by {
        vstd::arithmetic::div_mod::lemma_mod_bound(p, fw);
    }
    assert(0 <= p / fw < fh) by (nonlinear_arith)
        requires
            fw > 0,
            0 <= p < fw * fh,
            p == fw * (p / fw) + p % fw,
            0 <= p % fw < fw,
    ;
    vstd::arithmetic::mul::lemma_mul_is_commutative(p / fw, fw);
}

/// A well-formed layer's bitmap index for a covered pixel is in range.
proof fn lemma_coverage_index_in_range(l: Layer, dx: int, dy: int)
    requires
        l.wf(),
        covers(l, dx, dy),
    ensures
        0 <= (dy - l.y) * l.width + (dx - l.x) < l.bitmap@.len(),
{
    let lx = dx - l.x;
    let ly = dy - l.y;
    assert(0 <= ly * l.width + lx < l.width * l.height) by (nonlinear_arith)
        requires
            0 <= lx < l.width,
            0 <= ly < l.height,
    ;
}

/// One step of the blend loop, writing branch: after the four channel bytes
/// of the in-frame pixel at local row `y`, column `x` are blended, the
/// framebuffer matches the processed part grown by that one pixel.
proof fn lemma_step_writes(
    l: Layer,
    fw: int,
    fh: int,
    dst0: Seq<u8>,
    pre: Seq<u8>,
    post: Seq<u8>,
    y: int,
    x: int,
    k: u8,
)
    requires
        l.wf(),
        0 <= y < l.height,
        0 <= x < l.width,
        k == l.bitmap@[y * l.width + x],
        0 <= l.x + x < fw,
        0 <= l.y + y < fh,
        dst0.len() == fw * fh * 4,
        pre.len() == dst0.len(),
        post.len() == dst0.len(),
        forall|o: int| 0 <= o < dst0.len() ==> pre[o] == partial_byte(l, fw, dst0, o, y, x),
        forall|o: int|
            0 <= o < dst0.len() && !(((l.y + y) * fw + (l.x + x)) * 4 <= o < ((l.y + y) * fw + (l.x
                + x)) * 4 + 4) ==> post[o] == pre[o],
        forall|i: int|
            0 <= i < 4 ==> post[((l.y + y) * fw + (l.x + x)) * 4 + i] == blend_byte(
                k,
                tint_byte(l.color, i),
                pre[((l.y + y) * fw + (l.x + x)) * 4 + i],
            ),
    ensures
        forall|o: int| 0 <= o < dst0.len() ==> post[o] == partial_byte(l, fw, dst0, o, y, x + 1),
{
    let dx = l.x + x;
    let dy = l.y + y;
    let dst_p = (dy * fw + dx) * 4;
    assert forall|o: int| 0 <= o < dst0.len() implies post[o] == partial_byte(
        l,
        fw,
        dst0,
        o,
        y,
        x + 1,
    ) by {
        lemma_coords_of_offset(fw, fh, o);
        let ox = offset_x(fw, o);
        let oy = offset_y(fw, o);
        let oc = offset_channel(o);
        if ox == dx && oy == dy {
            assert(o == dst_p + oc);
            assert(!done_upto(l, ox, oy, y, x));
            assert(pre[o] == dst0[o]);
            lemma_coverage_index_in_range(l, dx, dy);
            assert(coverage_at(l, dx, dy) == k);
            assert(post[o] == blend_byte(k, tint_byte(l.color, oc), dst0[o]));
            assert(done_upto(l, ox, oy, y, x + 1));
        } else {
            if dst_p <= o < dst_p + 4 {
                lemma_offset_of_coords(fw, dy, dx, o - dst_p);
                assert(ox == dx && oy == dy);
            }
            assert(post[o] == pre[o]);
            assert(done_upto(l, ox, oy, y, x + 1) == done_upto(l, ox, oy, y, x));
        }
    }
}

/// One step of the blend loop, clipped branch: a pixel outside the frame is
/// skipped, and the framebuffer nevertheless matches the processed part
/// grown by that pixel, which owns no framebuffer byte.
proof fn lemma_step_skipped(
    l: Layer,
    fw: int,
    fh: int,
    dst0: Seq<u8>,
    pre: Seq<u8>,
    y: int,
    x: int,
)
    requires
        l.wf(),
        0 <= y < l.height,
        0 <= x < l.width,
        fw >= 0,
        fh >= 0,
        l.x + x < 0 || l.x + x >= fw || l.y + y < 0 || l.y + y >= fh,
        dst0.len() == fw * fh * 4,
        pre.len() == dst0.len(),
        forall|o: int| 0 <= o < dst0.len() ==> pre[o] == partial_byte(l, fw, dst0, o, y, x),
    ensures
        forall|o: int| 0 <= o < dst0.len() ==> pre[o] == partial_byte(l, fw, dst0, o, y, x + 1),
{
    if dst0.len() > 0 {
        assert(fw > 0 && fh > 0) by (nonlinear_arith)
            requires
                fw >= 0,
                fh >= 0,
                fw * fh * 4 > 0,
        ;
        let dx = l.x + x;
        let dy = l.y + y;
        assert forall|o: int| 0 <= o < dst0.len() implies pre[o] == partial_byte(
            l,
            fw,
            dst0,
            o,
            y,
            x + 1,
        ) by {
            lemma_coords_of_offset(fw, fh, o);
            let ox = offset_x(fw, o);
            let oy = offset_y(fw, o);
            assert(!(ox == dx && oy == dy));
            assert(done_upto(l, ox, oy, y, x + 1) == done_upto(l, ox, oy, y, x));
        }
    }
}

/// Blends one layer's coverage bitmap, tinted by its color, onto `dst` in
/// place. `dst` is a row-major RGBA framebuffer of `frame_width` by
/// `frame_height` pixels. Pixels of the layer that fall outside the frame
/// are skipped, never written. A malformed layer is rejected before any
/// byte of `dst` changes.
pub fn composite_layer(
    layer: &Layer,
    frame_width: usize,
    frame_height: usize,
    dst: &mut Vec<u8>,
) -> (r: Result<(), Error>)
    requires
        old(dst)@.len() == frame_width * frame_height * 4,
    ensures
        final(dst)@.len() == old(dst)@.len(),
        layer.wf() ==> r is Ok && final(dst)@ == composite_layer_spec(
            *layer,
            frame_width as int,
            old(dst)@,
        ),
        !layer.wf() ==> r == Result::<(), Error>::Err(Error::MalformedLayer) && final(dst)@
            == old(dst)@,
{
    proof {
        assert((layer.width as int) * (layer.height as int) <= 0xffffffff * 0xffffffff)
            by (nonlinear_arith)
            requires
                0 <= (layer.width as int) <= 0xffffffff,
                0 <= (layer.height as int) <= 0xffffffff,
        ;
    }
    if (layer.bitmap.len() as u64) != (layer.width as u64) * (layer.height as u64) {
        return Err(Error::MalformedLayer);
    }
    // Both lengths as machine words: the index arithmetic below cannot
    // overflow a usize.
    let bitmap_len = layer.bitmap.len();
    let frame_len = dst.len();
    let color = layer.color;
    proof {
        assert((color >> 24) & 0xff < 256 && (color >> 16) & 0xff < 256 && (color >> 8) & 0xff
            < 256 && color & 0xff < 256) by (bit_vector);
    }
    let c0 = ((color >> 24) & 0xff) as u8;
    let c1 = ((color >> 16) & 0xff) as u8;
    let c2 = ((color >> 8) & 0xff) as u8;
    let c3 = 255 - ((color & 0xff) as u8);
    let ghost dst0 = dst@;
    let ghost fw = frame_width as int;
    let mut y: u32 = 0;
    while y < layer.height
        invariant
            layer.wf(),
            y <= layer.height,
            c0 == tint_byte(layer.color, 0),
            c1 == tint_byte(layer.color, 1),
            c2 == tint_byte(layer.color, 2),
            c3 == tint_byte(layer.color, 3),
            fw == frame_width as int,
            layer.bitmap@.len() == bitmap_len,
            dst0.len() == frame_len,
            dst0.len() == frame_width * frame_height * 4,
            dst@.len() == dst0.len(),
            forall|o: int|
                0 <= o < dst0.len() ==> dst@[o] == partial_byte(*layer, fw, dst0, o, y as int, 0),
        decreases layer.height - y,
    {
        let mut x: u32 = 0;
        while x < layer.width
            invariant
                layer.wf(),
                y < layer.height,
                x <= layer.width,
                c0 == tint_byte(layer.color, 0),
                c1 == tint_byte(layer.color, 1),
                c2 == tint_byte(layer.color, 2),
                c3 == tint_byte(layer.color, 3),
                fw == frame_width as int,
                layer.bitmap@.len() == bitmap_len,
                dst0.len() == frame_len,
                dst0.len() == frame_width * frame_height * 4,
                dst@.len() == dst0.len(),
                forall|o: int|
                    0 <= o < dst0.len() ==> dst@[o] == partial_byte(
                        *layer,
                        fw,
                        dst0,
                        o,
                        y as int,
                        x as int,
                    ),
            decreases layer.width - x,
        {
            proof {
                assert((y as int) * (layer.width as int) + (x as int) < (layer.width as int) * (
                layer.height as int)) by (nonlinear_arith)
                    requires
                        0 <= y < layer.height as int,
                        0 <= x < layer.width as int,
                ;
            }
            let k = layer.bitmap[(y as usize) * (layer.width as usize) + (x as usize)];
            let dx = (x as i64) + (layer.x as i64);
            let dy = (y as i64) + (layer.y as i64);
            let ghost pre = dst@;
            if 0 <= dx && 0 <= dy && (dx as u64) < (frame_width as u64) && (dy as u64) < (
            frame_height as u64) {
                let dxu = dx as usize;
                let dyu = dy as usize;
                proof {
                    assert((dyu as int) * fw + (dxu as int) < fw * (frame_height as int))
                        by (nonlinear_arith)
                        requires
                            0 <= (dyu as int) < (frame_height as int),
                            0 <= (dxu as int) < fw,
                    ;
                    assert(((dyu as int) * fw + (dxu as int)) * 4 + 3 < dst0.len())
                        by (nonlinear_arith)
                        requires
                            0 <= (dyu as int) * fw + (dxu as int) < fw * (frame_height as int),
                            dst0.len() == fw * (frame_height as int) * 4,
                    ;
                }
                let dst_p = (dyu * frame_width + dxu) * 4;
                let b0 = blend(k, c0, dst[dst_p]);
                let b1 = blend(k, c1, dst[dst_p + 1]);
                let b2 = blend(k, c2, dst[dst_p + 2]);
                let b3 = blend(k, c3, dst[dst_p + 3]);
                dst[dst_p] = b0;
                dst[dst_p + 1] = b1;
                dst[dst_p + 2] = b2;
                dst[dst_p + 3] = b3;
                proof {
                    lemma_step_writes(
                        *layer,
                        fw,
                        frame_height as int,
                        dst0,
                        pre,
                        dst@,
                        y as int,
                        x as int,
                        k,
                    );
                }
            } else {
                proof {
                    lemma_step_skipped(
                        *layer,
                        fw,
                        frame_height as int,
                        dst0,
                        pre,
                        y as int,
                        x as int,
                    );
                }
            }
            x = x + 1;
        }
        y = y + 1;
        proof {
            assert forall|o: int| 0 <= o < dst0.len() implies dst@[o] == partial_byte(
                *layer,
                fw,
                dst0,
                o,
                y as int,
                0,
            ) by {
                assert(dst@[o] == partial_byte(*layer, fw, dst0, o, y as int - 1, layer.width as int));
            }
        }
    }
    proof {
        assert forall|o: int| 0 <= o < dst0.len() implies dst@[o] == layer_byte(
            *layer,
            fw,
            dst0,
            o,
        ) by {
            assert(dst@[o] == partial_byte(*layer, fw, dst0, o, layer.height as int, 0));
        }
        assert(dst@ =~= composite_layer_spec(*layer, fw, dst0));
    }
    Ok(())
}

/// Full coverage replaces: where a well-formed layer carries the coverage
/// byte 255 everywhere, every framebuffer byte whose pixel the layer covers
/// becomes exactly the layer's tint byte for that channel, whatever stood
/// there before (the alpha byte of the tint inverted, as always).
pub proof fn lemma_full_coverage_replaces(l: Layer, fw: int, dst: Seq<u8>, o: int)
    requires
        l.wf(),
        fw > 0,
        0 <= o < dst.len(),
        forall|j: int| 0 <= j < l.bitmap@.len() ==> l.bitmap@[j] == 255,
        covers(l, offset_x(fw, o), offset_y(fw, o)),
    ensures
        composite_layer_spec(l, fw, dst)[o] == tint_byte(l.color, offset_channel(o)),
{
    let dx = offset_x(fw, o);
    let dy = offset_y(fw, o);
    lemma_coverage_index_in_range(l, dx, dy);
    assert(coverage_at(l, dx, dy) == 255);
    let c = tint_byte(l.color, offset_channel(o));
    assert((255 * (c as int) + 0 * (dst[o] as int)) / 255 == c) by {
        vstd::arithmetic::div_mod::lemma_div_multiples_vanish(c as int, 255);
    }
}

/// Zero coverage is a no-op: a well-formed layer whose coverage bytes are
/// all zero leaves every byte of the framebuffer unchanged, whatever its
/// tint color and position.
pub proof fn lemma_zero_coverage_noop(l: Layer, fw: int, dst: Seq<u8>)
    requires
        l.wf(),
        fw > 0,
        forall|j: int| 0 <= j < l.bitmap@.len() ==> l.bitmap@[j] == 0,
    ensures
        composite_layer_spec(l, fw, dst) == dst,
{
    assert forall|o: int| 0 <= o < dst.len() implies layer_byte(l, fw, dst, o) == dst[o] by {
        let dx = offset_x(fw, o);
        let dy = offset_y(fw, o);
        if covers(l, dx, dy) {
            lemma_coverage_index_in_range(l, dx, dy);
            assert(coverage_at(l, dx, dy) == 0);
            let c = tint_byte(l.color, offset_channel(o));
            assert((0 * (c as int) + 255 * (dst[o] as int)) / 255 == dst[o]) by {
                vstd::arithmetic::div_mod::lemma_div_multiples_vanish(dst[o] as int, 255);
            }
        }
    }
    assert(composite_layer_spec(l, fw, dst) =~= dst);
}

/// Compositing an all-zero-coverage layer twice leaves the framebuffer
/// identical to compositing it once.
pub proof fn lemma_zero_coverage_twice(l: Layer, fw: int, dst: Seq<u8>)
    requires
        l.wf(),
        fw > 0,
        forall|j: int| 0 <= j < l.bitmap@.len() ==> l.bitmap@[j] == 0,
    ensures
        composite_layer_spec(l, fw, composite_layer_spec(l, fw, dst)) == composite_layer_spec(
            l,
            fw,
            dst,
        ),
{
    lemma_zero_coverage_noop(l, fw, dst);
    lemma_zero_coverage_noop(l, fw, composite_layer_spec(l, fw, dst));
}

/// A layer positioned entirely outside the frame writes nothing: the
/// framebuffer is the same sequence of bytes before and after.
pub proof fn lemma_out_of_frame_noop(l: Layer, fw: int, fh: int, dst: Seq<u8>)
    requires
        fw > 0,
        fh >= 0,
        dst.len() == fw * fh * 4,
        l.x + l.width <= 0 || l.x >= fw || l.y + l.height <= 0 || l.y >= fh,
    ensures
        composite_layer_spec(l, fw, dst) == dst,
{
    assert forall|o: int| 0 <= o < dst.len() implies layer_byte(l, fw, dst, o) == dst[o] by {
        lemma_coords_of_offset(fw, fh, o);
        assert(!covers(l, offset_x(fw, o), offset_y(fw, o)));
    }
    assert(composite_layer_spec(l, fw, dst) =~= dst);
}

/// Whether every layer of a sequence is well formed.
pub open spec fn all_wf(layers: Seq<Layer>) -> bool {
    forall|i: int| 0 <= i < layers.len() ==> layers[i].wf()
}

/// The framebuffer after the first `n` layers of a sequence are composited
/// over `dst`, each over the result of the ones before it.
pub open spec fn composite_prefix_spec(layers: Seq<Layer>, fw: int, dst: Seq<u8>, n: int) -> Seq<
    u8,
>
    decreases n,
{
    if n <= 0 {
        dst
    } else {
        composite_layer_spec(layers[n - 1], fw, composite_prefix_spec(layers, fw, dst, n - 1))
    }
}

/// The framebuffer after a whole sequence of layers is composited over `dst`
/// in order.
pub open spec fn composite_frame_spec(layers: Seq<Layer>, fw: int, dst: Seq<u8>) -> Seq<u8> {
    composite_prefix_spec(layers, fw, dst, layers.len() as int)
}

/// Composites a sequence of layers onto `dst` in order, so that later layers
/// blend over the results of earlier ones. Stops at the first malformed
/// layer: the layers before it have been applied, the malformed one and all
/// later ones have not.
pub fn composite_frame(
    layers: &Vec<Layer>,
    frame_width: usize,
    frame_height: usize,
    dst: &mut Vec<u8>,
) -> (r: Result<(), Error>)
    requires
        old(dst)@.len() == frame_width * frame_height * 4,
    ensures
        final(dst)@.len() == old(dst)@.len(),
        r is Ok <==> all_wf(layers@),
        all_wf(layers@) ==> final(dst)@ == composite_frame_spec(
            layers@,
            frame_width as int,
            old(dst)@,
        ),
        !all_wf(layers@) ==> r == Result::<(), Error>::Err(Error::MalformedLayer),
        !all_wf(layers@) ==> exists|m: int|
            #![auto]
            0 <= m < layers@.len() && !layers@[m].wf() && (forall|j: int|
                0 <= j < m ==> layers@[j].wf()) && final(dst)@ == composite_prefix_spec(
                layers@,
                frame_width as int,
                old(dst)@,
                m,
            ),
{
    let ghost dst0 = dst@;
    let mut idx: usize = 0;
    while idx < layers.len()
        invariant
            idx <= layers@.len(),
            dst0 == old(dst)@,
            dst0.len() == frame_width * frame_height * 4,
            dst@.len() == dst0.len(),
            forall|j: int| 0 <= j < idx ==> layers@[j].wf(),
            dst@ == composite_prefix_spec(layers@, frame_width as int, dst0, idx as int),
        decreases layers@.len() - idx,
    {
        let ghost before = dst@;
        match composite_layer(&layers[idx], frame_width, frame_height, dst) {
            Ok(()) => {
                proof {
                    assert(layers@[idx as int].wf());
                    assert(dst@ == composite_prefix_spec(
                        layers@,
                        frame_width as int,
                        dst0,
                        idx as int + 1,
                    ));
                }
            },
            Err(e) => {
                proof {
                    assert(0 <= (idx as int) < layers@.len() && !layers@[idx as int].wf() && (
                    forall|j: int| 0 <= j < idx as int ==> layers@[j].wf()) && dst@
                        == composite_prefix_spec(
                        layers@,
                        frame_width as int,
                        old(dst)@,
                        idx as int,
                    ));
                }
                return Err(e);
            },
        }
        idx = idx + 1;
    }
    Ok(())
}

} // verus!

