//! Framing the recognised regions on the image: which rectangles are drawn
//! in which colours, and the drawing itself on the image's RGB pixels.

use vstd::prelude::*;
use crate::report::{region_views, RegionModel, TextRegion};

verus! {

/// An RGB colour.
#[derive(Clone, Copy, Debug, PartialEq, Eq, Structural)]
pub struct Rgb {
    pub r: u8,
    pub g: u8,
    pub b: u8,
}

/// A hollow rectangle to draw: position, size (both at least 1) and colour.
#[derive(Clone, Copy, Debug, PartialEq, Eq, Structural)]
pub struct Frame {
    pub left: i32,
    pub top: i32,
    pub width: u32,
    pub height: u32,
    pub color: Rgb,
}

/// The colour of the `i`-th region: eight colours, used in turn.
pub open spec fn palette(i: int) -> Rgb {
    let k = i % 8;
    if k == 0 {
        Rgb { r: 255, g: 0, b: 0 }
    } else if k == 1 {
        Rgb { r: 0, g: 255, b: 0 }
    } else if k == 2 {
        Rgb { r: 0, g: 0, b: 255 }
    } else if k == 3 {
        Rgb { r: 255, g: 255, b: 0 }
    } else if k == 4 {
        Rgb { r: 255, g: 0, b: 255 }
    } else if k == 5 {
        Rgb { r: 0, g: 255, b: 255 }
    } else if k == 6 {
        Rgb { r: 255, g: 128, b: 0 }
    } else {
        Rgb { r: 128, g: 0, b: 255 }
    }
}

/// The coordinate range in which the drawing routine works exactly: its
/// line walker takes the corners as `f32`, which holds every integer of
/// magnitude up to 2^24.
pub open spec fn coordinate_limit() -> int {
    0x100_0000
}

/// A rectangle the drawing routine draws without panicking or walking
/// beyond the `i32` range: a positive size, and all its edges within
/// 2^24 of the origin.
pub open spec fn drawable(left: int, top: int, width: int, height: int) -> bool {
    &&& 0 < width
    &&& 0 < height
    &&& -coordinate_limit() <= left
    &&& -coordinate_limit() <= top
    &&& left + width <= coordinate_limit()
    &&& top + height <= coordinate_limit()
}

/// Whether the region's box is drawn with a second, surrounding frame.
pub open spec fn has_outer_frame(r: RegionModel) -> bool {
    r.left > 0 && r.top > 0
}

/// A region whose frames can be drawn.
pub open spec fn frameable(r: RegionModel) -> bool {
    &&& drawable(r.left as int, r.top as int, r.width as int, r.height as int)
    &&& has_outer_frame(r) ==> drawable(r.left - 1, r.top - 1, r.width + 2, r.height + 2)
}

/// The frames of the `i`-th region: its box, and, when the box does not
/// touch the top or left edge, a second frame one pixel further out, both in
/// the region's colour.
pub open spec fn region_frames(i: int, r: RegionModel) -> Seq<Frame> {
    let c = palette(i);
    let inner = Frame { left: r.left, top: r.top, width: r.width, height: r.height, color: c };
    if has_outer_frame(r) {
        seq![inner, Frame {
            left: (r.left - 1) as i32,
            top: (r.top - 1) as i32,
            width: (r.width + 2) as u32,
            height: (r.height + 2) as u32,
            color: c,
        }]
    } else {
        seq![inner]
    }
}

/// The frames of the first `n` regions, in order.
pub open spec fn frames_of(rs: Seq<RegionModel>, n: int) -> Seq<Frame>
    decreases n,
{
    if n <= 0 {
        Seq::empty()
    } else {
        frames_of(rs, n - 1) + region_frames(n - 1, rs[n - 1])
    }
}

/// All regions can be framed.
pub open spec fn all_frameable(rs: Seq<RegionModel>) -> bool {
    forall|i: int| 0 <= i < rs.len() ==> frameable(#[trigger] rs[i])
}

fn palette_color(i: usize) -> (c: Rgb)
    ensures
        c == palette(i as int),
{
    let k = i % 8;
    if k == 0 {
        Rgb { r: 255, g: 0, b: 0 }
    } else if k == 1 {
        Rgb { r: 0, g: 255, b: 0 }
    } else if k == 2 {
        Rgb { r: 0, g: 0, b: 255 }
    } else if k == 3 {
        Rgb { r: 255, g: 255, b: 0 }
    } else if k == 4 {
        Rgb { r: 255, g: 0, b: 255 }
    } else if k == 5 {
        Rgb { r: 0, g: 255, b: 255 }
    } else if k == 6 {
        Rgb { r: 255, g: 128, b: 0 }
    } else {
        Rgb { r: 128, g: 0, b: 255 }
    }
}

/// The frames to draw for the regions, in drawing order.
pub fn plan_frames(regions: &Vec<TextRegion>) -> (plan: Vec<Frame>)
    requires
        all_frameable(region_views(regions@)),
    ensures
        plan@ == frames_of(region_views(regions@), regions@.len() as int),
        forall|k: int| 0 <= k < plan@.len() ==> drawable(
            #[trigger] plan@[k].left as int,
            plan@[k].top as int,
            plan@[k].width as int,
            plan@[k].height as int,
        ),
{
    let ghost rs = region_views(regions@);
    let mut plan: Vec<Frame> = Vec::new();
    let mut i: usize = 0;
    while i < regions.len()
        invariant
            i <= regions@.len(),
            rs == region_views(regions@),
            all_frameable(rs),
            plan@ == frames_of(rs, i as int),
            forall|k: int| 0 <= k < plan@.len() ==> drawable(
                #[trigger] plan@[k].left as int,
                plan@[k].top as int,
                plan@[k].width as int,
                plan@[k].height as int,
            ),
        decreases regions@.len() - i,
    {
        let r = &regions[i];
        assert(frameable(rs[i as int]));
        let c = palette_color(i);
        plan.push(Frame { left: r.left, top: r.top, width: r.width, height: r.height, color: c });
        if r.left > 0 && r.top > 0 {
            plan.push(Frame {
                left: r.left - 1,
                top: r.top - 1,
                width: r.width + 2,
                height: r.height + 2,
                color: c,
            });
        }
        assert(plan@ =~= frames_of(rs, i + 1));
        i += 1;
    }
    plan
}

/// The pixel in column `x`, row `y` lies on the outline of the frame: on
/// its top or bottom row between its left and right columns, or on its left
/// or right column between its top and bottom rows.
pub open spec fn on_outline(f: Frame, x: int, y: int) -> bool {
    let right = f.left + f.width - 1;
    let bottom = f.top + f.height - 1;
    ||| (y == f.top || y == bottom) && f.left <= x <= right
    ||| (x == f.left || x == right) && f.top <= y <= bottom
}

/// Channel `c` (0 red, 1 green, 2 blue) of a colour.
pub open spec fn channel(color: Rgb, c: int) -> u8 {
    if c == 0 {
        color.r
    } else if c == 1 {
        color.g
    } else {
        color.b
    }
}

/// The column of the pixel that byte `k` belongs to, in an RGB image
/// `width` pixels wide.
pub open spec fn pixel_x(k: int, width: u32) -> int {
    (k / 3) % (width as int)
}

/// The row of the pixel that byte `k` belongs to.
pub open spec fn pixel_y(k: int, width: u32) -> int {
    (k / 3) / (width as int)
}

/// An RGB image (row-major, three bytes a pixel, `width` pixels a row,
/// `height` rows) after drawing the outline of a frame: the pixels of the
/// image that lie on the outline take the frame's colour, all other bytes
/// stay. (The drawing routine compares coordinates with the image size
/// taken as `i32`, so an image more than `i32::MAX` pixels wide or high is
/// left as it is.)
pub open spec fn outline_drawn(pixels: Seq<u8>, width: u32, height: u32, f: Frame) -> Seq<u8> {
    Seq::new(
        pixels.len(),
        |k: int|
            if width <= i32::MAX && height <= i32::MAX && on_outline(
                f,
                pixel_x(k, width),
                pixel_y(k, width),
            ) {
                channel(f.color, k % 3)
            } else {
                pixels[k]
            },
    )
}

/// imageproc's `draw_hollow_rect_mut` on an RGB image held as raw pixels.
///
/// Trusted: the contract claims that the image comes back with exactly the
/// pixels on the rectangle's outline set to the colour. In imageproc the
/// outline is four horizontal or vertical `draw_line_segment_mut` calls
/// between the corners `(left, top)`, `(right, top)`, `(left, bottom)`,
/// `(right, bottom)`; under `drawable` the corners are exact as `f32` and
/// stay below `i32::MAX`, so the Bresenham walk visits every integer point
/// of each edge, and the points inside the image are set with `put_pixel`
/// (three bytes at `(y * width + x) * 3`); the image crate's `from_raw` and
/// `into_raw` hand the same buffer through. The `requires` rules out what
/// panics there: a buffer of the wrong size, an empty rectangle, and far
/// edges that overflow.
#[verifier::external_body]
fn draw_hollow_rect(pixels: Vec<u8>, width: u32, height: u32, f: Frame) -> (out: Vec<u8>)
    requires
        pixels@.len() == width as int * height as int * 3,
        drawable(f.left as int, f.top as int, f.width as int, f.height as int),
    ensures
        out@ == outline_drawn(pixels@, width, height, f),
{
    let mut img = image::RgbImage::from_raw(width, height, pixels).unwrap();
    let rect = imageproc::rect::Rect::at(f.left, f.top).of_size(f.width, f.height);
    imageproc::drawing::draw_hollow_rect_mut(&mut img, rect, image::Rgb([f.color.r, f.color.g, f.color.b]));
    img.into_raw()
}

/// The pixels after drawing the first `n` frames in order.
pub open spec fn frames_drawn(pixels: Seq<u8>, width: u32, height: u32, plan: Seq<Frame>, n: int) -> Seq<u8>
    decreases n,
{
    if n <= 0 {
        pixels
    } else {
        outline_drawn(frames_drawn(pixels, width, height, plan, n - 1), width, height, plan[n - 1])
    }
}

/// Frames every region on an RGB image of `width` x `height` pixels held as
/// raw row-major bytes, three a pixel.
pub fn annotate_pixels(pixels: Vec<u8>, width: u32, height: u32, regions: &Vec<TextRegion>) -> (out: Vec<u8>)
    requires
        pixels@.len() == width as int * height as int * 3,
        all_frameable(region_views(regions@)),
    ensures
        out@ == frames_drawn(
            pixels@,
            width,
            height,
            frames_of(region_views(regions@), regions@.len() as int),
            frames_of(region_views(regions@), regions@.len() as int).len() as int,
        ),
        out@.len() == pixels@.len(),
{
    let plan = plan_frames(regions);
    let ghost start = pixels@;
    let mut px = pixels;
    let mut k: usize = 0;
    while k < plan.len()
        invariant
            k <= plan@.len(),
            px@.len() == start.len(),
            start.len() == width as int * height as int * 3,
            px@ == frames_drawn(start, width, height, plan@, k as int),
            forall|j: int| 0 <= j < plan@.len() ==> drawable(
                #[trigger] plan@[j].left as int,
                plan@[j].top as int,
                plan@[j].width as int,
                plan@[j].height as int,
            ),
        decreases plan@.len() - k,
    {
        px = draw_hollow_rect(px, width, height, plan[k]);
        k += 1;
    }
    px
}

/// The colours repeat every eight regions.
pub proof fn law_palette_repeats_every_eight(i: int)
    requires
        0 <= i,
    ensures
        palette(i + 8) == palette(i),
{
    assert((i + 8) % 8 == i % 8);
}

/// Each region gets one frame, and a second one exactly when its box does
/// not touch the image's top or left edge; both are in the region's colour,
/// and the second surrounds the first at a distance of one pixel.
pub proof fn law_region_frames(i: int, r: RegionModel)
    requires
        frameable(r),
    ensures
        region_frames(i, r).len() == if has_outer_frame(r) { 2int } else { 1int },
        region_frames(i, r)[0] == (Frame { left: r.left, top: r.top, width: r.width, height: r.height, color: palette(i) }),
        has_outer_frame(r) ==> {
            let o = region_frames(i, r)[1];
            &&& o.color == palette(i)
            &&& o.left == r.left - 1 && o.top == r.top - 1
            &&& o.left + o.width == r.left + r.width + 1
            &&& o.top + o.height == r.top + r.height + 1
        },
{
}

/// The index of the last of the first `n` frames whose outline covers the
/// pixel at column `x`, row `y`; -1 when none does.
pub open spec fn last_cover(plan: Seq<Frame>, n: int, x: int, y: int) -> int
    decreases n,
{
    if n <= 0 {
        -1
    } else if on_outline(plan[n - 1], x, y) {
        n - 1
    } else {
        last_cover(plan, n - 1, x, y)
    }
}

/// What drawing the frames does to each byte of an image no more than
/// `i32::MAX` pixels wide and high: a byte of a pixel on no frame's outline
/// keeps its value; any other takes the matching channel of the last frame
/// drawn over it. The image keeps its size.
pub proof fn law_frames_drawn_pixels(
    pixels: Seq<u8>,
    width: u32,
    height: u32,
    plan: Seq<Frame>,
    n: int,
    k: int,
)
    requires
        width <= i32::MAX,
        height <= i32::MAX,
        0 <= n <= plan.len(),
        0 <= k < pixels.len(),
    ensures
        frames_drawn(pixels, width, height, plan, n).len() == pixels.len(),
        frames_drawn(pixels, width, height, plan, n)[k] == ({
            let j = last_cover(plan, n, pixel_x(k, width), pixel_y(k, width));
            if j < 0 {
                pixels[k]
            } else {
                channel(plan[j].color, k % 3)
            }
        }),
    decreases n,
{
    if n > 0 {
        law_frames_drawn_pixels(pixels, width, height, plan, n - 1, k);
    }
}

/// The colours, in turn: red, green, blue, yellow, magenta, cyan, orange,
/// purple, then again from red.
pub proof fn law_palette_colours(i: int)
    requires
        0 <= i,
    ensures
        i % 8 == 0 ==> palette(i) == (Rgb { r: 255, g: 0, b: 0 }),
        i % 8 == 1 ==> palette(i) == (Rgb { r: 0, g: 255, b: 0 }),
        i % 8 == 2 ==> palette(i) == (Rgb { r: 0, g: 0, b: 255 }),
        i % 8 == 3 ==> palette(i) == (Rgb { r: 255, g: 255, b: 0 }),
        i % 8 == 4 ==> palette(i) == (Rgb { r: 255, g: 0, b: 255 }),
        i % 8 == 5 ==> palette(i) == (Rgb { r: 0, g: 255, b: 255 }),
        i % 8 == 6 ==> palette(i) == (Rgb { r: 255, g: 128, b: 0 }),
        i % 8 == 7 ==> palette(i) == (Rgb { r: 128, g: 0, b: 255 }),
{
}

/// The number of regions among the first `n` whose box gets the second,
/// surrounding frame.
pub open spec fn outer_count(rs: Seq<RegionModel>, n: int) -> int
    decreases n,
{
    if n <= 0 {
        0
    } else {
        outer_count(rs, n - 1) + if rs[n - 1].left > 0 && rs[n - 1].top > 0 { 1int } else { 0int }
    }
}

/// Every region is framed, whatever its shape: the plan for the first `n`
/// regions holds, for each of them, the frame of its own box in its colour,
/// and, when the box touches neither the top nor the left edge, the frame
/// one pixel further out in the same colour; it holds nothing else, one
/// frame per region plus one per surrounding frame.
pub proof fn law_every_region_is_framed(rs: Seq<RegionModel>, n: int)
    requires
        0 <= n <= rs.len(),
    ensures
        frames_of(rs, n).len() == n + outer_count(rs, n),
        forall|k: int|
            0 <= k < n ==> frames_of(rs, n).contains(
                Frame {
                    left: rs[k].left,
                    top: rs[k].top,
                    width: rs[k].width,
                    height: rs[k].height,
                    color: palette(k),
                },
            ),
        forall|k: int|
            0 <= k < n && rs[k].left > 0 && rs[k].top > 0 ==> frames_of(rs, n).contains(
                Frame {
                    left: (rs[k].left - 1) as i32,
                    top: (rs[k].top - 1) as i32,
                    width: (rs[k].width + 2) as u32,
                    height: (rs[k].height + 2) as u32,
                    color: palette(k),
                },
            ),
        forall|j: int|
            0 <= j < frames_of(rs, n).len() ==> exists|k: int|
                0 <= k < n && (#[trigger] frames_of(rs, n)[j] == (Frame {
                    left: rs[k].left,
                    top: rs[k].top,
                    width: rs[k].width,
                    height: rs[k].height,
                    color: palette(k),
                }) || (rs[k].left > 0 && rs[k].top > 0 && frames_of(rs, n)[j] == (Frame {
                    left: (rs[k].left - 1) as i32,
                    top: (rs[k].top - 1) as i32,
                    width: (rs[k].width + 2) as u32,
                    height: (rs[k].height + 2) as u32,
                    color: palette(k),
                }))),
    decreases n,
{
    if n > 0 {
        law_every_region_is_framed(rs, n - 1);
        let prev = frames_of(rs, n - 1);
        let cur = frames_of(rs, n);
        let add = region_frames(n - 1, rs[n - 1]);
        assert(cur == prev + add);
        assert forall|k: int| 0 <= k < n implies cur.contains(
            Frame { left: rs[k].left, top: rs[k].top, width: rs[k].width, height: rs[k].height, color: palette(k) },
        ) by {
            let f = Frame { left: rs[k].left, top: rs[k].top, width: rs[k].width, height: rs[k].height, color: palette(k) };
            if k < n - 1 {
                let j = choose|j: int| 0 <= j < prev.len() && prev[j] == f;
                assert(cur[j] == f);
            } else {
                assert(cur[prev.len() as int] == f);
            }
        }
        assert forall|k: int| 0 <= k < n && rs[k].left > 0 && rs[k].top > 0 implies cur.contains(
            Frame {
                left: (rs[k].left - 1) as i32,
                top: (rs[k].top - 1) as i32,
                width: (rs[k].width + 2) as u32,
                height: (rs[k].height + 2) as u32,
                color: palette(k),
            },
        ) by {
            let f = Frame {
                left: (rs[k].left - 1) as i32,
                top: (rs[k].top - 1) as i32,
                width: (rs[k].width + 2) as u32,
                height: (rs[k].height + 2) as u32,
                color: palette(k),
            };
            if k < n - 1 {
                let j = choose|j: int| 0 <= j < prev.len() && prev[j] == f;
                assert(cur[j] == f);
            } else {
                assert(cur[prev.len() + 1int] == f);
            }
        }
        assert forall|j: int| 0 <= j < cur.len() implies exists|k: int|
            0 <= k < n && (#[trigger] cur[j] == (Frame {
                left: rs[k].left,
                top: rs[k].top,
                width: rs[k].width,
                height: rs[k].height,
                color: palette(k),
            }) || (rs[k].left > 0 && rs[k].top > 0 && cur[j] == (Frame {
                left: (rs[k].left - 1) as i32,
                top: (rs[k].top - 1) as i32,
                width: (rs[k].width + 2) as u32,
                height: (rs[k].height + 2) as u32,
                color: palette(k),
            }))) by {
            if j < prev.len() {
                assert(cur[j] == prev[j]);
            } else {
                assert(cur[j] == add[j - prev.len()]);
                let k = n - 1;
                assert(0 <= k < n);
            }
        }
    }
}

} // verus!
