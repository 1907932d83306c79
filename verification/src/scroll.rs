//! Scrollable-viewport machinery: the viewport rectangle into a larger
//! content area, panning with clamping, and scrollbar geometry and
//! interaction state.

use vstd::prelude::*;
use vstd::math::abs;

use crate::geometry::{point_ok, rect_ok, size_ok, vec_ok, Point, Rect, Size, Vec2, MAX_DIM,
    MAX_POS};

verus! {

/// Clamps a proposed origin coordinate to `[0, limit]`, where `limit` is the
/// room the content leaves beside the view (`content - view`); when the
/// content is smaller than the view the result is pinned to `0`.
pub open spec fn clamp_axis(v: int, limit: int) -> int {
    if v > limit {
        if limit < 0 {
            0
        } else {
            limit
        }
    } else if v < 0 {
        0
    } else {
        v
    }
}

/// Represents the size and position of a rectangular "viewport" into a
/// larger area.
#[derive(Clone, Copy, Debug, PartialEq, Eq, Structural)]
pub struct Viewport {
    /// The size of the area that we have a viewport into.
    pub content_size: Size,
    /// The view rectangle.
    pub rect: Rect,
}

impl Viewport {
    /// Both the content size and the view rectangle are within the
    /// supported coordinate range.
    pub open spec fn wf(self) -> bool {
        size_ok(self.content_size) && rect_ok(self.rect)
    }

    /// Where the view origin lands when `origin` is clamped against this
    /// viewport's content.
    pub open spec fn spec_clamp(self, origin: Point) -> Point {
        Point {
            x: clamp_axis(origin.x as int, self.content_size.width - self.rect.spec_width())
                as i64,
            y: clamp_axis(origin.y as int, self.content_size.height - self.rect.spec_height())
                as i64,
        }
    }

    /// The viewport whose view rectangle was moved to `origin`, everything
    /// else unchanged.
    pub open spec fn spec_with_origin(self, origin: Point) -> Viewport {
        Viewport {
            content_size: self.content_size,
            rect: Rect {
                x0: origin.x,
                y0: origin.y,
                x1: (origin.x + self.rect.spec_width()) as i64,
                y1: (origin.y + self.rect.spec_height()) as i64,
            },
        }
    }

    /// An empty viewport into empty content.
    pub fn new() -> (r: Viewport)
        ensures
            r.content_size == (Size { width: 0, height: 0 }),
            r.rect == (Rect { x0: 0, y0: 0, x1: 0, y1: 0 }),
            r.wf(),
    {
        Viewport {
            content_size: Size { width: 0, height: 0 },
            rect: Rect { x0: 0, y0: 0, x1: 0, y1: 0 },
        }
    }

    /// Tries to find a position for the view rectangle that is contained in
    /// the content rectangle.
    ///
    /// If the supplied origin is good, returns it; if it isn't, the nearest
    /// origin that would make the view rectangle contained in the content
    /// rectangle is returned. (This will fail if the content is smaller
    /// than the view, and the answer is `0` in each dimension where the
    /// content is smaller.)
    pub fn clamp_view_origin(&self, origin: Point) -> (r: Point)
        requires
            self.wf(),
        ensures
            r == self.spec_clamp(origin),
            0 <= r.x <= MAX_DIM,
            0 <= r.y <= MAX_DIM,
    {
        let limit_x = self.content_size.width - (self.rect.x1 - self.rect.x0);
        let limit_y = self.content_size.height - (self.rect.y1 - self.rect.y0);
        let x = if origin.x > limit_x { limit_x } else { origin.x };
        let x = if x < 0 { 0 } else { x };
        let y = if origin.y > limit_y { limit_y } else { origin.y };
        let y = if y < 0 { 0 } else { y };
        Point { x, y }
    }

    /// Sets the viewport origin to `origin`, clamped to keep the view
    /// rectangle inside the content rectangle.
    ///
    /// Returns true if the position changed.
    pub fn pan_to(&mut self, origin: Point) -> (changed: bool)
        requires
            old(self).wf(),
        ensures
            *final(self) == old(self).spec_with_origin(old(self).spec_clamp(origin)),
            changed == (old(self).spec_clamp(origin) != old(self).rect.spec_origin()),
            final(self).wf(),
    {
        let new_origin = self.clamp_view_origin(origin);
        if new_origin.x != self.rect.x0 || new_origin.y != self.rect.y0 {
            self.rect = self.rect.with_origin(new_origin);
            true
        } else {
            proof {
                assert(*self =~= old(self).spec_with_origin(new_origin));
            }
            false
        }
    }

    /// Changes the viewport offset by `delta`, clamped as in [`Viewport::pan_to`].
    ///
    /// Returns true if the offset actually changed; even a non-zero `delta`
    /// may leave the offset unchanged when the view already rests against
    /// the content's edge.
    pub fn pan_by(&mut self, delta: Vec2) -> (changed: bool)
        requires
            old(self).wf(),
            vec_ok(delta),
        ensures
            ({
                let target = Point {
                    x: (old(self).rect.x0 + delta.x) as i64,
                    y: (old(self).rect.y0 + delta.y) as i64,
                };
                &&& *final(self) == old(self).spec_with_origin(old(self).spec_clamp(target))
                &&& changed == (old(self).spec_clamp(target) != old(self).rect.spec_origin())
            }),
            final(self).wf(),
    {
        let target = Point { x: self.rect.x0 + delta.x, y: self.rect.y0 + delta.y };
        self.pan_to(target)
    }

    /// Moves the view rectangle to exactly `origin`, without clamping.
    ///
    /// Returns true if the position changed.
    pub fn force_pan_to(&mut self, origin: Point) -> (changed: bool)
        requires
            old(self).wf(),
            point_ok(origin),
        ensures
            *final(self) == old(self).spec_with_origin(origin),
            changed == (origin != old(self).rect.spec_origin()),
            final(self).wf(),
    {
        if origin.x != self.rect.x0 || origin.y != self.rect.y0 {
            self.rect = self.rect.with_origin(origin);
            true
        } else {
            proof {
                assert(*self =~= old(self).spec_with_origin(origin));
            }
            false
        }
    }
}

/// Once panned, a viewport's origin lies inside the content: between zero
/// and the room the content leaves beside the view, in each dimension.
pub proof fn lemma_pan_to_origin_in_bounds(v: Viewport, origin: Point)
    requires
        v.wf(),
    ensures
        ({
            let p = v.spec_clamp(origin);
            &&& 0 <= p.x
            &&& 0 <= p.y
            &&& v.content_size.width >= v.rect.spec_width() ==> p.x
                <= v.content_size.width - v.rect.spec_width()
            &&& v.content_size.height >= v.rect.spec_height() ==> p.y
                <= v.content_size.height - v.rect.spec_height()
        }),
{
}

/// Clamping is idempotent: panning to an origin that clamping produced
/// leaves the viewport where it is.
pub proof fn lemma_clamp_idempotent(v: Viewport, origin: Point)
    requires
        v.wf(),
    ensures
        ({
            let once = v.spec_with_origin(v.spec_clamp(origin));
            once.spec_clamp(once.rect.spec_origin()) == once.rect.spec_origin()
        }),
{
}

/// Given a position and the min and max edges of an axis, the delta by
/// which to adjust that axis so that the value falls between its edges;
/// zero when it already does.
pub open spec fn spec_closest_on_axis(val: int, low: int, high: int) -> int {
    if val > low && val < high {
        0
    } else if val <= low {
        val - low
    } else {
        val - high
    }
}

/// Represents the size and position of a rectangular "viewport" into a
/// larger area, with panning that can chase a target region.
#[derive(Clone, Copy, Debug, PartialEq, Eq, Structural)]
pub struct ViewportNew {
    /// The size of the area that we have a viewport into.
    pub content_size: Size,
    /// The view rectangle.
    pub rect: Rect,
}

impl ViewportNew {
    /// Both the content size and the view rectangle are within the
    /// supported coordinate range.
    pub open spec fn wf(self) -> bool {
        size_ok(self.content_size) && rect_ok(self.rect)
    }

    /// Where the view origin lands when `origin` is clamped against this
    /// viewport's content.
    pub open spec fn spec_clamp(self, origin: Point) -> Point {
        Point {
            x: clamp_axis(origin.x as int, self.content_size.width - self.rect.spec_width())
                as i64,
            y: clamp_axis(origin.y as int, self.content_size.height - self.rect.spec_height())
                as i64,
        }
    }

    /// The viewport whose view rectangle was moved to `origin`, everything
    /// else unchanged.
    pub open spec fn spec_with_origin(self, origin: Point) -> ViewportNew {
        ViewportNew {
            content_size: self.content_size,
            rect: Rect {
                x0: origin.x,
                y0: origin.y,
                x1: (origin.x + self.rect.spec_width()) as i64,
                y1: (origin.y + self.rect.spec_height()) as i64,
            },
        }
    }

    /// The displacement that [`ViewportNew::pan_to_visible`] applies for
    /// target region `region`: the smallest move, per axis, that brings the
    /// part of the region nearest its origin into view.
    pub open spec fn spec_visible_delta(self, region: Rect) -> Vec2 {
        let w = if region.spec_width() <= self.rect.spec_width() {
            region.spec_width()
        } else {
            self.rect.spec_width()
        };
        let h = if region.spec_height() <= self.rect.spec_height() {
            region.spec_height()
        } else {
            self.rect.spec_height()
        };
        let x0 = spec_closest_on_axis(region.x0 as int, self.rect.x0 as int, self.rect.x1 as int);
        let x1 = spec_closest_on_axis(region.x0 + w, self.rect.x0 as int, self.rect.x1 as int);
        let y0 = spec_closest_on_axis(region.y0 as int, self.rect.y0 as int, self.rect.y1 as int);
        let y1 = spec_closest_on_axis(region.y0 + h, self.rect.y0 as int, self.rect.y1 as int);
        let dx = if abs(x0) > abs(x1) {
            x0
        } else {
            x1
        };
        let dy = if abs(y0) > abs(y1) {
            y0
        } else {
            y1
        };
        Vec2 { x: dx as i64, y: dy as i64 }
    }

    /// An empty viewport into empty content.
    pub fn new() -> (r: ViewportNew)
        ensures
            r.content_size == (Size { width: 0, height: 0 }),
            r.rect == (Rect { x0: 0, y0: 0, x1: 0, y1: 0 }),
            r.wf(),
    {
        ViewportNew {
            content_size: Size { width: 0, height: 0 },
            rect: Rect { x0: 0, y0: 0, x1: 0, y1: 0 },
        }
    }

    /// Tries to find a position for the view rectangle that is contained in
    /// the content rectangle, as [`Viewport::clamp_view_origin`] does.
    pub fn clamp_view_origin(&self, origin: Point) -> (r: Point)
        requires
            self.wf(),
        ensures
            r == self.spec_clamp(origin),
            0 <= r.x <= MAX_DIM,
            0 <= r.y <= MAX_DIM,
    {
        let limit_x = self.content_size.width - (self.rect.x1 - self.rect.x0);
        let limit_y = self.content_size.height - (self.rect.y1 - self.rect.y0);
        let x = if origin.x > limit_x { limit_x } else { origin.x };
        let x = if x < 0 { 0 } else { x };
        let y = if origin.y > limit_y { limit_y } else { origin.y };
        let y = if y < 0 { 0 } else { y };
        Point { x, y }
    }

    /// Sets the viewport origin to `origin`, clamped to keep the view
    /// rectangle inside the content rectangle.
    ///
    /// Returns true if the position changed.
    pub fn pan_to(&mut self, origin: Point) -> (changed: bool)
        requires
            old(self).wf(),
        ensures
            *final(self) == old(self).spec_with_origin(old(self).spec_clamp(origin)),
            changed == (old(self).spec_clamp(origin) != old(self).rect.spec_origin()),
            final(self).wf(),
    {
        let new_origin = self.clamp_view_origin(origin);
        if new_origin.x != self.rect.x0 || new_origin.y != self.rect.y0 {
            self.rect = self.rect.with_origin(new_origin);
            true
        } else {
            proof {
                assert(*self =~= old(self).spec_with_origin(new_origin));
            }
            false
        }
    }

    /// Changes the viewport offset by `delta`, clamped as in
    /// [`ViewportNew::pan_to`].
    ///
    /// Returns true if the offset actually changed.
    pub fn pan_by(&mut self, delta: Vec2) -> (changed: bool)
        requires
            old(self).wf(),
            vec_ok(delta),
        ensures
            ({
                let target = Point {
                    x: (old(self).rect.x0 + delta.x) as i64,
                    y: (old(self).rect.y0 + delta.y) as i64,
                };
                &&& *final(self) == old(self).spec_with_origin(old(self).spec_clamp(target))
                &&& changed == (old(self).spec_clamp(target) != old(self).rect.spec_origin())
            }),
            final(self).wf(),
    {
        let target = Point { x: self.rect.x0 + delta.x, y: self.rect.y0 + delta.y };
        self.pan_to(target)
    }

    /// Moves the view rectangle to exactly `origin`, without clamping.
    pub fn force_pan_to(&mut self, origin: Point)
        requires
            old(self).wf(),
            point_ok(origin),
        ensures
            *final(self) == old(self).spec_with_origin(origin),
            final(self).wf(),
    {
        self.rect = self.rect.with_origin(origin);
    }

    /// Pan the smallest distance that makes the target [`Rect`] visible.
    ///
    /// If the target rect is larger than the viewport size, the region of
    /// the target closest to its origin is brought into view.
    ///
    /// Returns true if the position changed.
    pub fn pan_to_visible(&mut self, region: Rect) -> (changed: bool)
        requires
            old(self).wf(),
            rect_ok(region),
        ensures
            ({
                let delta = old(self).spec_visible_delta(region);
                let target = Point {
                    x: (old(self).rect.x0 + delta.x) as i64,
                    y: (old(self).rect.y0 + delta.y) as i64,
                };
                &&& *final(self) == old(self).spec_with_origin(old(self).spec_clamp(target))
                &&& changed == (old(self).spec_clamp(target) != old(self).rect.spec_origin())
            }),
            final(self).wf(),
    {
        let self_w = self.rect.x1 - self.rect.x0;
        let self_h = self.rect.y1 - self.rect.y0;
        let region_w = region.x1 - region.x0;
        let region_h = region.y1 - region.y0;
        let w = if region_w <= self_w { region_w } else { self_w };
        let h = if region_h <= self_h { region_h } else { self_h };

        let x0 = closest_on_axis(region.x0, self.rect.x0, self.rect.x1);
        let x1 = closest_on_axis(region.x0 + w, self.rect.x0, self.rect.x1);
        let y0 = closest_on_axis(region.y0, self.rect.y0, self.rect.y1);
        let y1 = closest_on_axis(region.y0 + h, self.rect.y0, self.rect.y1);

        let ax0 = if x0 < 0 { -x0 } else { x0 };
        let ax1 = if x1 < 0 { -x1 } else { x1 };
        let ay0 = if y0 < 0 { -y0 } else { y0 };
        let ay1 = if y1 < 0 { -y1 } else { y1 };
        let delta_x = if ax0 > ax1 { x0 } else { x1 };
        let delta_y = if ay0 > ay1 { y0 } else { y1 };

        let target = Point { x: self.rect.x0 + delta_x, y: self.rect.y0 + delta_y };
        self.pan_to(target)
    }
}

/// Given a position and the min and max edges of an axis, returns a delta
/// by which to adjust that axis such that the value falls between its
/// edges; zero when it already does.
fn closest_on_axis(val: i64, low: i64, high: i64) -> (r: i64)
    requires
        low <= high,
        -0x1_0000_0000 <= val <= 0x1_0000_0000,
        -0x1_0000_0000 <= low <= 0x1_0000_0000,
        -0x1_0000_0000 <= high <= 0x1_0000_0000,
    ensures
        r == spec_closest_on_axis(val as int, low as int, high as int),
{
    if val > low && val < high {
        0
    } else if val <= low {
        val - low
    } else {
        val - high
    }
}

/// The quotient of `a` by `d`, rounded toward positive infinity
/// (spec division is Euclidean, so for `d >= 1` this shifts the floor up).
pub open spec fn div_ceil(a: int, d: int) -> int
    recommends
        d >= 1,
{
    (a + d - 1) / d
}

/// For a positive divisor, the ceiling quotient lies between the dividend
/// and zero.
pub proof fn lemma_div_ceil_bounds(a: int, d: int)
    requires
        d >= 1,
    ensures
        a >= 0 ==> 0 <= div_ceil(a, d) <= a,
        a < 0 ==> a <= div_ceil(a, d) <= 0,
{
    if a >= 0 {
        vstd::arithmetic::div_mod::lemma_div_pos_is_pos(a + d - 1, d);
        assert(a + d - 1 <= a * d + d - 1) by (nonlinear_arith)
            requires
                a >= 0 && d >= 1,
        ;
        vstd::arithmetic::div_mod::lemma_div_is_ordered(a + d - 1, a * d + d - 1, d);
        vstd::arithmetic::div_mod::lemma_div_multiples_vanish_fancy(a, d - 1, d);
        vstd::arithmetic::mul::lemma_mul_is_commutative(a, d);
    } else {
        vstd::arithmetic::div_mod::lemma_div_is_ordered(a + d - 1, d - 1, d);
        assert((d - 1) / d == 0) by {
            vstd::arithmetic::div_mod::lemma_basic_div(d - 1, d);
        }
        assert(a * d <= a + d - 1) by (nonlinear_arith)
            requires
                a < 0 && d >= 1,
        ;
        vstd::arithmetic::div_mod::lemma_div_is_ordered(a * d, a + d - 1, d);
        assert((a * d) / d == a) by {
            vstd::arithmetic::div_mod::lemma_div_multiples_vanish(a, d);
            vstd::arithmetic::mul::lemma_mul_is_commutative(a, d);
        }
    }
}

/// The ceiling quotient grows with the dividend.
pub proof fn lemma_div_ceil_ordered(a: int, b: int, d: int)
    requires
        a <= b,
        d >= 1,
    ensures
        div_ceil(a, d) <= div_ceil(b, d),
{
    vstd::arithmetic::div_mod::lemma_div_is_ordered(a + d - 1, b + d - 1, d);
}

/// An exact multiple of the divisor divides out of the ceiling quotient.
pub proof fn lemma_div_ceil_multiple(x: int, d: int)
    requires
        d >= 1,
    ensures
        div_ceil(x * d, d) == x,
{
    vstd::arithmetic::div_mod::lemma_div_multiples_vanish_fancy(x, d - 1, d);
    vstd::arithmetic::mul::lemma_mul_is_commutative(x, d);
}

/// A product is bounded by the product of bounds on the factors'
/// magnitudes, for a non-negative second factor.
pub proof fn lemma_mul_abs_bound(a: int, b: int, ab: int, bb: int)
    requires
        -ab <= a <= ab,
        0 <= b <= bb,
    ensures
        -(ab * bb) <= a * b <= ab * bb,
{
    vstd::arithmetic::mul::lemma_mul_nonnegative(ab, bb);
    if a >= 0 {
        vstd::arithmetic::mul::lemma_mul_upper_bound(a, ab, b, bb);
        vstd::arithmetic::mul::lemma_mul_nonnegative(a, b);
    } else {
        vstd::arithmetic::mul::lemma_mul_upper_bound(-a, ab, b, bb);
        vstd::arithmetic::mul::lemma_mul_nonnegative(-a, b);
        vstd::arithmetic::mul::lemma_mul_unary_negation(a, b);
    }
}

/// The quotient of `n` by `d`, rounded toward positive infinity.
fn div_ceil_i128(n: i128, d: i128) -> (r: i128)
    requires
        1 <= d <= 0x1_0000_0000_0000_0000_0000_0000_0000,
        -0x1_0000_0000_0000_0000_0000_0000_0000 <= n
            <= 0x1_0000_0000_0000_0000_0000_0000_0000,
    ensures
        r == div_ceil(n as int, d as int),
{
    proof {
        lemma_div_ceil_bounds(n as int, d as int);
    }
    (n + d - 1).checked_div_euclid(d).unwrap()
}

/// Minimum length for any scrollbar to be when measured on that
/// scrollbar's primary axis.
pub const SCROLLBAR_MIN_SIZE: i64 = 45;

/// Denotes which scrollbar, if any, is currently being hovered over
/// by the mouse.
#[derive(Debug, Copy, Clone, PartialEq, Eq, Structural)]
pub enum BarHoveredState {
    /// Neither scrollbar is being hovered by the mouse.
    Neither,
    /// The vertical scrollbar is being hovered by the mouse.
    Vertical,
    /// The horizontal scrollbar is being hovered by the mouse.
    Horizontal,
}

impl BarHoveredState {
    /// Determines if any scrollbar is currently being hovered by the mouse.
    pub fn is_hovered(self) -> (r: bool)
        ensures
            r == (self is Vertical || self is Horizontal),
    {
        matches!(self, BarHoveredState::Vertical | BarHoveredState::Horizontal)
    }
}

/// Denotes which scrollbar, if any, is currently being dragged.
#[derive(Debug, Copy, Clone, PartialEq, Eq, Structural)]
pub enum BarHeldState {
    /// Neither scrollbar is being dragged.
    Neither,
    /// Vertical scrollbar is being dragged. Contains the initial
    /// y-offset of the dragging input within the bar.
    Vertical(i64),
    /// Horizontal scrollbar is being dragged. Contains the initial
    /// x-offset of the dragging input within the bar.
    Horizontal(i64),
}

/// The theme values the scrollbars are drawn with, read from the host
/// toolkit's environment by the caller: bar thickness and padding in
/// pixels, full opacity in thousandths, and the fade delay in
/// milliseconds.
#[derive(Debug, Copy, Clone, PartialEq, Eq, Structural)]
pub struct ScrollBarStyle {
    /// Thickness of a bar, measured across its primary axis.
    pub bar_width: i64,
    /// Padding between a bar and the viewport edge.
    pub bar_pad: i64,
    /// The opacity the bars are shown with, in thousandths.
    pub max_opacity: i64,
    /// How long the bars stay before fading, in milliseconds.
    pub fade_delay_millis: u64,
}

/// A style whose lengths are small enough for the bar arithmetic.
pub open spec fn style_ok(s: ScrollBarStyle) -> bool {
    &&& 0 <= s.bar_width <= MAX_DIM
    &&& 0 <= s.bar_pad <= MAX_DIM
    &&& 0 <= s.max_opacity <= 1000
}

/// The length of a scrollbar along its primary axis: the visible share of
/// the content applied to the view length, rounded up, but never under
/// [`SCROLLBAR_MIN_SIZE`].
pub open spec fn spec_bar_length(view_len: int, content_len: int) -> int
    recommends
        view_len < content_len,
{
    let l = div_ceil(view_len * view_len, content_len);
    if l > SCROLLBAR_MIN_SIZE {
        l
    } else {
        SCROLLBAR_MIN_SIZE as int
    }
}

/// How far along its track a scrollbar sits: the scrolled share of the
/// room left on the track, rounded up.
pub open spec fn spec_bar_offset(
    view_len: int,
    content_len: int,
    scroll: int,
    length: int,
    padding: int,
) -> int
    recommends
        view_len < content_len,
{
    div_ceil((view_len - length - padding) * scroll, content_len - view_len)
}

/// The paint rectangle of the vertical scrollbar for a view `rect` into
/// content of size `content`, or `None` if the whole content height is
/// visible. Coordinates are exact integers; see the `ensures` of
/// [`vertical_bar_bounds`].
pub open spec fn spec_vertical_bar_bounds(
    rect: Rect,
    content: Size,
    bar_width: int,
    bar_pad: int,
) -> Option<Rect> {
    let vw = rect.spec_width();
    let vh = rect.spec_height();
    let ch = content.height as int;
    if vh >= ch {
        None
    } else {
        let length = spec_bar_length(vh, ch);
        let top = spec_bar_offset(vh, ch, rect.y0 as int, length, bar_pad + bar_pad + bar_width);
        Some(
            Rect {
                x0: (rect.x0 + vw - bar_width - bar_pad) as i64,
                y0: (rect.y0 + top + bar_pad) as i64,
                x1: (rect.x0 + vw - bar_pad) as i64,
                y1: (rect.y0 + top + length) as i64,
            },
        )
    }
}

/// The paint rectangle of the horizontal scrollbar, or `None` if the whole
/// content width is visible.
pub open spec fn spec_horizontal_bar_bounds(
    rect: Rect,
    content: Size,
    bar_width: int,
    bar_pad: int,
) -> Option<Rect> {
    let vw = rect.spec_width();
    let vh = rect.spec_height();
    let cw = content.width as int;
    if vw >= cw {
        None
    } else {
        let length = spec_bar_length(vw, cw);
        let left = spec_bar_offset(vw, cw, rect.x0 as int, length, bar_pad + bar_pad + bar_width);
        Some(
            Rect {
                x0: (rect.x0 + left + bar_pad) as i64,
                y0: (rect.y0 + vh - bar_width - bar_pad) as i64,
                x1: (rect.x0 + left + length) as i64,
                y1: (rect.y0 + vh - bar_pad) as i64,
            },
        )
    }
}

/// Bar length and offset stay within the range that fits the corner
/// coordinates into machine integers.
proof fn lemma_bar_arith_bounds(view_len: int, content_len: int, scroll: int, padding: int)
    requires
        0 <= view_len <= MAX_DIM,
        view_len < content_len <= MAX_DIM,
        -MAX_POS <= scroll <= MAX_POS,
        0 <= padding <= 3 * (MAX_DIM as int),
    ensures
        SCROLLBAR_MIN_SIZE <= spec_bar_length(view_len, content_len) <= MAX_DIM
            + SCROLLBAR_MIN_SIZE,
        ({
            let length = spec_bar_length(view_len, content_len);
            let top = spec_bar_offset(view_len, content_len, scroll, length, padding);
            let a = view_len - length - padding;
            &&& -0x4000_0000_0000_0000 <= a * scroll <= 0x4000_0000_0000_0000
            &&& -0x4000_0000_0000_0000 <= top <= 0x4000_0000_0000_0000
        }),
        0 <= view_len * view_len <= 0x2000_0000_0000_0000,
{
    assert(0 <= view_len * view_len <= 0x2000_0000_0000_0000) by (nonlinear_arith)
        requires
            0 <= view_len <= MAX_DIM,
    ;
    let l0 = div_ceil(view_len * view_len, content_len);
    assert(0 <= view_len * view_len <= view_len * content_len) by (nonlinear_arith)
        requires
            0 <= view_len && view_len < content_len,
    ;
    lemma_div_ceil_bounds(view_len * view_len, content_len);
    lemma_div_ceil_ordered(view_len * view_len, view_len * content_len, content_len);
    lemma_div_ceil_multiple(view_len, content_len);
    let length = spec_bar_length(view_len, content_len);
    let a = view_len - length - padding;
    assert(-0x4000_0000_0000_0000 <= a * scroll <= 0x4000_0000_0000_0000) by (nonlinear_arith)
        requires
            -0x1_0000_0000 <= a <= 0x1_0000_0000 && -MAX_POS <= scroll <= MAX_POS,
    ;
    lemma_div_ceil_bounds(a * scroll, content_len - view_len);
}

/// Computes the vertical scrollbar rectangle; its corners are exactly the
/// mathematical values of the spec, which fit in machine integers.
fn vertical_bar_bounds(rect: Rect, content: Size, bar_width: i64, bar_pad: i64) -> (r: Option<
    Rect,
>)
    requires
        rect_ok(rect),
        size_ok(content),
        0 <= bar_width <= MAX_DIM,
        0 <= bar_pad <= MAX_DIM,
    ensures
        r == spec_vertical_bar_bounds(rect, content, bar_width as int, bar_pad as int),
        r is Some ==> ({
            let b = r.unwrap();
            let vw = rect.spec_width();
            let vh = rect.spec_height();
            let ch = content.height as int;
            let length = spec_bar_length(vh, ch);
            let top = spec_bar_offset(vh, ch, rect.y0 as int, length,
                bar_pad + bar_pad + bar_width);
            &&& b.x0 == rect.x0 + vw - bar_width - bar_pad
            &&& b.y0 == rect.y0 + top + bar_pad
            &&& b.x1 == rect.x0 + vw - bar_pad
            &&& b.y1 == rect.y0 + top + length
        }),
{
    if rect.y1 - rect.y0 >= content.height {
        return None;
    }
    let vw = (rect.x1 - rect.x0) as i128;
    let vh = (rect.y1 - rect.y0) as i128;
    let ch = content.height as i128;
    let ox = rect.x0 as i128;
    let oy = rect.y0 as i128;
    let bw = bar_width as i128;
    let bp = bar_pad as i128;
    proof {
        lemma_bar_arith_bounds(vh as int, ch as int, oy as int, (bp + bp + bw) as int);
    }
    let length0 = div_ceil_i128(vh * vh, ch);
    let length = if length0 > SCROLLBAR_MIN_SIZE as i128 {
        length0
    } else {
        SCROLLBAR_MIN_SIZE as i128
    };
    let vertical_padding = bp + bp + bw;
    let top = div_ceil_i128((vh - length - vertical_padding) * oy, ch - vh);
    Some(
        Rect {
            x0: (ox + vw - bw - bp) as i64,
            y0: (oy + top + bp) as i64,
            x1: (ox + vw - bp) as i64,
            y1: (oy + top + length) as i64,
        },
    )
}

/// Computes the horizontal scrollbar rectangle; its corners are exactly
/// the mathematical values of the spec, which fit in machine integers.
fn horizontal_bar_bounds(rect: Rect, content: Size, bar_width: i64, bar_pad: i64) -> (r: Option<
    Rect,
>)
    requires
        rect_ok(rect),
        size_ok(content),
        0 <= bar_width <= MAX_DIM,
        0 <= bar_pad <= MAX_DIM,
    ensures
        r == spec_horizontal_bar_bounds(rect, content, bar_width as int, bar_pad as int),
        r is Some ==> ({
            let b = r.unwrap();
            let vw = rect.spec_width();
            let vh = rect.spec_height();
            let cw = content.width as int;
            let length = spec_bar_length(vw, cw);
            let left = spec_bar_offset(vw, cw, rect.x0 as int, length,
                bar_pad + bar_pad + bar_width);
            &&& b.x0 == rect.x0 + left + bar_pad
            &&& b.y0 == rect.y0 + vh - bar_width - bar_pad
            &&& b.x1 == rect.x0 + left + length
            &&& b.y1 == rect.y0 + vh - bar_pad
        }),
{
    if rect.x1 - rect.x0 >= content.width {
        return None;
    }
    let vw = (rect.x1 - rect.x0) as i128;
    let vh = (rect.y1 - rect.y0) as i128;
    let cw = content.width as i128;
    let ox = rect.x0 as i128;
    let oy = rect.y0 as i128;
    let bw = bar_width as i128;
    let bp = bar_pad as i128;
    proof {
        lemma_bar_arith_bounds(vw as int, cw as int, ox as int, (bp + bp + bw) as int);
    }
    let length0 = div_ceil_i128(vw * vw, cw);
    let length = if length0 > SCROLLBAR_MIN_SIZE as i128 {
        length0
    } else {
        SCROLLBAR_MIN_SIZE as i128
    };
    let horizontal_padding = bp + bp + bw;
    let left = div_ceil_i128((vw - length - horizontal_padding) * ox, cw - vw);
    Some(
        Rect {
            x0: (ox + left + bp) as i64,
            y0: (oy + vh - bw - bp) as i64,
            x1: (ox + left + length) as i64,
            y1: (oy + vh - bp) as i64,
        },
    )
}

/// Whether `pos` (a point already offset into content coordinates) lies on
/// the vertical scrollbar, whose hitbox is stretched to the viewport's
/// right edge.
pub open spec fn spec_hits_vertical(
    rect: Rect,
    content: Size,
    pos: Point,
    bar_width: int,
    bar_pad: int,
) -> bool {
    match spec_vertical_bar_bounds(rect, content, bar_width, bar_pad) {
        Option::Some(b) => (Rect { x0: b.x0, y0: b.y0, x1: rect.x1, y1: b.y1 }).spec_contains(
            pos,
        ),
        Option::None => false,
    }
}

/// Whether `pos` lies on the horizontal scrollbar, whose hitbox is
/// stretched to the viewport's bottom edge.
pub open spec fn spec_hits_horizontal(
    rect: Rect,
    content: Size,
    pos: Point,
    bar_width: int,
    bar_pad: int,
) -> bool {
    match spec_horizontal_bar_bounds(rect, content, bar_width, bar_pad) {
        Option::Some(b) => (Rect { x0: b.x0, y0: b.y0, x1: b.x1, y1: rect.y1 }).spec_contains(
            pos,
        ),
        Option::None => false,
    }
}

/// Clamps a pan delta into the range the viewport arithmetic accepts.
/// For a viewport whose origin already sits in the clamped band this
/// changes nothing about where a pan lands, as
/// [`lemma_sat_delta_clamps_alike`] shows.
pub open spec fn spec_sat_delta(v: int) -> int {
    if v > MAX_POS {
        MAX_POS as int
    } else if v < -MAX_POS {
        -(MAX_POS as int)
    } else {
        v
    }
}

/// The pan distance a scrollbar drag asks for: the mouse movement along
/// the track, taken from the bar's start `bar_start` and the grab offset
/// within the bar, scaled from track pixels to content pixels and rounded
/// up. A viewport with no extent cannot be dragged.
pub open spec fn spec_drag_delta(
    view_len: int,
    content_len: int,
    mouse: int,
    bar_start: int,
    grab: int,
) -> int {
    if view_len <= 0 {
        0
    } else {
        spec_sat_delta(div_ceil((mouse - bar_start - grab) * content_len, view_len))
    }
}

/// An input event, reduced to the plain values the scrollbar state
/// machine reads. Mouse positions are in viewport coordinates, as the
/// host toolkit hands them out.
#[derive(Debug, Copy, Clone, PartialEq, Eq, Structural)]
pub enum ScrollEvent {
    /// The mouse moved.
    MouseMove(Point),
    /// A mouse button was pressed.
    MouseDown(Point),
    /// A mouse button was released.
    MouseUp(Point),
    /// The wheel turned by the given delta.
    Wheel(Vec2),
    /// A timer with the given identity fired.
    Timer(u64),
    /// An animation frame arrived, the given nanoseconds after the last.
    AnimFrame(u64),
    /// Any event the scrollbars do not read.
    Other,
}

/// An effect the host toolkit must perform after the state machine ran.
#[derive(Debug, Copy, Clone, PartialEq, Eq, Structural)]
pub enum ScrollAction {
    /// Mark the event handled.
    SetHandled,
    /// Set or clear the widget's active (mouse-grab) flag.
    SetActive(bool),
    /// Repaint the whole widget.
    RequestPaint,
    /// Repaint the given rectangle, in viewport coordinates.
    RequestPaintRect(Rect),
    /// Request an animation frame.
    RequestAnimFrame,
    /// Request the fade-out timer after the given delay in milliseconds,
    /// and hand the new timer's identity to `set_fade_timer`.
    RequestFadeTimer(u64),
    /// Request the fade-tick timer after the given delay in milliseconds,
    /// and hand the new timer's identity to `set_fade_interval`.
    RequestFadeTickTimer(u64),
}

/// Scrollbar state for a scrolling container: fading opacity, the pending
/// fade timer, and which bar the mouse hovers or drags.
#[derive(Debug, Copy, Clone, PartialEq, Eq, Structural)]
pub struct ScrollComponent {
    /// Current opacity for both scrollbars, in thousandths.
    pub opacity: i64,
    /// Identity of the timer which schedules scrollbar fade out; zero
    /// when no such timer is pending.
    pub timer_id: u64,
    /// Which if any scrollbar is currently hovered by the mouse.
    pub hovered: BarHoveredState,
    /// Which if any scrollbar is currently being dragged by the mouse.
    pub held: BarHeldState,
}

impl Default for ScrollComponent {
    /// Invisible bars, no pending timer, nothing hovered or dragged.
    fn default() -> (r: ScrollComponent)
        ensures
            r == (ScrollComponent {
                opacity: 0,
                timer_id: 0,
                hovered: BarHoveredState::Neither,
                held: BarHeldState::Neither,
            }),
    {
        ScrollComponent {
            opacity: 0,
            timer_id: 0,
            hovered: BarHoveredState::Neither,
            held: BarHeldState::Neither,
        }
    }
}

impl ScrollComponent {
    /// Constructs a new [`ScrollComponent`] for use.
    pub fn new() -> (r: ScrollComponent)
        ensures
            r == (ScrollComponent {
                opacity: 0,
                timer_id: 0,
                hovered: BarHoveredState::Neither,
                held: BarHeldState::Neither,
            }),
    {
        Default::default()
    }

    /// True if either scrollbar is currently held down/being dragged.
    pub fn are_bars_held(&self) -> (r: bool)
        ensures
            r == (self.held is Vertical || self.held is Horizontal),
    {
        !matches!(self.held, BarHeldState::Neither)
    }

    /// Makes the scrollbars visible and asks for the fade timer: the
    /// caller must request a timer with the returned delay and hand its
    /// identity to [`ScrollComponent::set_fade_timer`].
    pub fn reset_scrollbar_fade(&mut self, style: &ScrollBarStyle) -> (delay_millis: u64)
        ensures
            *final(self) == (ScrollComponent { opacity: style.max_opacity, ..*old(self) }),
            delay_millis == style.fade_delay_millis,
    {
        self.opacity = style.max_opacity;
        style.fade_delay_millis
    }

    /// Records the identity of the fade timer the host started.
    pub fn set_fade_timer(&mut self, token: u64)
        ensures
            *final(self) == (ScrollComponent { timer_id: token, ..*old(self) }),
    {
        self.timer_id = token;
    }

    /// Calculates the paint rect of the vertical scrollbar, or `None` if
    /// the vertical scrollbar is not visible.
    pub fn calc_vertical_bar_bounds(&self, port: &Viewport, style: &ScrollBarStyle) -> (r:
        Option<Rect>)
        requires
            port.wf(),
            style_ok(*style),
        ensures
            r == spec_vertical_bar_bounds(port.rect, port.content_size, style.bar_width as int,
                style.bar_pad as int),
    {
        vertical_bar_bounds(port.rect, port.content_size, style.bar_width, style.bar_pad)
    }

    /// Calculates the paint rect of the horizontal scrollbar, or `None`
    /// if the horizontal scrollbar is not visible.
    pub fn calc_horizontal_bar_bounds(&self, port: &Viewport, style: &ScrollBarStyle) -> (r:
        Option<Rect>)
        requires
            port.wf(),
            style_ok(*style),
        ensures
            r == spec_horizontal_bar_bounds(port.rect, port.content_size,
                style.bar_width as int, style.bar_pad as int),
    {
        horizontal_bar_bounds(port.rect, port.content_size, style.bar_width, style.bar_pad)
    }

    /// Tests if the specified point overlaps the vertical scrollbar.
    ///
    /// Returns false if the vertical scrollbar is not visible.
    pub fn point_hits_vertical_bar(&self, port: &Viewport, pos: Point, style: &ScrollBarStyle)
        -> (r: bool)
        requires
            port.wf(),
            style_ok(*style),
        ensures
            r == spec_hits_vertical(port.rect, port.content_size, pos, style.bar_width as int,
                style.bar_pad as int),
    {
        match vertical_bar_bounds(port.rect, port.content_size, style.bar_width, style.bar_pad) {
            Option::Some(bounds) => {
                let stretched = Rect { x0: bounds.x0, y0: bounds.y0, x1: port.rect.x1, y1:
                    bounds.y1 };
                stretched.contains(pos)
            },
            Option::None => false,
        }
    }

    /// Tests if the specified point overlaps the horizontal scrollbar.
    ///
    /// Returns false if the horizontal scrollbar is not visible.
    pub fn point_hits_horizontal_bar(&self, port: &Viewport, pos: Point, style: &ScrollBarStyle)
        -> (r: bool)
        requires
            port.wf(),
            style_ok(*style),
        ensures
            r == spec_hits_horizontal(port.rect, port.content_size, pos,
                style.bar_width as int, style.bar_pad as int),
    {
        match horizontal_bar_bounds(port.rect, port.content_size, style.bar_width, style.bar_pad
        ) {
            Option::Some(bounds) => {
                let stretched = Rect { x0: bounds.x0, y0: bounds.y0, x1: bounds.x1, y1:
                    port.rect.y1 };
                stretched.contains(pos)
            },
            Option::None => false,
        }
    }
}

/// `p` moved by the scroll offset `off` into content coordinates.
pub open spec fn spec_offset_point(p: Point, off: Point) -> Point {
    Point { x: (p.x + off.x) as i64, y: (p.y + off.y) as i64 }
}

/// `b` moved back by the scroll offset `off` into viewport coordinates.
pub open spec fn spec_rect_shift(b: Rect, off: Point) -> Rect {
    Rect {
        x0: (b.x0 - off.x) as i64,
        y0: (b.y0 - off.y) as i64,
        x1: (b.x1 - off.x) as i64,
        y1: (b.y1 - off.y) as i64,
    }
}

/// Whether `ev` carries a mouse position that, offset into content
/// coordinates, lies over one of the scrollbars.
pub open spec fn spec_mouse_over_bar(port: Viewport, ev: ScrollEvent, style: ScrollBarStyle)
    -> bool {
    match ev {
        ScrollEvent::MouseMove(e) | ScrollEvent::MouseUp(e) | ScrollEvent::MouseDown(e) => {
            let q = spec_offset_point(e, port.rect.spec_origin());
            ||| spec_hits_vertical(port.rect, port.content_size, q, style.bar_width as int,
                style.bar_pad as int)
            ||| spec_hits_horizontal(port.rect, port.content_size, q, style.bar_width as int,
                style.bar_pad as int)
        },
        _ => false,
    }
}

/// The viewport after panning by `(dx, dy)` with clamping.
pub open spec fn spec_panned(port: Viewport, dx: int, dy: int) -> Viewport {
    port.spec_with_origin(
        port.spec_clamp(
            Point { x: (port.rect.x0 + dx) as i64, y: (port.rect.y0 + dy) as i64 },
        ),
    )
}

/// Opacity after fading by `diff` thousandths, held at the machine
/// integer's floor.
pub open spec fn spec_fade(opacity: int, diff: int) -> int {
    if opacity - diff < i64::MIN {
        i64::MIN as int
    } else {
        opacity - diff
    }
}

/// An event is within the coordinate range the machine arithmetic
/// supports: mouse positions are valid positions and wheel deltas valid
/// displacements.
pub open spec fn spec_event_ok(ev: ScrollEvent) -> bool {
    match ev {
        ScrollEvent::MouseMove(e) | ScrollEvent::MouseUp(e) | ScrollEvent::MouseDown(e) =>
            point_ok(e),
        ScrollEvent::Wheel(d) => vec_ok(d),
        _ => true,
    }
}

/// The transition of [`ScrollComponent::event`]: from the bar state, the
/// viewport and one input event to the next bar state, the next viewport
/// and the effects the host must perform, in order.
pub open spec fn spec_scroll_event(
    comp: ScrollComponent,
    port: Viewport,
    ev: ScrollEvent,
    style: ScrollBarStyle,
) -> (ScrollComponent, Viewport, Seq<ScrollAction>) {
    let off = port.rect.spec_origin();
    let bw = style.bar_width as int;
    let bp = style.bar_pad as int;
    let hovered_now = spec_mouse_over_bar(port, ev, style);
    if comp.held is Vertical || comp.held is Horizontal {
        match ev {
            ScrollEvent::MouseMove(e) => match comp.held {
                BarHeldState::Vertical(grab) => {
                    let y0 = match spec_vertical_bar_bounds(port.rect, port.content_size, bw,
                        bp) {
                        Option::Some(b) => b.y0 as int,
                        Option::None => 0,
                    };
                    let dd = spec_drag_delta(port.rect.spec_height(),
                        port.content_size.height as int, e.y + off.y, y0, grab as int);
                    (comp, spec_panned(port, 0, dd), seq![ScrollAction::SetHandled,
                        ScrollAction::RequestPaint])
                },
                BarHeldState::Horizontal(grab) => {
                    let x0 = match spec_horizontal_bar_bounds(port.rect, port.content_size, bw,
                        bp) {
                        Option::Some(b) => b.x0 as int,
                        Option::None => 0,
                    };
                    let dd = spec_drag_delta(port.rect.spec_height(),
                        port.content_size.width as int, e.x + off.x, x0, grab as int);
                    (comp, spec_panned(port, dd, 0), seq![ScrollAction::SetHandled,
                        ScrollAction::RequestPaint])
                },
                BarHeldState::Neither => (comp, port, seq![ScrollAction::RequestPaint]),
            },
            ScrollEvent::MouseUp(_) => if !hovered_now {
                (
                    ScrollComponent {
                        opacity: style.max_opacity,
                        timer_id: comp.timer_id,
                        hovered: BarHoveredState::Neither,
                        held: BarHeldState::Neither,
                    },
                    port,
                    seq![ScrollAction::SetActive(false),
                        ScrollAction::RequestFadeTimer(style.fade_delay_millis),
                        ScrollAction::SetHandled],
                )
            } else {
                (
                    ScrollComponent {
                        opacity: comp.opacity,
                        timer_id: comp.timer_id,
                        hovered: comp.hovered,
                        held: BarHeldState::Neither,
                    },
                    port,
                    seq![ScrollAction::SetActive(false), ScrollAction::SetHandled],
                )
            },
            _ => (comp, port, Seq::empty()),
        }
    } else if hovered_now {
        match ev {
            ScrollEvent::MouseMove(e) => {
                let q = spec_offset_point(e, off);
                let h = if spec_hits_vertical(port.rect, port.content_size, q, bw, bp) {
                    BarHoveredState::Vertical
                } else {
                    BarHoveredState::Horizontal
                };
                (
                    ScrollComponent {
                        opacity: style.max_opacity,
                        timer_id: 0,
                        hovered: h,
                        held: comp.held,
                    },
                    port,
                    seq![ScrollAction::RequestPaint, ScrollAction::SetHandled],
                )
            },
            ScrollEvent::MouseDown(e) => {
                let q = spec_offset_point(e, off);
                if spec_hits_vertical(port.rect, port.content_size, q, bw, bp) {
                    let b = spec_vertical_bar_bounds(port.rect, port.content_size, bw,
                        bp).unwrap();
                    (
                        ScrollComponent {
                            opacity: comp.opacity,
                            timer_id: comp.timer_id,
                            hovered: comp.hovered,
                            held: BarHeldState::Vertical((q.y - b.y0) as i64),
                        },
                        port,
                        seq![ScrollAction::SetActive(true), ScrollAction::SetHandled],
                    )
                } else {
                    let b = spec_horizontal_bar_bounds(port.rect, port.content_size, bw,
                        bp).unwrap();
                    (
                        ScrollComponent {
                            opacity: comp.opacity,
                            timer_id: comp.timer_id,
                            hovered: comp.hovered,
                            held: BarHeldState::Horizontal((q.x - b.x0) as i64),
                        },
                        port,
                        seq![ScrollAction::SetActive(true), ScrollAction::SetHandled],
                    )
                }
            },
            _ => (comp, port, Seq::empty()),
        }
    } else {
        match ev {
            ScrollEvent::MouseMove(_) => if comp.hovered is Vertical
                || comp.hovered is Horizontal {
                (
                    ScrollComponent {
                        opacity: style.max_opacity,
                        timer_id: comp.timer_id,
                        hovered: BarHoveredState::Neither,
                        held: comp.held,
                    },
                    port,
                    seq![ScrollAction::RequestFadeTimer(style.fade_delay_millis)],
                )
            } else {
                (comp, port, Seq::empty())
            },
            ScrollEvent::Timer(id) => if id == comp.timer_id {
                (
                    ScrollComponent {
                        opacity: comp.opacity,
                        timer_id: 0,
                        hovered: comp.hovered,
                        held: comp.held,
                    },
                    port,
                    seq![ScrollAction::RequestAnimFrame, ScrollAction::SetHandled],
                )
            } else {
                (comp, port, Seq::empty())
            },
            ScrollEvent::AnimFrame(ns) => if comp.timer_id == 0 {
                let newop = spec_fade(comp.opacity as int, ns as int / 500000);
                let acts0: Seq<ScrollAction> = if newop > 0 {
                    seq![ScrollAction::RequestAnimFrame]
                } else {
                    Seq::empty()
                };
                let acts1 = acts0 + (match spec_horizontal_bar_bounds(port.rect,
                    port.content_size, bw, bp) {
                    Option::Some(b) => seq![ScrollAction::RequestPaintRect(spec_rect_shift(b,
                        off))],
                    Option::None => Seq::empty(),
                });
                let acts2 = acts1 + (match spec_vertical_bar_bounds(port.rect,
                    port.content_size, bw, bp) {
                    Option::Some(b) => seq![ScrollAction::RequestPaintRect(spec_rect_shift(b,
                        off))],
                    Option::None => Seq::empty(),
                });
                (
                    ScrollComponent {
                        opacity: newop as i64,
                        timer_id: comp.timer_id,
                        hovered: comp.hovered,
                        held: comp.held,
                    },
                    port,
                    acts2,
                )
            } else {
                (comp, port, Seq::empty())
            },
            _ => (comp, port, Seq::empty()),
        }
    }
}

impl ScrollComponent {
    /// Checks if the event applies to the scroll behavior, uses it, and
    /// asks that it be marked handled.
    ///
    /// Call on every event; the returned effects must be performed by the
    /// host, in order, and a [`ScrollAction::RequestFadeTimer`] answered
    /// through [`ScrollComponent::set_fade_timer`].
    #[verifier::rlimit(40)]
    pub fn event(
        &mut self,
        port: &mut Viewport,
        ev: &ScrollEvent,
        style: &ScrollBarStyle,
    ) -> (acts: Vec<ScrollAction>)
        requires
            old(port).wf(),
            style_ok(*style),
            spec_event_ok(*ev),
        ensures
            ({
                let t = spec_scroll_event(*old(self), *old(port), *ev, *style);
                &&& *final(self) == t.0
                &&& *final(port) == t.1
                &&& acts@ == t.2
            }),
            final(port).wf(),
    {
        let ghost t = spec_scroll_event(*self, *port, *ev, *style);
        let off = port.rect.origin();
        let scrollbar_is_hovered = match ev {
            ScrollEvent::MouseMove(e) | ScrollEvent::MouseUp(e) | ScrollEvent::MouseDown(e) => {
                let q = Point { x: e.x + off.x, y: e.y + off.y };
                self.point_hits_vertical_bar(port, q, style) || self.point_hits_horizontal_bar(
                    port, q, style)
            },
            _ => false,
        };
        let mut acts: Vec<ScrollAction> = Vec::new();

        if self.are_bars_held() {
            match ev {
                ScrollEvent::MouseMove(e) => {
                    match self.held {
                        BarHeldState::Vertical(grab) => {
                            let y0: i64 = match vertical_bar_bounds(port.rect,
                                port.content_size, style.bar_width, style.bar_pad) {
                                Option::Some(b) => b.y0,
                                Option::None => 0,
                            };
                            let dd = drag_delta(port.rect.y1 - port.rect.y0,
                                port.content_size.height, e.y + off.y, y0, grab);
                            port.pan_by(Vec2 { x: 0, y: dd });
                            acts.push(ScrollAction::SetHandled);
                        },
                        BarHeldState::Horizontal(grab) => {
                            let x0: i64 = match horizontal_bar_bounds(port.rect,
                                port.content_size, style.bar_width, style.bar_pad) {
                                Option::Some(b) => b.x0,
                                Option::None => 0,
                            };
                            let dd = drag_delta(port.rect.y1 - port.rect.y0,
                                port.content_size.width, e.x + off.x, x0, grab);
                            port.pan_by(Vec2 { x: dd, y: 0 });
                            acts.push(ScrollAction::SetHandled);
                        },
                        BarHeldState::Neither => {},
                    }
                    acts.push(ScrollAction::RequestPaint);
                },
                ScrollEvent::MouseUp(_) => {
                    self.held = BarHeldState::Neither;
                    acts.push(ScrollAction::SetActive(false));
                    if !scrollbar_is_hovered {
                        self.hovered = BarHoveredState::Neither;
                        let delay = self.reset_scrollbar_fade(style);
                        acts.push(ScrollAction::RequestFadeTimer(delay));
                    }
                    acts.push(ScrollAction::SetHandled);
                },
                _ => {},
            }
        } else if scrollbar_is_hovered {
            match ev {
                ScrollEvent::MouseMove(e) => {
                    let q = Point { x: e.x + off.x, y: e.y + off.y };
                    if self.point_hits_vertical_bar(port, q, style) {
                        self.hovered = BarHoveredState::Vertical;
                    } else {
                        self.hovered = BarHoveredState::Horizontal;
                    }
                    self.opacity = style.max_opacity;
                    self.timer_id = 0;
                    acts.push(ScrollAction::RequestPaint);
                    acts.push(ScrollAction::SetHandled);
                },
                ScrollEvent::MouseDown(e) => {
                    let q = Point { x: e.x + off.x, y: e.y + off.y };
                    if self.point_hits_vertical_bar(port, q, style) {
                        acts.push(ScrollAction::SetActive(true));
                        proof {
                            if port.rect.spec_height() < port.content_size.height {
                                lemma_bar_arith_bounds(port.rect.spec_height(),
                                    port.content_size.height as int, port.rect.y0 as int,
                                    style.bar_pad + style.bar_pad + style.bar_width);
                            }
                        }
                        let b = vertical_bar_bounds(port.rect, port.content_size,
                            style.bar_width, style.bar_pad).unwrap();
                        self.held = BarHeldState::Vertical(q.y - b.y0);
                    } else {
                        acts.push(ScrollAction::SetActive(true));
                        proof {
                            if port.rect.spec_width() < port.content_size.width {
                                lemma_bar_arith_bounds(port.rect.spec_width(),
                                    port.content_size.width as int, port.rect.x0 as int,
                                    style.bar_pad + style.bar_pad + style.bar_width);
                            }
                        }
                        let b = horizontal_bar_bounds(port.rect, port.content_size,
                            style.bar_width, style.bar_pad).unwrap();
                        self.held = BarHeldState::Horizontal(q.x - b.x0);
                    }
                    acts.push(ScrollAction::SetHandled);
                },
                _ => {},
            }
        } else {
            match ev {
                ScrollEvent::MouseMove(_) => {
                    if self.hovered.is_hovered() && !scrollbar_is_hovered {
                        self.hovered = BarHoveredState::Neither;
                        let delay = self.reset_scrollbar_fade(style);
                        acts.push(ScrollAction::RequestFadeTimer(delay));
                    }
                },
                ScrollEvent::Timer(id) => {
                    if *id == self.timer_id {
                        acts.push(ScrollAction::RequestAnimFrame);
                        self.timer_id = 0;
                        acts.push(ScrollAction::SetHandled);
                    }
                },
                ScrollEvent::AnimFrame(ns) => {
                    if self.timer_id == 0 {
                        let diff = (*ns / 500_000) as i64;
                        self.opacity = if self.opacity >= i64::MIN + diff {
                            self.opacity - diff
                        } else {
                            i64::MIN
                        };
                        if self.opacity > 0 {
                            acts.push(ScrollAction::RequestAnimFrame);
                        }
                        proof {
                            if port.rect.spec_width() < port.content_size.width {
                                lemma_bar_arith_bounds(port.rect.spec_width(),
                                    port.content_size.width as int, port.rect.x0 as int,
                                    style.bar_pad + style.bar_pad + style.bar_width);
                            }
                            if port.rect.spec_height() < port.content_size.height {
                                lemma_bar_arith_bounds(port.rect.spec_height(),
                                    port.content_size.height as int, port.rect.y0 as int,
                                    style.bar_pad + style.bar_pad + style.bar_width);
                            }
                        }
                        match horizontal_bar_bounds(port.rect, port.content_size,
                            style.bar_width, style.bar_pad) {
                            Option::Some(b) => {
                                acts.push(ScrollAction::RequestPaintRect(Rect {
                                    x0: b.x0 - off.x,
                                    y0: b.y0 - off.y,
                                    x1: b.x1 - off.x,
                                    y1: b.y1 - off.y,
                                }));
                            },
                            Option::None => {},
                        }
                        match vertical_bar_bounds(port.rect, port.content_size,
                            style.bar_width, style.bar_pad) {
                            Option::Some(b) => {
                                acts.push(ScrollAction::RequestPaintRect(Rect {
                                    x0: b.x0 - off.x,
                                    y0: b.y0 - off.y,
                                    x1: b.x1 - off.x,
                                    y1: b.y1 - off.y,
                                }));
                            },
                            Option::None => {},
                        }
                    }
                },
                _ => {},
            }
        }
        proof {
            assert(acts@ =~= t.2);
        }
        acts
    }
}

/// The pan distance a drag of `grab`-grabbed bar asks for when the mouse
/// stands at `mouse` (content coordinates) and the bar starts at
/// `bar_start`: exactly [`spec_drag_delta`].
fn drag_delta(view_len: i64, content_len: i64, mouse: i64, bar_start: i64, grab: i64) -> (r:
    i64)
    requires
        0 <= view_len <= MAX_DIM,
        0 <= content_len <= MAX_DIM,
        -0x1_0000_0000 <= mouse <= 0x1_0000_0000,
    ensures
        r == spec_drag_delta(view_len as int, content_len as int, mouse as int,
            bar_start as int, grab as int),
        -MAX_POS <= r <= MAX_POS,
{
    if view_len <= 0 {
        0
    } else {
        let delta = (mouse as i128) - (bar_start as i128) - (grab as i128);
        proof {
            lemma_mul_abs_bound(delta as int, content_len as int, 0x2_0000_0000_0000_0000_0,
                MAX_DIM as int);
        }
        let q = div_ceil_i128(delta * (content_len as i128), view_len as i128);
        if q > MAX_POS as i128 {
            MAX_POS
        } else if q < -(MAX_POS as i128) {
            -MAX_POS
        } else {
            q as i64
        }
    }
}

/// A lifecycle notice from the host, reduced to what the scrollbars read.
#[derive(Debug, Copy, Clone, PartialEq, Eq, Structural)]
pub enum ScrollLifeCycle {
    /// The widget was given a new size.
    Size(Size),
    /// Any other lifecycle notice.
    Other,
}

impl ScrollComponent {
    /// Applies mousewheel scrolling if the event has not already been
    /// handled: the viewport pans by the wheel delta, and if the offset
    /// moved, a repaint, the handled mark and a fade reset are requested.
    pub fn handle_scroll(
        &mut self,
        port: &mut Viewport,
        already_handled: bool,
        ev: &ScrollEvent,
        style: &ScrollBarStyle,
    ) -> (acts: Vec<ScrollAction>)
        requires
            old(port).wf(),
            style_ok(*style),
            spec_event_ok(*ev),
        ensures
            final(port).wf(),
            ({
                let changed = match *ev {
                    ScrollEvent::Wheel(d) => !already_handled && spec_panned(*old(port),
                        d.x as int, d.y as int).rect != old(port).rect,
                    _ => false,
                };
                match *ev {
                    ScrollEvent::Wheel(d) => if !already_handled {
                        &&& *final(port) == spec_panned(*old(port), d.x as int, d.y as int)
                        &&& if changed {
                            &&& *final(self) == (ScrollComponent {
                                opacity: style.max_opacity,
                                ..*old(self)
                            })
                            &&& acts@ == seq![ScrollAction::RequestPaint,
                                ScrollAction::SetHandled,
                                ScrollAction::RequestFadeTimer(style.fade_delay_millis)]
                        } else {
                            *final(self) == *old(self) && acts@ == Seq::<
                                ScrollAction,
                            >::empty()
                        }
                    } else {
                        *final(self) == *old(self) && *final(port) == *old(port) && acts@
                            == Seq::<ScrollAction>::empty()
                    },
                    _ => *final(self) == *old(self) && *final(port) == *old(port) && acts@
                        == Seq::<ScrollAction>::empty(),
                }
            }),
    {
        let mut acts: Vec<ScrollAction> = Vec::new();
        if !already_handled {
            if let ScrollEvent::Wheel(delta) = ev {
                if port.pan_by(*delta) {
                    acts.push(ScrollAction::RequestPaint);
                    acts.push(ScrollAction::SetHandled);
                    let delay = self.reset_scrollbar_fade(style);
                    acts.push(ScrollAction::RequestFadeTimer(delay));
                }
            }
        }
        acts
    }

    /// Performs any necessary action prompted by a lifecycle notice: a
    /// size change shows the bars and resets their fade.
    pub fn lifecycle(&mut self, ev: &ScrollLifeCycle, style: &ScrollBarStyle) -> (acts: Vec<
        ScrollAction,
    >)
        ensures
            match *ev {
                ScrollLifeCycle::Size(_) => {
                    &&& *final(self) == (ScrollComponent {
                        opacity: style.max_opacity,
                        ..*old(self)
                    })
                    &&& acts@ == seq![ScrollAction::RequestPaint,
                        ScrollAction::RequestFadeTimer(style.fade_delay_millis)]
                },
                ScrollLifeCycle::Other => *final(self) == *old(self) && acts@ == Seq::<
                    ScrollAction,
                >::empty(),
            },
    {
        let mut acts: Vec<ScrollAction> = Vec::new();
        if let ScrollLifeCycle::Size(_) = ev {
            acts.push(ScrollAction::RequestPaint);
            let delay = self.reset_scrollbar_fade(style);
            acts.push(ScrollAction::RequestFadeTimer(delay));
        }
        acts
    }
}

/// Delay before the scrollbars of a [`ScrollComponentNew`] start to fade,
/// in milliseconds.
pub const SCROLLBAR_FADE_DELAY_MILLIS: u64 = 500;

/// Interval between fade steps of a [`ScrollComponentNew`], in
/// milliseconds; each step lowers the opacity by [`FADE_STEP_OPACITY`].
pub const FADE_TICK_MILLIS: u64 = 20;

/// How much opacity one fade step removes, in thousandths.
pub const FADE_STEP_OPACITY: i64 = 20;

/// The viewport after panning a [`ViewportNew`] by `(dx, dy)` with
/// clamping.
pub open spec fn spec_panned_new(port: ViewportNew, dx: int, dy: int) -> ViewportNew {
    port.spec_with_origin(
        port.spec_clamp(
            Point { x: (port.rect.x0 + dx) as i64, y: (port.rect.y0 + dy) as i64 },
        ),
    )
}

/// Whether `ev` carries a mouse position that, offset into content
/// coordinates, lies over one of the scrollbars of a [`ViewportNew`].
pub open spec fn spec_mouse_over_bar_new(
    port: ViewportNew,
    ev: ScrollEvent,
    style: ScrollBarStyle,
) -> bool {
    match ev {
        ScrollEvent::MouseMove(e) | ScrollEvent::MouseUp(e) | ScrollEvent::MouseDown(e) => {
            let q = spec_offset_point(e, port.rect.spec_origin());
            ||| spec_hits_vertical(port.rect, port.content_size, q, style.bar_width as int,
                style.bar_pad as int)
            ||| spec_hits_horizontal(port.rect, port.content_size, q, style.bar_width as int,
                style.bar_pad as int)
        },
        _ => false,
    }
}

/// Scrollbar state for the newer scrolling container: fading opacity, the
/// fade-delay and fade-tick timers, and which bar the mouse hovers or
/// drags.
#[derive(Debug, Copy, Clone, PartialEq, Eq, Structural)]
pub struct ScrollComponentNew {
    /// Current opacity for both scrollbars, in thousandths.
    pub opacity: i64,
    /// Identity of the timer which schedules scrollbar fade out; zero
    /// when no such timer is pending.
    pub timer_id: u64,
    /// Identity of the timer which paces the fade steps; zero when no
    /// such timer is pending.
    pub fade_interval_id: u64,
    /// Which if any scrollbar is currently hovered by the mouse.
    pub hovered: BarHoveredState,
    /// Which if any scrollbar is currently being dragged by the mouse.
    pub held: BarHeldState,
}

impl Default for ScrollComponentNew {
    /// Invisible bars, no pending timers, nothing hovered or dragged.
    fn default() -> (r: ScrollComponentNew)
        ensures
            r == (ScrollComponentNew {
                opacity: 0,
                timer_id: 0,
                fade_interval_id: 0,
                hovered: BarHoveredState::Neither,
                held: BarHeldState::Neither,
            }),
    {
        ScrollComponentNew {
            opacity: 0,
            timer_id: 0,
            fade_interval_id: 0,
            hovered: BarHoveredState::Neither,
            held: BarHeldState::Neither,
        }
    }
}

/// The transition of [`ScrollComponentNew::event`]: from the bar state,
/// the viewport and one input event to the next bar state, the next
/// viewport and the effects the host must perform, in order.
pub open spec fn spec_scroll_event_new(
    comp: ScrollComponentNew,
    port: ViewportNew,
    ev: ScrollEvent,
    style: ScrollBarStyle,
) -> (ScrollComponentNew, ViewportNew, Seq<ScrollAction>) {
    let off = port.rect.spec_origin();
    let bw = style.bar_width as int;
    let bp = style.bar_pad as int;
    let hovered_now = spec_mouse_over_bar_new(port, ev, style);
    if comp.held is Vertical || comp.held is Horizontal {
        match ev {
            ScrollEvent::MouseMove(e) => match comp.held {
                BarHeldState::Vertical(grab) => {
                    let y0 = match spec_vertical_bar_bounds(port.rect, port.content_size, bw,
                        bp) {
                        Option::Some(b) => b.y0 as int,
                        Option::None => 0,
                    };
                    let dd = spec_drag_delta(port.rect.spec_height(),
                        port.content_size.height as int, e.y + off.y, y0, grab as int);
                    (comp, spec_panned_new(port, 0, dd), seq![ScrollAction::SetHandled,
                        ScrollAction::RequestPaint])
                },
                BarHeldState::Horizontal(grab) => {
                    let x0 = match spec_horizontal_bar_bounds(port.rect, port.content_size, bw,
                        bp) {
                        Option::Some(b) => b.x0 as int,
                        Option::None => 0,
                    };
                    let dd = spec_drag_delta(port.rect.spec_height(),
                        port.content_size.width as int, e.x + off.x, x0, grab as int);
                    (comp, spec_panned_new(port, dd, 0), seq![ScrollAction::SetHandled,
                        ScrollAction::RequestPaint])
                },
                BarHeldState::Neither => (comp, port, seq![ScrollAction::RequestPaint]),
            },
            ScrollEvent::MouseUp(_) => if !hovered_now {
                (
                    ScrollComponentNew {
                        opacity: style.max_opacity,
                        hovered: BarHoveredState::Neither,
                        held: BarHeldState::Neither,
                        ..comp
                    },
                    port,
                    seq![ScrollAction::SetActive(false),
                        ScrollAction::RequestFadeTimer(SCROLLBAR_FADE_DELAY_MILLIS),
                        ScrollAction::SetHandled],
                )
            } else {
                (
                    ScrollComponentNew { held: BarHeldState::Neither, ..comp },
                    port,
                    seq![ScrollAction::SetActive(false), ScrollAction::SetHandled],
                )
            },
            _ => (comp, port, Seq::empty()),
        }
    } else if hovered_now {
        match ev {
            ScrollEvent::MouseMove(e) => {
                let q = spec_offset_point(e, off);
                let h = if spec_hits_vertical(port.rect, port.content_size, q, bw, bp) {
                    BarHoveredState::Vertical
                } else {
                    BarHoveredState::Horizontal
                };
                (
                    ScrollComponentNew { opacity: style.max_opacity, timer_id: 0, hovered: h,
                        ..comp },
                    port,
                    seq![ScrollAction::RequestPaint, ScrollAction::SetHandled],
                )
            },
            ScrollEvent::MouseDown(e) => {
                let q = spec_offset_point(e, off);
                if spec_hits_vertical(port.rect, port.content_size, q, bw, bp) {
                    let b = spec_vertical_bar_bounds(port.rect, port.content_size, bw,
                        bp).unwrap();
                    (
                        ScrollComponentNew {
                            held: BarHeldState::Vertical((q.y - b.y0) as i64),
                            ..comp
                        },
                        port,
                        seq![ScrollAction::SetActive(true), ScrollAction::SetHandled],
                    )
                } else {
                    let b = spec_horizontal_bar_bounds(port.rect, port.content_size, bw,
                        bp).unwrap();
                    (
                        ScrollComponentNew {
                            held: BarHeldState::Horizontal((q.x - b.x0) as i64),
                            ..comp
                        },
                        port,
                        seq![ScrollAction::SetActive(true), ScrollAction::SetHandled],
                    )
                }
            },
            _ => (comp, port, Seq::empty()),
        }
    } else {
        match ev {
            ScrollEvent::MouseMove(_) => if comp.hovered is Vertical
                || comp.hovered is Horizontal {
                (
                    ScrollComponentNew {
                        opacity: style.max_opacity,
                        hovered: BarHoveredState::Neither,
                        ..comp
                    },
                    port,
                    seq![ScrollAction::RequestFadeTimer(SCROLLBAR_FADE_DELAY_MILLIS)],
                )
            } else {
                (comp, port, Seq::empty())
            },
            ScrollEvent::Timer(id) => if id == comp.timer_id {
                (
                    ScrollComponentNew { timer_id: 0, ..comp },
                    port,
                    seq![ScrollAction::RequestFadeTickTimer(FADE_TICK_MILLIS),
                        ScrollAction::SetHandled],
                )
            } else if id == comp.fade_interval_id {
                if comp.timer_id == 0 {
                    let newop = spec_fade(comp.opacity as int, FADE_STEP_OPACITY as int);
                    if newop > 0 {
                        let acts0 = seq![ScrollAction::RequestFadeTickTimer(FADE_TICK_MILLIS)];
                        let acts1 = acts0 + (match spec_horizontal_bar_bounds(port.rect,
                            port.content_size, bw, bp) {
                            Option::Some(b) => seq![ScrollAction::RequestPaintRect(
                                spec_rect_shift(b, off))],
                            Option::None => Seq::empty(),
                        });
                        let acts2 = acts1 + (match spec_vertical_bar_bounds(port.rect,
                            port.content_size, bw, bp) {
                            Option::Some(b) => seq![ScrollAction::RequestPaintRect(
                                spec_rect_shift(b, off))],
                            Option::None => Seq::empty(),
                        });
                        (ScrollComponentNew { opacity: newop as i64, ..comp }, port, acts2)
                    } else {
                        (ScrollComponentNew { opacity: newop as i64, ..comp }, port,
                            Seq::empty())
                    }
                } else {
                    (comp, port, Seq::empty())
                }
            } else {
                (comp, port, Seq::empty())
            },
            _ => (comp, port, Seq::empty()),
        }
    }
}

impl ScrollComponentNew {
    /// Constructs a new [`ScrollComponentNew`] for use.
    pub fn new() -> (r: ScrollComponentNew)
        ensures
            r == (ScrollComponentNew {
                opacity: 0,
                timer_id: 0,
                fade_interval_id: 0,
                hovered: BarHoveredState::Neither,
                held: BarHeldState::Neither,
            }),
    {
        Default::default()
    }

    /// True if either scrollbar is currently held down/being dragged.
    pub fn are_bars_held(&self) -> (r: bool)
        ensures
            r == (self.held is Vertical || self.held is Horizontal),
    {
        !matches!(self.held, BarHeldState::Neither)
    }

    /// Makes the scrollbars visible and asks for the fade timer: the
    /// caller must request a timer with the returned delay and hand its
    /// identity to [`ScrollComponentNew::set_fade_timer`].
    pub fn reset_scrollbar_fade(&mut self, style: &ScrollBarStyle) -> (delay_millis: u64)
        ensures
            *final(self) == (ScrollComponentNew { opacity: style.max_opacity, ..*old(self) }),
            delay_millis == SCROLLBAR_FADE_DELAY_MILLIS,
    {
        self.opacity = style.max_opacity;
        SCROLLBAR_FADE_DELAY_MILLIS
    }

    /// Records the identity of the fade-delay timer the host started.
    pub fn set_fade_timer(&mut self, token: u64)
        ensures
            *final(self) == (ScrollComponentNew { timer_id: token, ..*old(self) }),
    {
        self.timer_id = token;
    }

    /// Records the identity of the fade-tick timer the host started.
    pub fn set_fade_interval(&mut self, token: u64)
        ensures
            *final(self) == (ScrollComponentNew { fade_interval_id: token, ..*old(self) }),
    {
        self.fade_interval_id = token;
    }

    /// Calculates the paint rect of the vertical scrollbar, or `None` if
    /// the vertical scrollbar is not visible.
    pub fn calc_vertical_bar_bounds(&self, port: &ViewportNew, style: &ScrollBarStyle) -> (r:
        Option<Rect>)
        requires
            port.wf(),
            style_ok(*style),
        ensures
            r == spec_vertical_bar_bounds(port.rect, port.content_size, style.bar_width as int,
                style.bar_pad as int),
    {
        vertical_bar_bounds(port.rect, port.content_size, style.bar_width, style.bar_pad)
    }

    /// Calculates the paint rect of the horizontal scrollbar, or `None`
    /// if the horizontal scrollbar is not visible.
    pub fn calc_horizontal_bar_bounds(&self, port: &ViewportNew, style: &ScrollBarStyle) -> (r:
        Option<Rect>)
        requires
            port.wf(),
            style_ok(*style),
        ensures
            r == spec_horizontal_bar_bounds(port.rect, port.content_size,
                style.bar_width as int, style.bar_pad as int),
    {
        horizontal_bar_bounds(port.rect, port.content_size, style.bar_width, style.bar_pad)
    }

    /// Tests if the specified point overlaps the vertical scrollbar.
    ///
    /// Returns false if the vertical scrollbar is not visible.
    pub fn point_hits_vertical_bar(&self, port: &ViewportNew, pos: Point,
        style: &ScrollBarStyle) -> (r: bool)
        requires
            port.wf(),
            style_ok(*style),
        ensures
            r == spec_hits_vertical(port.rect, port.content_size, pos, style.bar_width as int,
                style.bar_pad as int),
    {
        match vertical_bar_bounds(port.rect, port.content_size, style.bar_width, style.bar_pad) {
            Option::Some(bounds) => {
                let stretched = Rect { x0: bounds.x0, y0: bounds.y0, x1: port.rect.x1, y1:
                    bounds.y1 };
                stretched.contains(pos)
            },
            Option::None => false,
        }
    }

    /// Tests if the specified point overlaps the horizontal scrollbar.
    ///
    /// Returns false if the horizontal scrollbar is not visible.
    pub fn point_hits_horizontal_bar(&self, port: &ViewportNew, pos: Point,
        style: &ScrollBarStyle) -> (r: bool)
        requires
            port.wf(),
            style_ok(*style),
        ensures
            r == spec_hits_horizontal(port.rect, port.content_size, pos,
                style.bar_width as int, style.bar_pad as int),
    {
        match horizontal_bar_bounds(port.rect, port.content_size, style.bar_width, style.bar_pad
        ) {
            Option::Some(bounds) => {
                let stretched = Rect { x0: bounds.x0, y0: bounds.y0, x1: bounds.x1, y1:
                    port.rect.y1 };
                stretched.contains(pos)
            },
            Option::None => false,
        }
    }

    /// Checks if the event applies to the scroll behavior, uses it, and
    /// asks that it be marked handled.
    ///
    /// Call on every event; the returned effects must be performed by the
    /// host, in order, a [`ScrollAction::RequestFadeTimer`] answered
    /// through [`ScrollComponentNew::set_fade_timer`] and a
    /// [`ScrollAction::RequestFadeTickTimer`] through
    /// [`ScrollComponentNew::set_fade_interval`].
    #[verifier::rlimit(40)]
    pub fn event(
        &mut self,
        port: &mut ViewportNew,
        ev: &ScrollEvent,
        style: &ScrollBarStyle,
    ) -> (acts: Vec<ScrollAction>)
        requires
            old(port).wf(),
            style_ok(*style),
            spec_event_ok(*ev),
        ensures
            ({
                let t = spec_scroll_event_new(*old(self), *old(port), *ev, *style);
                &&& *final(self) == t.0
                &&& *final(port) == t.1
                &&& acts@ == t.2
            }),
            final(port).wf(),
    {
        let ghost t = spec_scroll_event_new(*self, *port, *ev, *style);
        let off = port.rect.origin();
        let scrollbar_is_hovered = match ev {
            ScrollEvent::MouseMove(e) | ScrollEvent::MouseUp(e) | ScrollEvent::MouseDown(e) => {
                let q = Point { x: e.x + off.x, y: e.y + off.y };
                self.point_hits_vertical_bar(port, q, style) || self.point_hits_horizontal_bar(
                    port, q, style)
            },
            _ => false,
        };
        let mut acts: Vec<ScrollAction> = Vec::new();

        if self.are_bars_held() {
            match ev {
                ScrollEvent::MouseMove(e) => {
                    match self.held {
                        BarHeldState::Vertical(grab) => {
                            let y0: i64 = match vertical_bar_bounds(port.rect,
                                port.content_size, style.bar_width, style.bar_pad) {
                                Option::Some(b) => b.y0,
                                Option::None => 0,
                            };
                            let dd = drag_delta(port.rect.y1 - port.rect.y0,
                                port.content_size.height, e.y + off.y, y0, grab);
                            port.pan_by(Vec2 { x: 0, y: dd });
                            acts.push(ScrollAction::SetHandled);
                        },
                        BarHeldState::Horizontal(grab) => {
                            let x0: i64 = match horizontal_bar_bounds(port.rect,
                                port.content_size, style.bar_width, style.bar_pad) {
                                Option::Some(b) => b.x0,
                                Option::None => 0,
                            };
                            let dd = drag_delta(port.rect.y1 - port.rect.y0,
                                port.content_size.width, e.x + off.x, x0, grab);
                            port.pan_by(Vec2 { x: dd, y: 0 });
                            acts.push(ScrollAction::SetHandled);
                        },
                        BarHeldState::Neither => {},
                    }
                    acts.push(ScrollAction::RequestPaint);
                },
                ScrollEvent::MouseUp(_) => {
                    self.held = BarHeldState::Neither;
                    acts.push(ScrollAction::SetActive(false));
                    if !scrollbar_is_hovered {
                        self.hovered = BarHoveredState::Neither;
                        let delay = self.reset_scrollbar_fade(style);
                        acts.push(ScrollAction::RequestFadeTimer(delay));
                    }
                    acts.push(ScrollAction::SetHandled);
                },
                _ => {},
            }
        } else if scrollbar_is_hovered {
            match ev {
                ScrollEvent::MouseMove(e) => {
                    let q = Point { x: e.x + off.x, y: e.y + off.y };
                    if self.point_hits_vertical_bar(port, q, style) {
                        self.hovered = BarHoveredState::Vertical;
                    } else {
                        self.hovered = BarHoveredState::Horizontal;
                    }
                    self.opacity = style.max_opacity;
                    self.timer_id = 0;
                    acts.push(ScrollAction::RequestPaint);
                    acts.push(ScrollAction::SetHandled);
                },
                ScrollEvent::MouseDown(e) => {
                    let q = Point { x: e.x + off.x, y: e.y + off.y };
                    if self.point_hits_vertical_bar(port, q, style) {
                        acts.push(ScrollAction::SetActive(true));
                        proof {
                            if port.rect.spec_height() < port.content_size.height {
                                lemma_bar_arith_bounds(port.rect.spec_height(),
                                    port.content_size.height as int, port.rect.y0 as int,
                                    style.bar_pad + style.bar_pad + style.bar_width);
                            }
                        }
                        let b = vertical_bar_bounds(port.rect, port.content_size,
                            style.bar_width, style.bar_pad).unwrap();
                        self.held = BarHeldState::Vertical(q.y - b.y0);
                    } else {
                        acts.push(ScrollAction::SetActive(true));
                        proof {
                            if port.rect.spec_width() < port.content_size.width {
                                lemma_bar_arith_bounds(port.rect.spec_width(),
                                    port.content_size.width as int, port.rect.x0 as int,
                                    style.bar_pad + style.bar_pad + style.bar_width);
                            }
                        }
                        let b = horizontal_bar_bounds(port.rect, port.content_size,
                            style.bar_width, style.bar_pad).unwrap();
                        self.held = BarHeldState::Horizontal(q.x - b.x0);
                    }
                    acts.push(ScrollAction::SetHandled);
                },
                _ => {},
            }
        } else {
            match ev {
                ScrollEvent::MouseMove(_) => {
                    if self.hovered.is_hovered() && !scrollbar_is_hovered {
                        self.hovered = BarHoveredState::Neither;
                        let delay = self.reset_scrollbar_fade(style);
                        acts.push(ScrollAction::RequestFadeTimer(delay));
                    }
                },
                ScrollEvent::Timer(id) => {
                    if *id == self.timer_id {
                        self.timer_id = 0;
                        acts.push(ScrollAction::RequestFadeTickTimer(FADE_TICK_MILLIS));
                        acts.push(ScrollAction::SetHandled);
                    } else if *id == self.fade_interval_id {
                        if self.timer_id == 0 {
                            self.opacity = if self.opacity >= i64::MIN + FADE_STEP_OPACITY {
                                self.opacity - FADE_STEP_OPACITY
                            } else {
                                i64::MIN
                            };
                            if self.opacity > 0 {
                                acts.push(ScrollAction::RequestFadeTickTimer(FADE_TICK_MILLIS
                                ));
                                proof {
                                    if port.rect.spec_width() < port.content_size.width {
                                        lemma_bar_arith_bounds(port.rect.spec_width(),
                                            port.content_size.width as int,
                                            port.rect.x0 as int,
                                            style.bar_pad + style.bar_pad + style.bar_width);
                                    }
                                    if port.rect.spec_height() < port.content_size.height {
                                        lemma_bar_arith_bounds(port.rect.spec_height(),
                                            port.content_size.height as int,
                                            port.rect.y0 as int,
                                            style.bar_pad + style.bar_pad + style.bar_width);
                                    }
                                }
                                match horizontal_bar_bounds(port.rect, port.content_size,
                                    style.bar_width, style.bar_pad) {
                                    Option::Some(b) => {
                                        acts.push(ScrollAction::RequestPaintRect(Rect {
                                            x0: b.x0 - off.x,
                                            y0: b.y0 - off.y,
                                            x1: b.x1 - off.x,
                                            y1: b.y1 - off.y,
                                        }));
                                    },
                                    Option::None => {},
                                }
                                match vertical_bar_bounds(port.rect, port.content_size,
                                    style.bar_width, style.bar_pad) {
                                    Option::Some(b) => {
                                        acts.push(ScrollAction::RequestPaintRect(Rect {
                                            x0: b.x0 - off.x,
                                            y0: b.y0 - off.y,
                                            x1: b.x1 - off.x,
                                            y1: b.y1 - off.y,
                                        }));
                                    },
                                    Option::None => {},
                                }
                            }
                        }
                    }
                },
                _ => {},
            }
        }
        proof {
            assert(acts@ =~= t.2);
        }
        acts
    }

    /// Applies mousewheel scrolling if the event has not already been
    /// handled: the viewport pans by the wheel delta, and a repaint, a
    /// fade reset and the handled mark are requested whether or not the
    /// offset moved.
    pub fn handle_scroll(
        &mut self,
        port: &mut ViewportNew,
        already_handled: bool,
        ev: &ScrollEvent,
        style: &ScrollBarStyle,
    ) -> (acts: Vec<ScrollAction>)
        requires
            old(port).wf(),
            style_ok(*style),
            spec_event_ok(*ev),
        ensures
            final(port).wf(),
            match *ev {
                ScrollEvent::Wheel(d) => if !already_handled {
                    &&& *final(port) == spec_panned_new(*old(port), d.x as int, d.y as int)
                    &&& *final(self) == (ScrollComponentNew {
                        opacity: style.max_opacity,
                        ..*old(self)
                    })
                    &&& acts@ == seq![ScrollAction::RequestPaint,
                        ScrollAction::RequestFadeTimer(SCROLLBAR_FADE_DELAY_MILLIS),
                        ScrollAction::SetHandled]
                } else {
                    *final(self) == *old(self) && *final(port) == *old(port) && acts@ == Seq::<
                        ScrollAction,
                    >::empty()
                },
                _ => *final(self) == *old(self) && *final(port) == *old(port) && acts@ == Seq::<
                    ScrollAction,
                >::empty(),
            },
    {
        let mut acts: Vec<ScrollAction> = Vec::new();
        if !already_handled {
            if let ScrollEvent::Wheel(delta) = ev {
                let _ = port.pan_by(*delta);
                acts.push(ScrollAction::RequestPaint);
                let delay = self.reset_scrollbar_fade(style);
                acts.push(ScrollAction::RequestFadeTimer(delay));
                acts.push(ScrollAction::SetHandled);
            }
        }
        acts
    }

    /// Performs any necessary action prompted by a lifecycle notice: a
    /// size change shows the bars and resets their fade.
    pub fn lifecycle(&mut self, ev: &ScrollLifeCycle, style: &ScrollBarStyle) -> (acts: Vec<
        ScrollAction,
    >)
        ensures
            match *ev {
                ScrollLifeCycle::Size(_) => {
                    &&& *final(self) == (ScrollComponentNew {
                        opacity: style.max_opacity,
                        ..*old(self)
                    })
                    &&& acts@ == seq![ScrollAction::RequestPaint,
                        ScrollAction::RequestFadeTimer(SCROLLBAR_FADE_DELAY_MILLIS)]
                },
                ScrollLifeCycle::Other => *final(self) == *old(self) && acts@ == Seq::<
                    ScrollAction,
                >::empty(),
            },
    {
        let mut acts: Vec<ScrollAction> = Vec::new();
        if let ScrollLifeCycle::Size(_) = ev {
            acts.push(ScrollAction::RequestPaint);
            let delay = self.reset_scrollbar_fade(style);
            acts.push(ScrollAction::RequestFadeTimer(delay));
        }
        acts
    }
}

/// Layout constraints handed down by the host: a minimum and a maximum
/// size. An axis whose maximum the host leaves unbounded is modelled by
/// [`MAX_DIM`], the largest supported extent.
#[derive(Debug, Copy, Clone, PartialEq, Eq, Structural)]
pub struct BoxConstraints {
    /// The smallest size the widget may take.
    pub min: Size,
    /// The largest size the widget may take.
    pub max: Size,
}

/// Constraints whose sizes are ordered and within range.
pub open spec fn bc_ok(bc: BoxConstraints) -> bool {
    &&& size_ok(bc.min)
    &&& size_ok(bc.max)
    &&& bc.min.width <= bc.max.width
    &&& bc.min.height <= bc.max.height
}

/// `v` clamped to `[lo, hi]` (`lo` wins when the bounds cross).
pub open spec fn spec_clamp_range(v: int, lo: int, hi: int) -> int {
    if v > hi {
        if hi < lo {
            lo
        } else {
            hi
        }
    } else if v < lo {
        lo
    } else {
        v
    }
}

impl BoxConstraints {
    /// Constraints allowing exactly the sizes between `min` and `max`.
    pub fn new(min: Size, max: Size) -> (r: BoxConstraints)
        ensures
            r == (BoxConstraints { min, max }),
    {
        BoxConstraints { min, max }
    }

    /// The size within these constraints nearest `size`.
    pub open spec fn spec_constrain(self, size: Size) -> Size {
        Size {
            width: spec_clamp_range(size.width as int, self.min.width as int,
                self.max.width as int) as i64,
            height: spec_clamp_range(size.height as int, self.min.height as int,
                self.max.height as int) as i64,
        }
    }

    /// Clamps `size` between the minimum and the maximum size.
    pub fn constrain(&self, size: Size) -> (r: Size)
        requires
            bc_ok(*self),
        ensures
            r == self.spec_constrain(size),
            size_ok(size) ==> size_ok(r),
    {
        let w = if size.width > self.max.width {
            self.max.width
        } else {
            size.width
        };
        let w = if w < self.min.width {
            self.min.width
        } else {
            w
        };
        let h = if size.height > self.max.height {
            self.max.height
        } else {
            size.height
        };
        let h = if h < self.min.height {
            self.min.height
        } else {
            h
        };
        Size { width: w, height: h }
    }

    /// Shrinks both bounds by `diff` per axis, flooring at zero.
    pub fn shrink(&self, diff: Size) -> (r: BoxConstraints)
        requires
            bc_ok(*self),
            -MAX_DIM <= diff.width <= MAX_DIM,
            -MAX_DIM <= diff.height <= MAX_DIM,
        ensures
            r.min.width == if self.min.width - diff.width >= 0 {
                self.min.width - diff.width
            } else {
                0
            },
            r.min.height == if self.min.height - diff.height >= 0 {
                self.min.height - diff.height
            } else {
                0
            },
            r.max.width == if self.max.width - diff.width >= 0 {
                self.max.width - diff.width
            } else {
                0
            },
            r.max.height == if self.max.height - diff.height >= 0 {
                self.max.height - diff.height
            } else {
                0
            },
            diff.width >= 0 && diff.height >= 0 ==> bc_ok(r),
    {
        let min_w = if self.min.width - diff.width >= 0 {
            self.min.width - diff.width
        } else {
            0
        };
        let min_h = if self.min.height - diff.height >= 0 {
            self.min.height - diff.height
        } else {
            0
        };
        let max_w = if self.max.width - diff.width >= 0 {
            self.max.width - diff.width
        } else {
            0
        };
        let max_h = if self.max.height - diff.height >= 0 {
            self.max.height - diff.height
        } else {
            0
        };
        BoxConstraints {
            min: Size { width: min_w, height: min_h },
            max: Size { width: max_w, height: max_h },
        }
    }
}

/// The scrolling state of a widget exposing a rectangular view into its
/// child: the viewport and the two constrain flags. The child widget
/// itself, and the host's layout and paint plumbing, live with the host.
#[derive(Debug, Copy, Clone, PartialEq, Eq, Structural)]
pub struct ClipBox {
    port: Viewport,
    constrain_horizontal: bool,
    constrain_vertical: bool,
}

impl ClipBox {
    /// The viewport is within the supported coordinate range.
    pub closed spec fn wf(self) -> bool {
        self.port.wf()
    }

    /// The viewport of this clip box.
    pub closed spec fn spec_port(self) -> Viewport {
        self.port
    }

    /// Whether the child is constrained horizontally.
    pub closed spec fn spec_constrain_horizontal(self) -> bool {
        self.constrain_horizontal
    }

    /// Whether the child is constrained vertically.
    pub closed spec fn spec_constrain_vertical(self) -> bool {
        self.constrain_vertical
    }

    /// Creates a new `ClipBox`: an empty, unconstrained viewport.
    pub fn new() -> (r: ClipBox)
        ensures
            r.spec_port() == (Viewport {
                content_size: Size { width: 0, height: 0 },
                rect: Rect { x0: 0, y0: 0, x1: 0, y1: 0 },
            }),
            !r.spec_constrain_horizontal(),
            !r.spec_constrain_vertical(),
            r.wf(),
    {
        ClipBox { port: Viewport::new(), constrain_horizontal: false, constrain_vertical: false }
    }

    /// Returns the viewport describing this `ClipBox`'s position.
    pub fn viewport(&self) -> (r: Viewport)
        ensures
            r == self.spec_port(),
    {
        self.port
    }

    /// Grants mutable access to the viewport; the host must hand the new
    /// viewport origin to the child afterwards.
    pub fn port_mut(&mut self) -> (r: &mut Viewport)
        ensures
            *r == old(self).spec_port(),
            final(self).spec_port() == *final(r),
            final(self).spec_constrain_horizontal() == old(self).spec_constrain_horizontal(),
            final(self).spec_constrain_vertical() == old(self).spec_constrain_vertical(),
    {
        &mut self.port
    }

    /// Returns the size of the rectangular viewport into the child widget.
    pub fn viewport_size(&self) -> (r: Size)
        requires
            self.wf(),
        ensures
            r.width == self.spec_port().rect.spec_width(),
            r.height == self.spec_port().rect.spec_height(),
    {
        self.port.rect.size()
    }

    /// Returns the size of the child widget.
    pub fn content_size(&self) -> (r: Size)
        ensures
            r == self.spec_port().content_size,
    {
        self.port.content_size
    }

    /// Builder-style method for deciding whether to constrain the child
    /// horizontally. The default is `false`.
    pub fn constrain_horizontal(self, constrain: bool) -> (r: ClipBox)
        ensures
            r.spec_constrain_horizontal() == constrain,
            r.spec_constrain_vertical() == self.spec_constrain_vertical(),
            r.spec_port() == self.spec_port(),
    {
        ClipBox { constrain_horizontal: constrain, ..self }
    }

    /// Determine whether to constrain the child horizontally.
    pub fn set_constrain_horizontal(&mut self, constrain: bool)
        ensures
            final(self).spec_constrain_horizontal() == constrain,
            final(self).spec_constrain_vertical() == old(self).spec_constrain_vertical(),
            final(self).spec_port() == old(self).spec_port(),
    {
        self.constrain_horizontal = constrain;
    }

    /// Builder-style method for deciding whether to constrain the child
    /// vertically. The default is `false`.
    pub fn constrain_vertical(self, constrain: bool) -> (r: ClipBox)
        ensures
            r.spec_constrain_vertical() == constrain,
            r.spec_constrain_horizontal() == self.spec_constrain_horizontal(),
            r.spec_port() == self.spec_port(),
    {
        ClipBox { constrain_vertical: constrain, ..self }
    }

    /// Determine whether to constrain the child vertically.
    pub fn set_constrain_vertical(&mut self, constrain: bool)
        ensures
            final(self).spec_constrain_vertical() == constrain,
            final(self).spec_constrain_horizontal() == old(self).spec_constrain_horizontal(),
            final(self).spec_port() == old(self).spec_port(),
    {
        self.constrain_vertical = constrain;
    }

    /// The upper bounds to lay the child out under: the incoming maximum
    /// on a constrained axis, no bound (`None`) on a free one.
    pub fn max_child_sizes(&self, bc_max: Size) -> (r: (Option<i64>, Option<i64>))
        ensures
            r.0 == if self.spec_constrain_horizontal() {
                Option::Some(bc_max.width)
            } else {
                Option::<i64>::None
            },
            r.1 == if self.spec_constrain_vertical() {
                Option::Some(bc_max.height)
            } else {
                Option::<i64>::None
            },
    {
        let w = if self.constrain_horizontal {
            Option::Some(bc_max.width)
        } else {
            Option::None
        };
        let h = if self.constrain_vertical {
            Option::Some(bc_max.height)
        } else {
            Option::None
        };
        (w, h)
    }

    /// Changes the viewport offset by `delta`, clamped to the content.
    ///
    /// Returns true if the offset actually changed; the host must then
    /// hand the new viewport origin to the child.
    pub fn pan_by(&mut self, delta: Vec2) -> (changed: bool)
        requires
            old(self).wf(),
            vec_ok(delta),
        ensures
            ({
                let target = Point {
                    x: (old(self).spec_port().rect.x0 + delta.x) as i64,
                    y: (old(self).spec_port().rect.y0 + delta.y) as i64,
                };
                &&& final(self).spec_port() == old(self).spec_port().spec_with_origin(
                    old(self).spec_port().spec_clamp(target))
                &&& changed == (old(self).spec_port().spec_clamp(target) != old(
                    self).spec_port().rect.spec_origin())
            }),
            final(self).spec_constrain_horizontal() == old(self).spec_constrain_horizontal(),
            final(self).spec_constrain_vertical() == old(self).spec_constrain_vertical(),
            final(self).wf(),
    {
        self.port.pan_by(delta)
    }

    /// Sets the viewport origin to `origin`, clamped to the content.
    ///
    /// Returns true if the position changed; the host must then hand the
    /// new viewport origin to the child.
    pub fn pan_to(&mut self, origin: Point) -> (changed: bool)
        requires
            old(self).wf(),
        ensures
            final(self).spec_port() == old(self).spec_port().spec_with_origin(
                old(self).spec_port().spec_clamp(origin)),
            changed == (old(self).spec_port().spec_clamp(origin) != old(
                self).spec_port().rect.spec_origin()),
            final(self).spec_constrain_horizontal() == old(self).spec_constrain_horizontal(),
            final(self).spec_constrain_vertical() == old(self).spec_constrain_vertical(),
            final(self).wf(),
    {
        self.port.pan_to(origin)
    }

    /// Moves the viewport origin to exactly `origin`, without clamping.
    ///
    /// Returns true if the position changed.
    pub fn force_pan_to(&mut self, origin: Point) -> (changed: bool)
        requires
            old(self).wf(),
            point_ok(origin),
        ensures
            final(self).spec_port() == old(self).spec_port().spec_with_origin(origin),
            changed == (origin != old(self).spec_port().rect.spec_origin()),
            final(self).spec_constrain_horizontal() == old(self).spec_constrain_horizontal(),
            final(self).spec_constrain_vertical() == old(self).spec_constrain_vertical(),
            final(self).wf(),
    {
        self.port.force_pan_to(origin)
    }

    /// Returns the origin of the viewport rectangle.
    pub fn viewport_origin(&self) -> (r: Point)
        ensures
            r == self.spec_port().rect.spec_origin(),
    {
        self.port.rect.origin()
    }

    /// Records the child's measured size and fits the viewport to the
    /// incoming constraints: the view rectangle takes the constrained
    /// size, the origin is clamped against the new content, and the
    /// viewport size is returned as the widget's own size.
    pub fn layout(&mut self, bc: &BoxConstraints, content_size: Size) -> (self_size: Size)
        requires
            old(self).wf(),
            bc_ok(*bc),
            size_ok(content_size),
        ensures
            ({
                let sized = Viewport {
                    content_size,
                    rect: Rect {
                        x0: old(self).spec_port().rect.x0,
                        y0: old(self).spec_port().rect.y0,
                        x1: (old(self).spec_port().rect.x0 + bc.spec_constrain(
                            content_size).width) as i64,
                        y1: (old(self).spec_port().rect.y0 + bc.spec_constrain(
                            content_size).height) as i64,
                    },
                };
                let origin = sized.spec_clamp(sized.rect.spec_origin());
                &&& final(self).spec_port() == sized.spec_with_origin(origin)
                &&& self_size.width == final(self).spec_port().rect.spec_width()
                &&& self_size.height == final(self).spec_port().rect.spec_height()
            }),
            final(self).spec_constrain_horizontal() == old(self).spec_constrain_horizontal(),
            final(self).spec_constrain_vertical() == old(self).spec_constrain_vertical(),
            final(self).wf(),
    {
        self.port.content_size = content_size;
        self.port.rect = self.port.rect.with_size(bc.constrain(content_size));
        let new_offset = self.port.clamp_view_origin(self.port.rect.origin());
        self.port.pan_to(new_offset);
        self.port.rect.size()
    }
}

/// The scrolling state of the newer clipping container, with panning
/// that can chase a target region.
#[derive(Debug, Copy, Clone, PartialEq, Eq, Structural)]
pub struct ClipBoxNew {
    port: ViewportNew,
    constrain_horizontal: bool,
    constrain_vertical: bool,
}

impl ClipBoxNew {
    /// The viewport is within the supported coordinate range.
    pub closed spec fn wf(self) -> bool {
        self.port.wf()
    }

    /// The viewport of this clip box.
    pub closed spec fn spec_port(self) -> ViewportNew {
        self.port
    }

    /// Whether the child is constrained horizontally.
    pub closed spec fn spec_constrain_horizontal(self) -> bool {
        self.constrain_horizontal
    }

    /// Whether the child is constrained vertically.
    pub closed spec fn spec_constrain_vertical(self) -> bool {
        self.constrain_vertical
    }

    /// Creates a new `ClipBoxNew`: an empty, unconstrained viewport.
    pub fn new() -> (r: ClipBoxNew)
        ensures
            r.spec_port() == (ViewportNew {
                content_size: Size { width: 0, height: 0 },
                rect: Rect { x0: 0, y0: 0, x1: 0, y1: 0 },
            }),
            !r.spec_constrain_horizontal(),
            !r.spec_constrain_vertical(),
            r.wf(),
    {
        ClipBoxNew {
            port: ViewportNew::new(),
            constrain_horizontal: false,
            constrain_vertical: false,
        }
    }

    /// Returns the viewport describing this `ClipBoxNew`'s position.
    pub fn viewport(&self) -> (r: ViewportNew)
        ensures
            r == self.spec_port(),
    {
        self.port
    }

    /// Grants mutable access to the viewport; the host must hand the new
    /// viewport origin to the child afterwards.
    pub fn port_mut(&mut self) -> (r: &mut ViewportNew)
        ensures
            *r == old(self).spec_port(),
            final(self).spec_port() == *final(r),
            final(self).spec_constrain_horizontal() == old(self).spec_constrain_horizontal(),
            final(self).spec_constrain_vertical() == old(self).spec_constrain_vertical(),
    {
        &mut self.port
    }

    /// Returns the size of the rectangular viewport into the child widget.
    pub fn viewport_size(&self) -> (r: Size)
        requires
            self.wf(),
        ensures
            r.width == self.spec_port().rect.spec_width(),
            r.height == self.spec_port().rect.spec_height(),
    {
        self.port.rect.size()
    }

    /// Returns the size of the child widget.
    pub fn content_size(&self) -> (r: Size)
        ensures
            r == self.spec_port().content_size,
    {
        self.port.content_size
    }

    /// Builder-style method for deciding whether to constrain the child
    /// horizontally. The default is `false`.
    pub fn constrain_horizontal(self, constrain: bool) -> (r: ClipBoxNew)
        ensures
            r.spec_constrain_horizontal() == constrain,
            r.spec_constrain_vertical() == self.spec_constrain_vertical(),
            r.spec_port() == self.spec_port(),
    {
        ClipBoxNew { constrain_horizontal: constrain, ..self }
    }

    /// Determine whether to constrain the child horizontally.
    pub fn set_constrain_horizontal(&mut self, constrain: bool)
        ensures
            final(self).spec_constrain_horizontal() == constrain,
            final(self).spec_constrain_vertical() == old(self).spec_constrain_vertical(),
            final(self).spec_port() == old(self).spec_port(),
    {
        self.constrain_horizontal = constrain;
    }

    /// Builder-style method for deciding whether to constrain the child
    /// vertically. The default is `false`.
    pub fn constrain_vertical(self, constrain: bool) -> (r: ClipBoxNew)
        ensures
            r.spec_constrain_vertical() == constrain,
            r.spec_constrain_horizontal() == self.spec_constrain_horizontal(),
            r.spec_port() == self.spec_port(),
    {
        ClipBoxNew { constrain_vertical: constrain, ..self }
    }

    /// Determine whether to constrain the child vertically.
    pub fn set_constrain_vertical(&mut self, constrain: bool)
        ensures
            final(self).spec_constrain_vertical() == constrain,
            final(self).spec_constrain_horizontal() == old(self).spec_constrain_horizontal(),
            final(self).spec_port() == old(self).spec_port(),
    {
        self.constrain_vertical = constrain;
    }

    /// Changes the viewport offset by `delta`, clamped to the content.
    ///
    /// Returns true if the offset actually changed; the host must then
    /// hand the new viewport origin to the child.
    pub fn pan_by(&mut self, delta: Vec2) -> (changed: bool)
        requires
            old(self).wf(),
            vec_ok(delta),
        ensures
            ({
                let target = Point {
                    x: (old(self).spec_port().rect.x0 + delta.x) as i64,
                    y: (old(self).spec_port().rect.y0 + delta.y) as i64,
                };
                &&& final(self).spec_port() == old(self).spec_port().spec_with_origin(
                    old(self).spec_port().spec_clamp(target))
                &&& changed == (old(self).spec_port().spec_clamp(target) != old(
                    self).spec_port().rect.spec_origin())
            }),
            final(self).spec_constrain_horizontal() == old(self).spec_constrain_horizontal(),
            final(self).spec_constrain_vertical() == old(self).spec_constrain_vertical(),
            final(self).wf(),
    {
        self.port.pan_by(delta)
    }

    /// Sets the viewport origin to `origin`, clamped to the content.
    ///
    /// Returns true if the position changed; the host must then hand the
    /// new viewport origin to the child.
    pub fn pan_to(&mut self, origin: Point) -> (changed: bool)
        requires
            old(self).wf(),
        ensures
            final(self).spec_port() == old(self).spec_port().spec_with_origin(
                old(self).spec_port().spec_clamp(origin)),
            changed == (old(self).spec_port().spec_clamp(origin) != old(
                self).spec_port().rect.spec_origin()),
            final(self).spec_constrain_horizontal() == old(self).spec_constrain_horizontal(),
            final(self).spec_constrain_vertical() == old(self).spec_constrain_vertical(),
            final(self).wf(),
    {
        self.port.pan_to(origin)
    }

    /// Moves the viewport origin to exactly `origin`, without clamping;
    /// the host must then hand the new viewport origin to the child.
    pub fn force_pan_to(&mut self, origin: Point)
        requires
            old(self).wf(),
            point_ok(origin),
        ensures
            final(self).spec_port() == old(self).spec_port().spec_with_origin(origin),
            final(self).spec_constrain_horizontal() == old(self).spec_constrain_horizontal(),
            final(self).spec_constrain_vertical() == old(self).spec_constrain_vertical(),
            final(self).wf(),
    {
        self.port.force_pan_to(origin)
    }

    /// Adjusts the viewport to display as much of the target region as is
    /// possible, moving the smallest distance that does it.
    ///
    /// Returns true if the position changed; the host must then hand the
    /// new viewport origin to the child.
    pub fn pan_to_visible(&mut self, region: Rect) -> (changed: bool)
        requires
            old(self).wf(),
            rect_ok(region),
        ensures
            ({
                let delta = old(self).spec_port().spec_visible_delta(region);
                let target = Point {
                    x: (old(self).spec_port().rect.x0 + delta.x) as i64,
                    y: (old(self).spec_port().rect.y0 + delta.y) as i64,
                };
                &&& final(self).spec_port() == old(self).spec_port().spec_with_origin(
                    old(self).spec_port().spec_clamp(target))
                &&& changed == (old(self).spec_port().spec_clamp(target) != old(
                    self).spec_port().rect.spec_origin())
            }),
            final(self).spec_constrain_horizontal() == old(self).spec_constrain_horizontal(),
            final(self).spec_constrain_vertical() == old(self).spec_constrain_vertical(),
            final(self).wf(),
    {
        self.port.pan_to_visible(region)
    }

    /// Returns the origin of the viewport rectangle.
    pub fn viewport_origin(&self) -> (r: Point)
        ensures
            r == self.spec_port().rect.spec_origin(),
    {
        self.port.rect.origin()
    }

    /// Records the child's measured size and fits the viewport to the
    /// incoming constraints, as [`ClipBox::layout`] does.
    pub fn layout(&mut self, bc: &BoxConstraints, content_size: Size) -> (self_size: Size)
        requires
            old(self).wf(),
            bc_ok(*bc),
            size_ok(content_size),
        ensures
            ({
                let sized = ViewportNew {
                    content_size,
                    rect: Rect {
                        x0: old(self).spec_port().rect.x0,
                        y0: old(self).spec_port().rect.y0,
                        x1: (old(self).spec_port().rect.x0 + bc.spec_constrain(
                            content_size).width) as i64,
                        y1: (old(self).spec_port().rect.y0 + bc.spec_constrain(
                            content_size).height) as i64,
                    },
                };
                let origin = sized.spec_clamp(sized.rect.spec_origin());
                &&& final(self).spec_port() == sized.spec_with_origin(origin)
                &&& self_size.width == final(self).spec_port().rect.spec_width()
                &&& self_size.height == final(self).spec_port().rect.spec_height()
            }),
            final(self).spec_constrain_horizontal() == old(self).spec_constrain_horizontal(),
            final(self).spec_constrain_vertical() == old(self).spec_constrain_vertical(),
            final(self).wf(),
    {
        self.port.content_size = content_size;
        self.port.rect = self.port.rect.with_size(bc.constrain(content_size));
        let new_offset = self.port.clamp_view_origin(self.port.rect.origin());
        self.port.pan_to(new_offset);
        self.port.rect.size()
    }
}

/// Where [`LapceScroll::ensure_visible`] moves one axis of the scroll
/// offset so that the margined target interval `[r0 - margin, r1 +
/// margin]` becomes visible in a view of length `view` into content of
/// length `content`.
pub open spec fn spec_ensure_axis(
    off: int,
    r0: int,
    r1: int,
    margin: int,
    view: int,
    content: int,
) -> int {
    if off < r1 + margin - view {
        let a = r1 + margin - view;
        let b = content - view;
        if a > b {
            b
        } else {
            a
        }
    } else if off > r0 - margin {
        let a = r0 - margin;
        if a < 0 {
            0
        } else {
            a
        }
    } else {
        off
    }
}

/// The scrolling state of a container that scrolls a single child with
/// the wheel: the clipped viewport and the scrollbar component. The
/// child widget and the host's event plumbing live with the host.
#[derive(Debug, Copy, Clone, PartialEq, Eq, Structural)]
pub struct LapceScroll {
    clip: ClipBox,
    scroll_component: ScrollComponent,
}

impl LapceScroll {
    /// The viewport is within the supported coordinate range.
    pub closed spec fn wf(self) -> bool {
        self.clip.wf()
    }

    /// The clipped viewport of this container.
    pub closed spec fn spec_clip(self) -> ClipBox {
        self.clip
    }

    /// The scrollbar state of this container.
    pub closed spec fn spec_component(self) -> ScrollComponent {
        self.scroll_component
    }

    /// Creates a new scroll container: an empty viewport that allows
    /// scrolling in all directions, with invisible scrollbars.
    pub fn new() -> (r: LapceScroll)
        ensures
            r.spec_clip().spec_port() == (Viewport {
                content_size: Size { width: 0, height: 0 },
                rect: Rect { x0: 0, y0: 0, x1: 0, y1: 0 },
            }),
            !r.spec_clip().spec_constrain_horizontal(),
            !r.spec_clip().spec_constrain_vertical(),
            r.spec_component() == (ScrollComponent {
                opacity: 0,
                timer_id: 0,
                hovered: BarHoveredState::Neither,
                held: BarHeldState::Neither,
            }),
            r.wf(),
    {
        LapceScroll { clip: ClipBox::new(), scroll_component: ScrollComponent::new() }
    }

    /// Restrict scrolling to the vertical axis while locking child width.
    pub fn vertical(self) -> (r: LapceScroll)
        ensures
            r.spec_clip().spec_constrain_horizontal(),
            !r.spec_clip().spec_constrain_vertical(),
            r.spec_clip().spec_port() == self.spec_clip().spec_port(),
            r.spec_component() == self.spec_component(),
    {
        let mut r = self;
        r.clip.set_constrain_vertical(false);
        r.clip.set_constrain_horizontal(true);
        r
    }

    /// Restrict scrolling to the horizontal axis while locking child
    /// height.
    pub fn horizontal(self) -> (r: LapceScroll)
        ensures
            !r.spec_clip().spec_constrain_horizontal(),
            r.spec_clip().spec_constrain_vertical(),
            r.spec_clip().spec_port() == self.spec_clip().spec_port(),
            r.spec_component() == self.spec_component(),
    {
        let mut r = self;
        r.clip.set_constrain_vertical(true);
        r.clip.set_constrain_horizontal(false);
        r
    }

    /// Grants mutable access to the clipped viewport.
    pub fn clip_mut(&mut self) -> (r: &mut ClipBox)
        ensures
            *r == old(self).spec_clip(),
            final(self).spec_clip() == *final(r),
            final(self).spec_component() == old(self).spec_component(),
    {
        &mut self.clip
    }

    /// Grants mutable access to the scrollbar state.
    pub fn component_mut(&mut self) -> (r: &mut ScrollComponent)
        ensures
            *r == old(self).spec_component(),
            final(self).spec_component() == *final(r),
            final(self).spec_clip() == old(self).spec_clip(),
    {
        &mut self.scroll_component
    }

    /// Returns the size of the child widget.
    pub fn child_size(&self) -> (r: Size)
        ensures
            r == self.spec_clip().spec_port().content_size,
    {
        self.clip.content_size()
    }

    /// Returns the current scroll offset.
    pub fn offset(&self) -> (r: Vec2)
        ensures
            r.x == self.spec_clip().spec_port().rect.x0,
            r.y == self.spec_clip().spec_port().rect.y0,
    {
        self.clip.viewport_origin().to_vec2()
    }

    /// Scrolls by `(x, y)`, clamped to the content; the host must then
    /// hand the new viewport origin to the child.
    pub fn scroll(&mut self, x: i64, y: i64)
        requires
            old(self).wf(),
            -MAX_POS <= x <= MAX_POS,
            -MAX_POS <= y <= MAX_POS,
        ensures
            final(self).spec_clip().spec_port() == spec_panned(
                old(self).spec_clip().spec_port(), x as int, y as int),
            final(self).spec_component() == old(self).spec_component(),
            final(self).wf(),
    {
        self.clip.pan_by(Vec2 { x, y });
    }

    /// Scrolls to origin `(x, y)`, clamped to the content; the host must
    /// then hand the new viewport origin to the child.
    pub fn scroll_to(&mut self, x: i64, y: i64)
        requires
            old(self).wf(),
        ensures
            ({
                let port = old(self).spec_clip().spec_port();
                final(self).spec_clip().spec_port() == port.spec_with_origin(
                    port.spec_clamp(Point { x, y }))
            }),
            final(self).spec_component() == old(self).spec_component(),
            final(self).wf(),
    {
        self.clip.pan_to(Point { x, y });
    }

    /// Scrolls to exactly origin `(x, y)`, without clamping.
    pub fn force_scroll_to(&mut self, x: i64, y: i64)
        requires
            old(self).wf(),
            -MAX_POS <= x <= MAX_POS,
            -MAX_POS <= y <= MAX_POS,
        ensures
            final(self).spec_clip().spec_port() == old(
                self).spec_clip().spec_port().spec_with_origin(Point { x, y }),
            final(self).spec_component() == old(self).spec_component(),
            final(self).wf(),
    {
        self.clip.force_pan_to(Point { x, y });
    }

    /// Scrolls the smallest distance that brings `rect`, padded by
    /// `margin`, into a view of size `scroll_size`.
    ///
    /// Returns true if the offset changed; the host must then hand the
    /// new viewport origin to the child.
    pub fn ensure_visible(&mut self, scroll_size: Size, rect: &Rect, margin: &(i64, i64)) -> (
        changed: bool)
        requires
            old(self).wf(),
            size_ok(scroll_size),
            rect_ok(*rect),
            -MAX_DIM <= margin.0 <= MAX_DIM,
            -MAX_DIM <= margin.1 <= MAX_DIM,
        ensures
            ({
                let port = old(self).spec_clip().spec_port();
                let nx = spec_ensure_axis(port.rect.x0 as int, rect.x0 as int, rect.x1 as int,
                    margin.0 as int, scroll_size.width as int, port.content_size.width as int);
                let ny = spec_ensure_axis(port.rect.y0 as int, rect.y0 as int, rect.y1 as int,
                    margin.1 as int, scroll_size.height as int,
                    port.content_size.height as int);
                &&& changed == !(nx == port.rect.x0 && ny == port.rect.y0)
                &&& if changed {
                    final(self).spec_clip().spec_port() == port.spec_with_origin(
                        port.spec_clamp(Point { x: nx as i64, y: ny as i64 }))
                } else {
                    final(self).spec_clip().spec_port() == port
                }
            }),
            final(self).spec_component() == old(self).spec_component(),
            final(self).wf(),
    {
        let offset = self.offset();
        let content_size = self.child_size();
        let (x_margin, y_margin) = *margin;

        let new_x = if offset.x < rect.x1 + x_margin - scroll_size.width {
            let a = rect.x1 + x_margin - scroll_size.width;
            let b = content_size.width - scroll_size.width;
            if a > b {
                b
            } else {
                a
            }
        } else if offset.x > rect.x0 - x_margin {
            let a = rect.x0 - x_margin;
            if a < 0 {
                0
            } else {
                a
            }
        } else {
            offset.x
        };
        let new_y = if offset.y < rect.y1 + y_margin - scroll_size.height {
            let a = rect.y1 + y_margin - scroll_size.height;
            let b = content_size.height - scroll_size.height;
            if a > b {
                b
            } else {
                a
            }
        } else if offset.y > rect.y0 - y_margin {
            let a = rect.y0 - y_margin;
            if a < 0 {
                0
            } else {
                a
            }
        } else {
            offset.y
        };

        if new_x == offset.x && new_y == offset.y {
            return false;
        }
        self.clip.pan_to(Point { x: new_x, y: new_y });
        true
    }

    /// Records the child's measured size, fits the viewport to the
    /// incoming constraints, and returns the container's own size.
    pub fn layout(&mut self, bc: &BoxConstraints, content_size: Size) -> (self_size: Size)
        requires
            old(self).wf(),
            bc_ok(*bc),
            size_ok(content_size),
        ensures
            ({
                let port = old(self).spec_clip().spec_port();
                let sized = Viewport {
                    content_size,
                    rect: Rect {
                        x0: port.rect.x0,
                        y0: port.rect.y0,
                        x1: (port.rect.x0 + bc.spec_constrain(content_size).width) as i64,
                        y1: (port.rect.y0 + bc.spec_constrain(content_size).height) as i64,
                    },
                };
                let origin = sized.spec_clamp(sized.rect.spec_origin());
                &&& final(self).spec_clip().spec_port() == sized.spec_with_origin(origin)
                &&& self_size == bc.spec_constrain(Size {
                    width: final(self).spec_clip().spec_port().rect.spec_width() as i64,
                    height: final(self).spec_clip().spec_port().rect.spec_height() as i64,
                })
            }),
            final(self).spec_component() == old(self).spec_component(),
            final(self).wf(),
    {
        let child_size = self.clip.layout(bc, content_size);
        bc.constrain(child_size)
    }
}

/// The scrolling state of the newer scrolling container.
#[derive(Debug, Copy, Clone, PartialEq, Eq, Structural)]
pub struct LapceScrollNew {
    clip: ClipBoxNew,
    scroll_component: ScrollComponentNew,
}

impl LapceScrollNew {
    /// The viewport is within the supported coordinate range.
    pub closed spec fn wf(self) -> bool {
        self.clip.wf()
    }

    /// The clipped viewport of this container.
    pub closed spec fn spec_clip(self) -> ClipBoxNew {
        self.clip
    }

    /// The scrollbar state of this container.
    pub closed spec fn spec_component(self) -> ScrollComponentNew {
        self.scroll_component
    }

    /// Creates a new scroll container: an empty viewport that allows
    /// scrolling in all directions, with invisible scrollbars.
    pub fn new() -> (r: LapceScrollNew)
        ensures
            r.spec_clip().spec_port() == (ViewportNew {
                content_size: Size { width: 0, height: 0 },
                rect: Rect { x0: 0, y0: 0, x1: 0, y1: 0 },
            }),
            !r.spec_clip().spec_constrain_horizontal(),
            !r.spec_clip().spec_constrain_vertical(),
            r.spec_component() == (ScrollComponentNew {
                opacity: 0,
                timer_id: 0,
                fade_interval_id: 0,
                hovered: BarHoveredState::Neither,
                held: BarHeldState::Neither,
            }),
            r.wf(),
    {
        LapceScrollNew { clip: ClipBoxNew::new(), scroll_component: ScrollComponentNew::new() }
    }

    /// Restrict scrolling to the vertical axis while locking child width.
    pub fn vertical(self) -> (r: LapceScrollNew)
        ensures
            r.spec_clip().spec_constrain_horizontal(),
            !r.spec_clip().spec_constrain_vertical(),
            r.spec_clip().spec_port() == self.spec_clip().spec_port(),
            r.spec_component() == self.spec_component(),
    {
        let mut r = self;
        r.clip.set_constrain_vertical(false);
        r.clip.set_constrain_horizontal(true);
        r
    }

    /// Restrict scrolling to the horizontal axis while locking child
    /// height.
    pub fn horizontal(self) -> (r: LapceScrollNew)
        ensures
            !r.spec_clip().spec_constrain_horizontal(),
            r.spec_clip().spec_constrain_vertical(),
            r.spec_clip().spec_port() == self.spec_clip().spec_port(),
            r.spec_component() == self.spec_component(),
    {
        let mut r = self;
        r.clip.set_constrain_vertical(true);
        r.clip.set_constrain_horizontal(false);
        r
    }

    /// Grants mutable access to the clipped viewport.
    pub fn clip_mut(&mut self) -> (r: &mut ClipBoxNew)
        ensures
            *r == old(self).spec_clip(),
            final(self).spec_clip() == *final(r),
            final(self).spec_component() == old(self).spec_component(),
    {
        &mut self.clip
    }

    /// Grants mutable access to the scrollbar state.
    pub fn component_mut(&mut self) -> (r: &mut ScrollComponentNew)
        ensures
            *r == old(self).spec_component(),
            final(self).spec_component() == *final(r),
            final(self).spec_clip() == old(self).spec_clip(),
    {
        &mut self.scroll_component
    }

    /// Returns the size of the child widget.
    pub fn child_size(&self) -> (r: Size)
        ensures
            r == self.spec_clip().spec_port().content_size,
    {
        self.clip.content_size()
    }

    /// Overrides the recorded size of the child widget.
    pub fn set_child_size(&mut self, size: Size)
        requires
            old(self).wf(),
            size_ok(size),
        ensures
            final(self).spec_clip().spec_port() == (ViewportNew {
                content_size: size,
                ..old(self).spec_clip().spec_port()
            }),
            final(self).spec_component() == old(self).spec_component(),
            final(self).wf(),
    {
        self.clip.port_mut().content_size = size;
    }

    /// Returns the current scroll offset.
    pub fn offset(&self) -> (r: Vec2)
        ensures
            r.x == self.spec_clip().spec_port().rect.x0,
            r.y == self.spec_clip().spec_port().rect.y0,
    {
        self.clip.viewport_origin().to_vec2()
    }

    /// Scrolls by `delta`, clamped to the content.
    ///
    /// Returns true if the scroll offset has changed; the host must then
    /// hand the new viewport origin to the child.
    pub fn scroll_by(&mut self, delta: Vec2) -> (changed: bool)
        requires
            old(self).wf(),
            vec_ok(delta),
        ensures
            final(self).spec_clip().spec_port() == spec_panned_new(
                old(self).spec_clip().spec_port(), delta.x as int, delta.y as int),
            ({
                let port = old(self).spec_clip().spec_port();
                let target = Point {
                    x: (port.rect.x0 + delta.x) as i64,
                    y: (port.rect.y0 + delta.y) as i64,
                };
                changed == (port.spec_clamp(target) != port.rect.spec_origin())
            }),
            final(self).spec_component() == old(self).spec_component(),
            final(self).wf(),
    {
        self.clip.pan_by(delta)
    }

    /// Scrolls to exactly `point`, without clamping.
    pub fn force_scroll_to(&mut self, point: Point)
        requires
            old(self).wf(),
            point_ok(point),
        ensures
            final(self).spec_clip().spec_port() == old(
                self).spec_clip().spec_port().spec_with_origin(point),
            final(self).spec_component() == old(self).spec_component(),
            final(self).wf(),
    {
        self.clip.force_pan_to(point)
    }

    /// Scrolls to origin `point`, clamped to the content.
    ///
    /// Returns true if the offset changed; the host must then hand the
    /// new viewport origin to the child.
    pub fn scroll_to(&mut self, point: Point) -> (changed: bool)
        requires
            old(self).wf(),
        ensures
            ({
                let port = old(self).spec_clip().spec_port();
                &&& final(self).spec_clip().spec_port() == port.spec_with_origin(
                    port.spec_clamp(point))
                &&& changed == (port.spec_clamp(point) != port.rect.spec_origin())
            }),
            final(self).spec_component() == old(self).spec_component(),
            final(self).wf(),
    {
        self.clip.pan_to(point)
    }

    /// Scrolls the minimal distance to show the target rect.
    ///
    /// If the target region is larger than the viewport, the portion
    /// that fits, prioritizing the portion closest to the origin, is
    /// shown.
    pub fn scroll_to_visible(&mut self, region: Rect) -> (changed: bool)
        requires
            old(self).wf(),
            rect_ok(region),
        ensures
            ({
                let port = old(self).spec_clip().spec_port();
                let delta = port.spec_visible_delta(region);
                let target = Point {
                    x: (port.rect.x0 + delta.x) as i64,
                    y: (port.rect.y0 + delta.y) as i64,
                };
                &&& final(self).spec_clip().spec_port() == port.spec_with_origin(
                    port.spec_clamp(target))
                &&& changed == (port.spec_clamp(target) != port.rect.spec_origin())
            }),
            final(self).spec_component() == old(self).spec_component(),
            final(self).wf(),
    {
        self.clip.pan_to_visible(region)
    }

    /// Records the child's measured size, fits the viewport to the
    /// incoming constraints, and returns the container's own size
    /// together with whether the viewport changed; when it did, the
    /// scrollbars were made visible and the host must request the fade
    /// timer.
    pub fn layout(&mut self, bc: &BoxConstraints, content_size: Size, style: &ScrollBarStyle)
        -> (r: (Size, bool))
        requires
            old(self).wf(),
            bc_ok(*bc),
            size_ok(content_size),
        ensures
            ({
                let port = old(self).spec_clip().spec_port();
                let sized = ViewportNew {
                    content_size,
                    rect: Rect {
                        x0: port.rect.x0,
                        y0: port.rect.y0,
                        x1: (port.rect.x0 + bc.spec_constrain(content_size).width) as i64,
                        y1: (port.rect.y0 + bc.spec_constrain(content_size).height) as i64,
                    },
                };
                let after = sized.spec_with_origin(sized.spec_clamp(sized.rect.spec_origin()));
                &&& final(self).spec_clip().spec_port() == after
                &&& r.0 == bc.spec_constrain(Size {
                    width: after.rect.spec_width() as i64,
                    height: after.rect.spec_height() as i64,
                })
                &&& r.1 == (after != port)
                &&& final(self).spec_component() == if r.1 {
                    ScrollComponentNew { opacity: style.max_opacity,
                        ..old(self).spec_component() }
                } else {
                    old(self).spec_component()
                }
            }),
            final(self).wf(),
    {
        let old_viewport = self.clip.viewport();
        let child_size = self.clip.layout(bc, content_size);
        let self_size = bc.constrain(child_size);
        let _ = self.scroll_by(Vec2 { x: 0, y: 0 });
        let changed = !(old_viewport == self.clip.viewport());
        if changed {
            self.scroll_component.reset_scrollbar_fade(style);
        }
        (self_size, changed)
    }
}

/// The padding amounts of a widget that surrounds its child with space:
/// the child itself, and the host's layout plumbing, live with the host.
#[derive(Debug, Copy, Clone, PartialEq, Eq, Structural)]
pub struct LapcePadding {
    left: i64,
    right: i64,
    top: i64,
    bottom: i64,
}

impl LapcePadding {
    /// The padding amounts are within the supported range.
    pub closed spec fn wf(self) -> bool {
        &&& -MAX_DIM <= self.left <= MAX_DIM
        &&& -MAX_DIM <= self.right <= MAX_DIM
        &&& -MAX_DIM <= self.top <= MAX_DIM
        &&& -MAX_DIM <= self.bottom <= MAX_DIM
    }

    /// The padding left of the child.
    pub closed spec fn spec_left(self) -> i64 {
        self.left
    }

    /// The padding right of the child.
    pub closed spec fn spec_right(self) -> i64 {
        self.right
    }

    /// The padding above the child.
    pub closed spec fn spec_top(self) -> i64 {
        self.top
    }

    /// The padding below the child.
    pub closed spec fn spec_bottom(self) -> i64 {
        self.bottom
    }

    /// Uniform padding on all four sides.
    pub fn new(left: i64, top: i64, right: i64, bottom: i64) -> (r: LapcePadding)
        requires
            -MAX_DIM <= left <= MAX_DIM,
            -MAX_DIM <= top <= MAX_DIM,
            -MAX_DIM <= right <= MAX_DIM,
            -MAX_DIM <= bottom <= MAX_DIM,
        ensures
            r.spec_left() == left,
            r.spec_top() == top,
            r.spec_right() == right,
            r.spec_bottom() == bottom,
            r.wf(),
    {
        LapcePadding { left, right, top, bottom }
    }

    /// The constraints to lay the child out under: the incoming
    /// constraints shrunk by the padding on each axis.
    pub fn child_constraints(&self, bc: &BoxConstraints) -> (r: BoxConstraints)
        requires
            self.wf(),
            bc_ok(*bc),
        ensures
            ({
                let hpad = self.spec_left() + self.spec_right();
                let vpad = self.spec_top() + self.spec_bottom();
                &&& r.min.width == if bc.min.width - hpad >= 0 {
                    bc.min.width - hpad
                } else {
                    0
                }
                &&& r.min.height == if bc.min.height - vpad >= 0 {
                    bc.min.height - vpad
                } else {
                    0
                }
                &&& r.max.width == if bc.max.width - hpad >= 0 {
                    bc.max.width - hpad
                } else {
                    0
                }
                &&& r.max.height == if bc.max.height - vpad >= 0 {
                    bc.max.height - vpad
                } else {
                    0
                }
            }),
    {
        let hpad = self.left + self.right;
        let vpad = self.top + self.bottom;
        let min_w = if bc.min.width - hpad >= 0 {
            bc.min.width - hpad
        } else {
            0
        };
        let min_h = if bc.min.height - vpad >= 0 {
            bc.min.height - vpad
        } else {
            0
        };
        let max_w = if bc.max.width - hpad >= 0 {
            bc.max.width - hpad
        } else {
            0
        };
        let max_h = if bc.max.height - vpad >= 0 {
            bc.max.height - vpad
        } else {
            0
        };
        BoxConstraints {
            min: Size { width: min_w, height: min_h },
            max: Size { width: max_w, height: max_h },
        }
    }

    /// Given the child's measured size, the origin to place the child at
    /// and the padded size this widget takes.
    pub fn layout(&self, child_size: Size) -> (r: (Point, Size))
        requires
            self.wf(),
            size_ok(child_size),
        ensures
            r.0 == (Point { x: self.spec_left(), y: self.spec_top() }),
            r.1.width == child_size.width + self.spec_left() + self.spec_right(),
            r.1.height == child_size.height + self.spec_top() + self.spec_bottom(),
    {
        let hpad = self.left + self.right;
        let vpad = self.top + self.bottom;
        (
            Point { x: self.left, y: self.top },
            Size { width: child_size.width + hpad, height: child_size.height + vpad },
        )
    }
}

/// A vertical scrollbar, when shown, is exactly `bar_width` thick,
/// hugs the view's right edge at `bar_pad`, and is at least
/// [`SCROLLBAR_MIN_SIZE`] long, less the pad its top edge is inset by.
pub proof fn lemma_vertical_bar_shape(rect: Rect, content: Size, bar_width: int, bar_pad: int)
    requires
        rect_ok(rect),
        size_ok(content),
        0 <= bar_width <= MAX_DIM,
        0 <= bar_pad <= MAX_DIM,
        spec_vertical_bar_bounds(rect, content, bar_width, bar_pad) is Some,
    ensures
        ({
            let b = spec_vertical_bar_bounds(rect, content, bar_width, bar_pad).unwrap();
            &&& b.x1 - b.x0 == bar_width
            &&& b.x1 == rect.x0 + rect.spec_width() - bar_pad
            &&& b.y1 - b.y0 >= SCROLLBAR_MIN_SIZE - bar_pad
        }),
{
    lemma_bar_arith_bounds(rect.spec_height(), content.height as int, rect.y0 as int,
        bar_pad + bar_pad + bar_width);
}

/// A horizontal scrollbar, when shown, is exactly `bar_width` thick,
/// hugs the view's bottom edge at `bar_pad`, and is at least
/// [`SCROLLBAR_MIN_SIZE`] long, less the pad its left edge is inset by.
pub proof fn lemma_horizontal_bar_shape(
    rect: Rect,
    content: Size,
    bar_width: int,
    bar_pad: int,
)
    requires
        rect_ok(rect),
        size_ok(content),
        0 <= bar_width <= MAX_DIM,
        0 <= bar_pad <= MAX_DIM,
        spec_horizontal_bar_bounds(rect, content, bar_width, bar_pad) is Some,
    ensures
        ({
            let b = spec_horizontal_bar_bounds(rect, content, bar_width, bar_pad).unwrap();
            &&& b.y1 - b.y0 == bar_width
            &&& b.y1 == rect.y0 + rect.spec_height() - bar_pad
            &&& b.x1 - b.x0 >= SCROLLBAR_MIN_SIZE - bar_pad
        }),
{
    lemma_bar_arith_bounds(rect.spec_width(), content.width as int, rect.x0 as int,
        bar_pad + bar_pad + bar_width);
}

/// An event the scrollbars do not read changes nothing and asks for
/// nothing, whatever state they are in.
pub proof fn lemma_event_other_is_noop(
    comp: ScrollComponent,
    port: Viewport,
    style: ScrollBarStyle,
)
    ensures
        spec_scroll_event(comp, port, ScrollEvent::Other, style) == (
            comp,
            port,
            Seq::<ScrollAction>::empty(),
        ),
{
}

impl ScrollComponent {
    /// What drawing the bars would paint: nothing while the bars are
    /// faded out; otherwise each visible bar's rectangle, moved back by
    /// the scroll offset into viewport coordinates, the vertical bar
    /// first.
    pub fn bars_to_paint(&self, port: &Viewport, style: &ScrollBarStyle) -> (r: Option<
        (Option<Rect>, Option<Rect>),
    >)
        requires
            port.wf(),
            style_ok(*style),
        ensures
            ({
                let off = port.rect.spec_origin();
                let v = spec_vertical_bar_bounds(port.rect, port.content_size,
                    style.bar_width as int, style.bar_pad as int);
                let h = spec_horizontal_bar_bounds(port.rect, port.content_size,
                    style.bar_width as int, style.bar_pad as int);
                if self.opacity <= 0 {
                    r is None
                } else {
                    r == Option::Some(
                        (
                            match v {
                                Option::Some(b) => Option::Some(spec_rect_shift(b, off)),
                                Option::None => Option::<Rect>::None,
                            },
                            match h {
                                Option::Some(b) => Option::Some(spec_rect_shift(b, off)),
                                Option::None => Option::<Rect>::None,
                            },
                        ),
                    )
                }
            }),
    {
        if self.opacity <= 0 {
            return Option::None;
        }
        let off = port.rect.origin();
        proof {
            if port.rect.spec_width() < port.content_size.width {
                lemma_bar_arith_bounds(port.rect.spec_width(), port.content_size.width as int,
                    port.rect.x0 as int, style.bar_pad + style.bar_pad + style.bar_width);
            }
            if port.rect.spec_height() < port.content_size.height {
                lemma_bar_arith_bounds(port.rect.spec_height(),
                    port.content_size.height as int, port.rect.y0 as int,
                    style.bar_pad + style.bar_pad + style.bar_width);
            }
        }
        let v = match vertical_bar_bounds(port.rect, port.content_size, style.bar_width,
            style.bar_pad) {
            Option::Some(b) => Option::Some(
                Rect { x0: b.x0 - off.x, y0: b.y0 - off.y, x1: b.x1 - off.x, y1: b.y1 - off.y },
            ),
            Option::None => Option::None,
        };
        let h = match horizontal_bar_bounds(port.rect, port.content_size, style.bar_width,
            style.bar_pad) {
            Option::Some(b) => Option::Some(
                Rect { x0: b.x0 - off.x, y0: b.y0 - off.y, x1: b.x1 - off.x, y1: b.y1 - off.y },
            ),
            Option::None => Option::None,
        };
        Option::Some((v, h))
    }
}

impl ScrollComponentNew {
    /// What drawing the bars would paint, as
    /// [`ScrollComponent::bars_to_paint`] gives it.
    pub fn bars_to_paint(&self, port: &ViewportNew, style: &ScrollBarStyle) -> (r: Option<
        (Option<Rect>, Option<Rect>),
    >)
        requires
            port.wf(),
            style_ok(*style),
        ensures
            ({
                let off = port.rect.spec_origin();
                let v = spec_vertical_bar_bounds(port.rect, port.content_size,
                    style.bar_width as int, style.bar_pad as int);
                let h = spec_horizontal_bar_bounds(port.rect, port.content_size,
                    style.bar_width as int, style.bar_pad as int);
                if self.opacity <= 0 {
                    r is None
                } else {
                    r == Option::Some(
                        (
                            match v {
                                Option::Some(b) => Option::Some(spec_rect_shift(b, off)),
                                Option::None => Option::<Rect>::None,
                            },
                            match h {
                                Option::Some(b) => Option::Some(spec_rect_shift(b, off)),
                                Option::None => Option::<Rect>::None,
                            },
                        ),
                    )
                }
            }),
    {
        if self.opacity <= 0 {
            return Option::None;
        }
        let off = port.rect.origin();
        proof {
            if port.rect.spec_width() < port.content_size.width {
                lemma_bar_arith_bounds(port.rect.spec_width(), port.content_size.width as int,
                    port.rect.x0 as int, style.bar_pad + style.bar_pad + style.bar_width);
            }
            if port.rect.spec_height() < port.content_size.height {
                lemma_bar_arith_bounds(port.rect.spec_height(),
                    port.content_size.height as int, port.rect.y0 as int,
                    style.bar_pad + style.bar_pad + style.bar_width);
            }
        }
        let v = match vertical_bar_bounds(port.rect, port.content_size, style.bar_width,
            style.bar_pad) {
            Option::Some(b) => Option::Some(
                Rect { x0: b.x0 - off.x, y0: b.y0 - off.y, x1: b.x1 - off.x, y1: b.y1 - off.y },
            ),
            Option::None => Option::None,
        };
        let h = match horizontal_bar_bounds(port.rect, port.content_size, style.bar_width,
            style.bar_pad) {
            Option::Some(b) => Option::Some(
                Rect { x0: b.x0 - off.x, y0: b.y0 - off.y, x1: b.x1 - off.x, y1: b.y1 - off.y },
            ),
            Option::None => Option::None,
        };
        Option::Some((v, h))
    }
}

/// Saturating a pan delta does not change where the pan lands, as long
/// as the origin coordinate it is added to sits in the clamped band
/// `[0, MAX_DIM]` and the clamp limit is at most [`MAX_DIM`].
pub proof fn lemma_sat_delta_clamps_alike(x0: int, d: int, limit: int)
    requires
        0 <= x0 <= MAX_DIM,
        limit <= MAX_DIM,
    ensures
        clamp_axis(x0 + spec_sat_delta(d), limit) == clamp_axis(x0 + d, limit),
{
}

} // verus!
