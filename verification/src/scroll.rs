//! The scroll model: a smoothing animator for the scroll offset, and
//! scrollbar geometry.

use vstd::prelude::*;

use crate::px::{dim_ok, px_clamp, px_max, px_min, MAX_PX};

verus! {

/// Smooth scrolling state. While animating, `current` moves toward
/// `target` each update and snaps when within one pixel; at rest the two
/// are always equal.
#[derive(Debug, Clone, Copy, PartialEq, Eq, Structural)]
pub struct ScrollAnimator {
    pub current: i64,
    pub target: i64,
    pub animating: bool,
}

impl ScrollAnimator {
    /// At rest the offset sits exactly on the target.
    pub open spec fn wf(&self) -> bool {
        &&& !self.animating ==> self.current == self.target
        &&& dim_ok(self.current as int)
        &&& dim_ok(self.target as int)
    }

    pub fn new() -> (r: ScrollAnimator)
        ensures
            r.wf(),
            r.current == 0 && r.target == 0 && !r.animating,
    {
        ScrollAnimator { current: 0, target: 0, animating: false }
    }

    /// One animation step over `dt` milliseconds: the offset moves toward
    /// the clamped target by a first-order smoothing fraction, at least one
    /// pixel, and snaps onto it when it gets there. Returns whether the
    /// animation is still running.
    pub fn update(&mut self, dt_ms: u32, max_scroll: i64) -> (r: bool)
        requires
            old(self).wf(),
            0 <= max_scroll <= MAX_PX,
        ensures
            *final(self) == spec_scroll_update(*old(self), dt_ms, max_scroll as int),
            final(self).wf(),
            r == final(self).animating,
            !old(self).animating ==> *final(self) == *old(self) && !r,
            old(self).animating ==> {
                &&& final(self).target == spec_clamp_px(old(self).target as int, max_scroll as int)
                &&& (!r ==> final(self).current == final(self).target)
                &&& (r ==> spec_abs(final(self).target - final(self).current) < spec_abs(
                    final(self).target - old(self).current,
                ))
                &&& (old(self).current <= final(self).target ==> old(self).current <= final(self).current <= final(self).target)
                &&& (old(self).current >= final(self).target ==> final(self).target <= final(self).current <= old(self).current)
            },
    {
        if !self.animating {
            return false;
        }
        self.target = px_clamp(self.target, 0, max_scroll);
        let diff: i64 = self.target - self.current;
        if diff == 0 {
            self.current = self.target;
            self.animating = false;
            return false;
        }
        // First-order smoothing: keep a fraction 1000 / (1000 + 12 dt) of
        // the gap, moving the rest; always move at least one pixel. This
        // rational curve is the integer stand-in for the exponential decay
        // e^(-12 dt) of a single-pole low-pass filter: it agrees to first
        // order for small steps, and keeps the same clamping, monotone
        // approach and convergence whatever the step.
        let dt: i64 = if dt_ms > 1000 {
            1000
        } else {
            dt_ms as i64
        };
        let retain0: i64 = 1000 * 1000 / (1000 + 12 * dt);
        let retain: i64 = if retain0 > 1000 {
            1000
        } else if retain0 < 0 {
            0
        } else {
            retain0
        };
        let d: i64 = if diff >= 0 {
            diff
        } else {
            -diff
        };
        let q: i64 = d / 1000;
        let r: i64 = d % 1000;
        proof {
            assert(0 <= q * retain <= 3 * MAX_PX) by (nonlinear_arith)
                requires
                    0 <= q <= 3 * MAX_PX / 1000,
                    0 <= retain <= 1000,
            ;
            assert(0 <= r * retain <= 1000000) by (nonlinear_arith)
                requires
                    0 <= r < 1000,
                    0 <= retain <= 1000,
            ;
        }
        let keep1: i64 = q * retain / 1000;
        let keep2: i64 = r * retain / 1000 / 1000;
        proof {
            lemma_step_parts(d as int, retain as int);
        }
        let mag: i64 = d - keep1 - keep2;
        let mut step: i64 = if diff >= 0 {
            mag
        } else {
            -mag
        };
        if step == 0 {
            step = if diff > 0 {
                1
            } else {
                -1
            };
        }
        let next = self.current + step;
        if diff > 0 && next >= self.target {
            self.current = self.target;
            self.animating = false;
            return false;
        }
        if diff < 0 && next <= self.target {
            self.current = self.target;
            self.animating = false;
            return false;
        }
        self.current = next;
        true
    }

    /// Move the target by `delta`, clamped into `[0, max_scroll]`, and
    /// start animating toward it.
    pub fn scroll_by(&mut self, delta: i64, max_scroll: i64)
        requires
            old(self).wf(),
            dim_ok(delta as int),
            0 <= max_scroll <= MAX_PX,
        ensures
            final(self).wf(),
            final(self).target as int == spec_clamp_px(
                old(self).target + delta,
                max_scroll as int,
            ),
            0 <= final(self).target <= max_scroll,
            final(self).current == old(self).current,
            final(self).animating,
    {
        self.target = px_clamp(self.target + delta, 0, max_scroll);
        self.animating = true;
    }

    /// Aim at an absolute position, clamped, and start animating.
    pub fn scroll_to(&mut self, position: i64, max_scroll: i64)
        requires
            old(self).wf(),
            dim_ok(position as int),
            0 <= max_scroll <= MAX_PX,
        ensures
            final(self).wf(),
            final(self).target as int == spec_clamp_px(position as int, max_scroll as int),
            0 <= final(self).target <= max_scroll,
            final(self).current == old(self).current,
            final(self).animating,
    {
        self.target = px_clamp(position, 0, max_scroll);
        self.animating = true;
    }

    /// Jump both offset and target to the clamped position, at rest.
    pub fn scroll_immediate(&mut self, position: i64, max_scroll: i64)
        requires
            old(self).wf(),
            dim_ok(position as int),
            0 <= max_scroll <= MAX_PX,
        ensures
            final(self).wf(),
            final(self).current as int == spec_clamp_px(position as int, max_scroll as int),
            final(self).target == final(self).current,
            !final(self).animating,
    {
        self.current = px_clamp(position, 0, max_scroll);
        self.target = self.current;
        self.animating = false;
    }
}

impl Default for ScrollAnimator {
    fn default() -> (r: ScrollAnimator)
        ensures
            r.wf(),
            r.current == 0 && r.target == 0 && !r.animating,
    {
        ScrollAnimator::new()
    }
}

/// The smoothing fraction kept of the gap, per thousand, for a step of
/// `dt` milliseconds (capped at one second): `1000·1000 / (1000 + 12·dt)`.
/// This is a deliberate fixed-point stand-in for the exponential decay
/// factor `e^(-12·dt)`, which whole-number arithmetic cannot express; the
/// two agree to first order in `dt` and share every qualitative property
/// the scrolling contracts state (clamping, monotone approach, snap and
/// convergence).
pub open spec fn spec_retain(dt_ms: u32) -> int {
    let dt: int = if dt_ms > 1000 {
        1000
    } else {
        dt_ms as int
    };
    let r0 = (1000 * 1000) as int / (1000 + 12 * dt);
    if r0 > 1000 {
        1000
    } else if r0 < 0 {
        0
    } else {
        r0
    }
}

/// How far one update moves toward the target, for a gap of magnitude
/// `d`: the part of the gap not retained by the smoothing fraction, and
/// at least one pixel.
pub open spec fn spec_step_mag(d: int, retain: int) -> int {
    let m = d - d / 1000 * retain / 1000 - d % 1000 * retain / 1000 / 1000;
    if m == 0 {
        1
    } else {
        m
    }
}

/// The animator state one update step produces.
pub open spec fn spec_scroll_update(s: ScrollAnimator, dt_ms: u32, max_scroll: int) -> ScrollAnimator {
    if !s.animating {
        s
    } else {
        let t = spec_clamp_px(s.target as int, max_scroll);
        let diff = t - s.current;
        if diff == 0 {
            ScrollAnimator { current: t as i64, target: t as i64, animating: false }
        } else {
            let mag = spec_step_mag(spec_abs(diff), spec_retain(dt_ms));
            let next = if diff > 0 {
                s.current + mag
            } else {
                s.current - mag
            };
            if (diff > 0 && next >= t) || (diff < 0 && next <= t) {
                ScrollAnimator { current: t as i64, target: t as i64, animating: false }
            } else {
                ScrollAnimator { current: next as i64, target: t as i64, animating: true }
            }
        }
    }
}

/// Clamp into `[0, hi]`.
pub open spec fn spec_clamp_px(v: int, hi: int) -> int {
    if v < 0 {
        0
    } else if v > hi {
        hi
    } else {
        v
    }
}

pub open spec fn spec_abs(v: int) -> int {
    if v >= 0 {
        v
    } else {
        -v
    }
}

/// The smoothing step never overshoots: the kept parts never exceed the
/// gap itself.
proof fn lemma_step_parts(d: int, retain: int)
    requires
        0 <= d,
        0 <= retain <= 1000,
    ensures
        0 <= d - d / 1000 * retain / 1000 - d % 1000 * retain / 1000 / 1000 <= d,
{
    let q = d / 1000;
    let r = d % 1000;
    assert(d == 1000 * q + r && 0 <= r < 1000);
    assert(q * retain <= q * 1000) by (nonlinear_arith)
        requires
            q >= 0,
            retain <= 1000,
    ;
    assert(q * retain >= 0) by (nonlinear_arith)
        requires
            q >= 0,
            retain >= 0,
    ;
    assert(r * retain <= r * 1000) by (nonlinear_arith)
        requires
            r >= 0,
            retain <= 1000,
    ;
    assert(r * retain >= 0) by (nonlinear_arith)
        requires
            r >= 0,
            retain >= 0,
    ;
    assert(q * retain / 1000 <= q);
    assert(r * retain / 1000 / 1000 <= r);
    assert(q * retain / 1000 >= 0);
    assert(r * retain / 1000 / 1000 >= 0);
}

/// What a point over the scrollbar strikes.
#[derive(Debug, Clone, Copy, PartialEq, Eq, Structural)]
pub enum ScrollbarHit {
    Thumb,
    Track,
    Miss,
}

/// The scrollbar thumb's height: the track scaled by the visible share of
/// the content (`viewport² / content`), never below the minimum, never
/// above the track.
pub open spec fn spec_thumb_height(viewport: int, content: int, min_thumb: int) -> int {
    let raw = viewport * viewport / content;
    let floored = if raw >= min_thumb {
        raw
    } else {
        min_thumb
    };
    if floored <= viewport {
        floored
    } else {
        viewport
    }
}

/// The thumb's offset down the track: the scroll position's share of the
/// scrollable range, scaled to the track minus the thumb.
pub open spec fn spec_thumb_y(scroll_y: int, max_scroll: int, track: int, thumb: int) -> int {
    if max_scroll <= 0 || track <= thumb {
        0
    } else {
        scroll_y * (track - thumb) / max_scroll
    }
}

/// Thumb height for a viewport of `viewport` pixels over `content` pixels
/// of content, floored at `min_thumb`.
pub fn scrollbar_thumb_height(viewport: i64, content: i64, min_thumb: i64) -> (r: i64)
    requires
        0 < viewport <= MAX_PX,
        viewport < content <= MAX_PX,
        0 <= min_thumb <= viewport,
    ensures
        r == spec_thumb_height(viewport as int, content as int, min_thumb as int),
        min_thumb <= r <= viewport,
{
    proof {
        assert(viewport * viewport <= MAX_PX * MAX_PX) by (nonlinear_arith)
            requires
                0 < viewport <= MAX_PX,
        ;
        assert((viewport as int) * (viewport as int) / (content as int) >= 0) by (nonlinear_arith)
            requires
                viewport > 0,
                content > 0,
        ;
    }
    proof {
        assert((viewport as int) * (viewport as int) / (content as int) <= viewport)
            by (nonlinear_arith)
            requires
                0 < viewport < content,
        ;
    }
    let raw: i64 = (((viewport as i128) * (viewport as i128) / (content as i128)) as i64);
    let floored = px_max(raw, min_thumb);
    px_min(floored, viewport)
}

/// The thumb's vertical offset inside the track for the given scroll
/// position.
pub fn scrollbar_thumb_y(scroll_y: i64, max_scroll: i64, track: i64, thumb: i64) -> (r: i64)
    requires
        0 <= scroll_y <= max_scroll,
        max_scroll <= MAX_PX,
        0 <= thumb <= track <= MAX_PX,
    ensures
        r == spec_thumb_y(scroll_y as int, max_scroll as int, track as int, thumb as int),
        0 <= r <= track - thumb,
{
    if max_scroll <= 0 || track <= thumb {
        0
    } else {
        proof {
            assert(0 <= scroll_y * (track - thumb) <= max_scroll * (track - thumb))
                by (nonlinear_arith)
                requires
                    0 <= scroll_y <= max_scroll,
                    0 <= track - thumb,
            ;
            assert(max_scroll * (track - thumb) <= MAX_PX * MAX_PX) by (nonlinear_arith)
                requires
                    0 <= max_scroll <= MAX_PX,
                    0 <= track - thumb <= MAX_PX,
            ;
            assert((max_scroll as int) * ((track - thumb) as int) / (max_scroll as int) == track
                - thumb) by (nonlinear_arith)
                requires
                    max_scroll > 0,
            ;
            assert((scroll_y as int) * ((track - thumb) as int) / (max_scroll as int) <= track
                - thumb) by (nonlinear_arith)
                requires
                    0 <= (scroll_y as int) * ((track - thumb) as int) <= (max_scroll as int) * ((
                    track - thumb) as int),
                    max_scroll > 0,
            ;
            assert((scroll_y as int) * ((track - thumb) as int) / (max_scroll as int) >= 0)
                by (nonlinear_arith)
                requires
                    (scroll_y as int) * ((track - thumb) as int) >= 0,
                    max_scroll > 0,
            ;
        }
        (((scroll_y as i128) * ((track - thumb) as i128) / (max_scroll as i128)) as i64)
    }
}

/// Classify a point against the thumb's extent on the track: on the thumb,
/// on the track beside it, or outside the track altogether.
pub fn scrollbar_hit_test(y: i64, track_top: i64, track_height: i64, thumb_y: i64, thumb_height: i64) -> (
    r: ScrollbarHit)
    requires
        0 <= track_height,
        0 <= thumb_y,
        0 <= thumb_height,
        thumb_y + thumb_height <= track_height,
        -MAX_PX <= track_top <= MAX_PX,
        -MAX_PX <= y <= MAX_PX,
        track_height <= MAX_PX,
    ensures
        r is Thumb <==> track_top + thumb_y <= y < track_top + thumb_y + thumb_height,
        r is Track <==> (track_top <= y < track_top + track_height && !(track_top + thumb_y <= y
            < track_top + thumb_y + thumb_height)),
        r is Miss <==> !(track_top <= y < track_top + track_height),
{
    if y < track_top || y >= track_top + track_height {
        ScrollbarHit::Miss
    } else if y >= track_top + thumb_y && y < track_top + thumb_y + thumb_height {
        ScrollbarHit::Thumb
    } else {
        ScrollbarHit::Track
    }
}

/// The scroll position a thumb drag reaches: the drag-start position plus
/// the mouse travel scaled from thumb travel to scroll range, clamped into
/// `[0, max_scroll]` — computed from the drag start, not incrementally, so
/// repeated updates cannot drift.
pub open spec fn spec_drag_scroll(
    start_scroll: int,
    mouse_delta: int,
    thumb_travel: int,
    max_scroll: int,
) -> int {
    if thumb_travel <= 0 || max_scroll <= 0 {
        start_scroll
    } else {
        let moved = crate::stylesheet::spec_tdiv(mouse_delta * max_scroll, thumb_travel);
        let target = start_scroll + moved;
        if target < 0 {
            0
        } else if target > max_scroll {
            max_scroll
        } else {
            target
        }
    }
}

/// Scroll position reached by dragging the thumb `mouse_delta` pixels from
/// a drag that began at `start_scroll`.
pub fn update_thumb_drag(start_scroll: i64, mouse_delta: i64, thumb_travel: i64, max_scroll: i64) -> (
    r: i64)
    requires
        0 <= start_scroll <= max_scroll,
        max_scroll <= MAX_PX,
        -MAX_PX <= mouse_delta <= MAX_PX,
        thumb_travel <= MAX_PX,
    ensures
        r == spec_drag_scroll(
            start_scroll as int,
            mouse_delta as int,
            thumb_travel as int,
            max_scroll as int,
        ),
        thumb_travel > 0 && max_scroll > 0 ==> 0 <= r <= max_scroll,
{
    if thumb_travel <= 0 || max_scroll <= 0 {
        start_scroll
    } else {
        proof {
            assert(mouse_delta * max_scroll <= MAX_PX * MAX_PX && mouse_delta * max_scroll >= -(
            MAX_PX * MAX_PX)) by (nonlinear_arith)
                requires
                    -MAX_PX <= mouse_delta <= MAX_PX,
                    0 <= max_scroll <= MAX_PX,
            ;
        }
        let prod: i128 = (mouse_delta as i128) * (max_scroll as i128);
        let moved128: i128 = if prod >= 0 {
            prod / (thumb_travel as i128)
        } else {
            -((-prod) / (thumb_travel as i128))
        };
        let t128: i128 = (start_scroll as i128) + moved128;
        if t128 < 0 {
            0
        } else if t128 > (max_scroll as i128) {
            max_scroll
        } else {
            t128 as i64
        }
    }
}

} // verus!
