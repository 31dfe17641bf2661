use vstd::prelude::*;
use crate::body::Body;
use crate::world::{TileWorld, SCALE};

verus! {

/// Percentage of the window past which the body pushes the window right
/// (or down).
pub const HIGH_MARK: i64 = 66;

/// Percentage of the window before which the body pulls the window left
/// (or up).
pub const LOW_MARK: i64 = 33;

/// The visible window onto the world: top-left tile and size in tiles.
#[derive(Clone, Copy, Debug, PartialEq, Eq, Structural)]
pub struct Viewport {
    pub left: usize,
    pub top: usize,
    pub width: usize,
    pub height: usize,
}

/// The new origin along one axis. `origin` and `vis` are in tiles, `extent` is
/// the world's size along the axis, `p` the body's fixed-point coordinate.
/// Past 66% of the window it moves so that the body sits at 66%, never past the
/// world's far edge; before 33% it moves back so that the body sits at 33%,
/// never before 0; in between it stays.
pub open spec fn follow_axis(origin: int, vis: int, extent: int, p: int) -> int {
    let s = SCALE as int;
    if p > origin * s + vis * HIGH_MARK {
        if origin + vis < extent {
            let target = (p - vis * HIGH_MARK) / s;
            if target <= extent - vis { target } else { extent - vis }
        } else {
            origin
        }
    } else if p < origin * s + vis * LOW_MARK {
        if origin > 0 {
            if p - vis * LOW_MARK <= 0 { 0 } else { (p - vis * LOW_MARK) / s }
        } else {
            origin
        }
    } else {
        origin
    }
}

impl Viewport {
    /// The window lies inside the world.
    pub open spec fn inside(&self, w: &TileWorld) -> bool {
        &&& self.left + self.width <= w.width
        &&& self.top + self.height <= w.height
    }

    /// A window at the world's top-left corner, as large as the display
    /// allows and no larger than the world.
    pub fn new(w: &TileWorld, display_width: u16, display_height: u16) -> (r: Viewport)
        requires
            w.wf(),
        ensures
            r.left == 0,
            r.top == 0,
            r.width == if (display_width as int) < w.width { display_width as int } else { w.width as int },
            r.height == if (display_height as int) < w.height { display_height as int } else { w.height as int },
            r.inside(w),
    {
        let width = if (display_width as usize) < w.width { display_width as usize } else { w.width };
        let height = if (display_height as usize) < w.height { display_height as usize } else { w.height };
        Viewport { left: 0, top: 0, width, height }
    }

    /// Moves the window after the body, on both axes.
    pub fn follow(&mut self, w: &TileWorld, body: &Body)
        requires
            w.wf(),
            old(self).inside(w),
        ensures
            final(self).left == follow_axis(old(self).left as int, old(self).width as int, w.width as int, body.x as int),
            final(self).top == follow_axis(old(self).top as int, old(self).height as int, w.height as int, body.y as int),
            final(self).width == old(self).width,
            final(self).height == old(self).height,
            final(self).inside(w),
    {
        self.left = follow_axis_exec(self.left, self.width, w.width, body.x);
        self.top = follow_axis_exec(self.top, self.height, w.height, body.y);
    }
}

fn follow_axis_exec(origin: usize, vis: usize, extent: usize, p: i64) -> (r: usize)
    requires
        origin + vis <= extent <= i32::MAX,
    ensures
        r == follow_axis(origin as int, vis as int, extent as int, p as int),
        r + vis <= extent,
{
    let o = origin as i64;
    let v = vis as i64;
    let e = extent as i64;
    if p > o * SCALE + v * HIGH_MARK {
        if o + v < e {
            let target = (p - v * HIGH_MARK) / SCALE;
            if target <= e - v { target as usize } else { (e - v) as usize }
        } else {
            origin
        }
    } else if p < o * SCALE + v * LOW_MARK {
        if o > 0 {
            if p <= v * LOW_MARK { 0 } else { ((p - v * LOW_MARK) / SCALE) as usize }
        } else {
            origin
        }
    } else {
        origin
    }
}

/// Following the body never moves a window that lies inside the world out of
/// it: the origin stays at or above 0 and `origin + visible size` stays within
/// the world's size, on each axis.
pub proof fn lemma_follow_stays_inside(origin: int, vis: int, extent: int, p: int)
    requires
        0 <= origin,
        0 <= vis,
        origin + vis <= extent,
    ensures
        0 <= follow_axis(origin, vis, extent, p),
        follow_axis(origin, vis, extent, p) + vis <= extent,
{
}

} // verus!
