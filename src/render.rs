use vstd::prelude::*;
use crate::body::{Body, BodyModel};
use crate::viewport::Viewport;
use crate::world::{CellKind, TileWorld, SCALE};

verus! {

/// The character shown for tile `(x, y)`: the body where it stands (its
/// position floored to a tile), else `#` for solid and a space for empty.
pub open spec fn glyph(w: TileWorld, b: BodyModel, x: int, y: int) -> char {
    if b.x >= 0 && b.y >= 0 && b.x / SCALE as int == x && b.y / SCALE as int == y {
        '@'
    } else if w.solid(x, y) {
        '#'
    } else {
        ' '
    }
}

/// The visible part of world row `y`.
pub open spec fn row_text(w: TileWorld, v: Viewport, b: BodyModel, y: int) -> Seq<char> {
    Seq::new(v.width as nat, |i: int| glyph(w, b, v.left + i, y))
}

/// The first `n` visible rows, joined by `"\r\n"`, with no separator after
/// the last.
pub open spec fn frame_text(w: TileWorld, v: Viewport, b: BodyModel, n: int) -> Seq<char>
    decreases n,
{
    if n <= 0 {
        Seq::empty()
    } else if n == 1 {
        row_text(w, v, b, v.top as int)
    } else {
        frame_text(w, v, b, n - 1) + seq!['\r', '\n'] + row_text(w, v, b, v.top + n - 1)
    }
}

fn glyph_at(w: &TileWorld, b: &Body, x: usize, y: usize) -> (r: char)
    requires
        w.wf(),
        x <= i32::MAX,
        y <= i32::MAX,
    ensures
        r == glyph(*w, b@, x as int, y as int),
{
    if b.x >= 0 && b.y >= 0 && b.x / SCALE == x as i64 && b.y / SCALE == y as i64 {
        '@'
    } else if y < w.rows.len() && x < w.rows[y].len() && w.rows[y][x] == CellKind::Solid {
        '#'
    } else {
        ' '
    }
}

/// Draws the visible window: one line per visible row, one character per
/// visible column, lines joined by `"\r\n"`.
pub fn render(w: &TileWorld, v: &Viewport, body: &Body) -> (r: Vec<char>)
    requires
        w.wf(),
        v.inside(w),
    ensures
        r@ == frame_text(*w, *v, body@, v.height as int),
{
    let mut out: Vec<char> = Vec::new();
    let mut j: usize = 0;
    while j < v.height
        invariant
            w.wf(),
            v.inside(w),
            0 <= j <= v.height,
            out@ == frame_text(*w, *v, body@, j as int),
        decreases v.height - j,
    {
        if j > 0 {
            out.push('\r');
            out.push('\n');
        }
        let ghost prefix = out@;
        let y = v.top + j;
        let mut i: usize = 0;
        while i < v.width
            invariant
                w.wf(),
                v.inside(w),
                0 <= i <= v.width,
                j < v.height,
                y == v.top + j,
                out@ == prefix + row_text(*w, *v, body@, y as int).take(i as int),
            decreases v.width - i,
        {
            let c = glyph_at(w, body, v.left + i, y);
            out.push(c);
            proof {
                assert(row_text(*w, *v, body@, y as int).take(i + 1) =~= row_text(*w, *v, body@, y as int).take(i as int).push(c));
            }
            i += 1;
        }
        proof {
            assert(row_text(*w, *v, body@, y as int).take(v.width as int) =~= row_text(*w, *v, body@, y as int));
            if j == 0 {
                assert(prefix =~= Seq::<char>::empty());
                assert(out@ =~= frame_text(*w, *v, body@, 1));
            } else {
                assert(out@ =~= frame_text(*w, *v, body@, j + 1));
            }
        }
        j += 1;
    }
    out
}

} // verus!
