use vstd::prelude::*;
use crate::world::{CellKind, TileWorld};

verus! {

/// The tile a level character stands for: `#` is solid, anything else (the
/// spawn marker `@` included) is empty.
pub open spec fn tile_of(c: char) -> CellKind {
    if c == '#' { CellKind::Solid } else { CellKind::Empty }
}

/// The rows of a level text: split at each newline, each character a tile.
pub open spec fn level_rows(s: Seq<char>) -> Seq<Seq<CellKind>>
    decreases s.len(),
{
    if s.len() == 0 {
        seq![Seq::empty()]
    } else {
        let prev = level_rows(s.drop_last());
        if s.last() == '\n' {
            prev.push(Seq::empty())
        } else {
            prev.update(prev.len() - 1, prev.last().push(tile_of(s.last())))
        }
    }
}

/// The length of the longest row.
pub open spec fn max_len(rows: Seq<Seq<CellKind>>) -> int
    decreases rows.len(),
{
    if rows.len() == 0 {
        0
    } else {
        let m = max_len(rows.drop_last());
        if rows.last().len() > m { rows.last().len() as int } else { m }
    }
}

/// The number of spawn markers in the text.
pub open spec fn spawn_count(s: Seq<char>) -> int
    decreases s.len(),
{
    if s.len() == 0 {
        0
    } else {
        spawn_count(s.drop_last()) + if s.last() == '@' { 1int } else { 0int }
    }
}

/// The tile `(column, row)` of character `i` of the text.
pub open spec fn pos_of(s: Seq<char>, i: int) -> (int, int) {
    let rows = level_rows(s.take(i));
    (rows.last().len() as int, rows.len() - 1)
}

/// Why a level text was refused.
#[derive(Clone, Copy, Debug, PartialEq, Eq, Structural)]
pub enum LevelError {
    MissingSpawn,
    MultipleSpawns,
}

/// A loaded level: the world and the tile where the body starts.
pub struct Level {
    pub world: TileWorld,
    pub spawn_x: usize,
    pub spawn_y: usize,
}

/// Reads a level text: rows split at newlines, `#` solid, exactly one `@`
/// for the spawn tile. The world is as wide as the longest row.
pub fn load_level(text: &Vec<char>) -> (r: Result<Level, LevelError>)
    requires
        text@.len() < i32::MAX,
    ensures
        r matches Err(LevelError::MissingSpawn) <==> spawn_count(text@) == 0,
        r matches Err(LevelError::MultipleSpawns) <==> spawn_count(text@) > 1,
        r matches Ok(l) ==> {
            &&& l.world.wf()
            &&& l.world.grid() == level_rows(text@)
            &&& l.world.height == level_rows(text@).len()
            &&& l.world.width == max_len(level_rows(text@))
            &&& exists|i: int| 0 <= i < text@.len() && text@[i] == '@'
                && pos_of(text@, i) == (l.spawn_x as int, l.spawn_y as int)
        },
{
    let mut rows: Vec<Vec<CellKind>> = Vec::new();
    let mut cur: Vec<CellKind> = Vec::new();
    let mut width: usize = 0;
    let mut count: usize = 0;
    let mut sx: usize = 0;
    let mut sy: usize = 0;
    let ghost mut at: int = 0;
    let mut i: usize = 0;
    while i < text.len()
        invariant
            0 <= i <= text@.len() < i32::MAX,
            level_rows(text@.take(i as int)) == rows@.map_values(|r: Vec<CellKind>| r@).push(cur@),
            rows@.len() <= i,
            cur@.len() <= i,
            width == max_len(rows@.map_values(|r: Vec<CellKind>| r@)),
            width <= i,
            forall|y: int| 0 <= y < rows@.len() ==> #[trigger] rows@[y]@.len() <= width,
            count == spawn_count(text@.take(i as int)),
            count <= i,
            count >= 1 ==> 0 <= at < i && text@[at] == '@'
                && pos_of(text@, at) == (sx as int, sy as int),
            count >= 1 ==> max_len(rows@.map_values(|r: Vec<CellKind>| r@).push(cur@)) >= 1,
        decreases text@.len() - i,
    {
        let c = text[i];
        let ghost old_rows = rows@.map_values(|r: Vec<CellKind>| r@);
        let ghost old_cur = cur@;
        proof {
            assert(text@.take(i + 1).drop_last() =~= text@.take(i as int));
            assert(text@.take(i + 1).last() == c);
            assert(text@.take(i as int + 1).take(i as int) =~= text@.take(i as int));
            assert(pos_of(text@, i as int) == (cur@.len() as int, rows@.len() as int));
        }
        if c == '@' {
            if count == 0 {
                sx = cur.len();
                sy = rows.len();
                proof { at = i as int; }
            }
            count += 1;
        }
        if c == '\n' {
            if cur.len() > width {
                width = cur.len();
            }
            rows.push(cur);
            cur = Vec::new();
            proof {
                assert(rows@.map_values(|r: Vec<CellKind>| r@) =~= old_rows.push(old_cur));
                assert(level_rows(text@.take(i + 1)) =~= old_rows.push(old_cur).push(Seq::empty()));
                let nr = rows@.map_values(|r: Vec<CellKind>| r@);
                assert(nr.drop_last() =~= old_rows);
                assert(nr.push(cur@).drop_last() =~= nr);
            }
        } else {
            let t = if c == '#' { CellKind::Solid } else { CellKind::Empty };
            cur.push(t);
            proof {
                let lr = old_rows.push(old_cur);
                assert(level_rows(text@.take(i + 1)) =~= lr.update(lr.len() - 1, old_cur.push(t)));
                assert(lr.update(lr.len() - 1, old_cur.push(t)) =~= old_rows.push(cur@));
                assert(old_rows.push(cur@).drop_last() =~= old_rows);
            }
        }
        i += 1;
    }
    proof {
        assert(text@.take(i as int) =~= text@);
    }
    if count == 0 {
        return Err(LevelError::MissingSpawn);
    }
    if count > 1 {
        return Err(LevelError::MultipleSpawns);
    }
    let ghost last_rows = rows@.map_values(|r: Vec<CellKind>| r@);
    if cur.len() > width {
        width = cur.len();
    }
    rows.push(cur);
    let height = rows.len();
    proof {
        let nr = rows@.map_values(|r: Vec<CellKind>| r@);
        assert(nr =~= last_rows.push(nr.last()));
        assert(nr.drop_last() =~= last_rows);
        assert forall|y: int| 0 <= y < height implies #[trigger] rows@[y]@.len() <= width by {
            if y < height - 1 {
                assert(rows@[y]@ == last_rows[y]);
            }
        }
    }
    let world = TileWorld { width, height, rows };
    proof {
        assert(world.grid() =~= level_rows(text@));
    }
    Ok(Level { world, spawn_x: sx, spawn_y: sy })
}

} // verus!
