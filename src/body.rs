use vstd::prelude::*;

verus! {

/// Vertical speed given by a jump, in hundredths of a tile per tick.
pub const JUMP: i64 = 85;

/// A horizontal direction of walking.
#[derive(Clone, Copy, Debug, PartialEq, Eq, Structural)]
pub enum Direction {
    Left,
    Right,
}

/// -1 for left, 1 for right.
pub open spec fn dir_sign(d: Direction) -> int {
    match d {
        Direction::Left => -1,
        Direction::Right => 1,
    }
}

/// The other direction.
pub open spec fn opposite(d: Direction) -> Direction {
    match d {
        Direction::Left => Direction::Right,
        Direction::Right => Direction::Left,
    }
}

/// The state of the body as mathematical values.
pub struct BodyModel {
    pub x: int,
    pub y: int,
    pub vx: int,
    pub vy: int,
    pub on_ground: bool,
    pub walk_intent: Option<Direction>,
}

/// The controllable body. Position and velocity are in hundredths of a tile
/// (per tick); `y` grows downwards.
#[derive(Clone, Copy, Debug, PartialEq, Eq, Structural)]
pub struct Body {
    pub x: i64,
    pub y: i64,
    pub vx: i64,
    pub vy: i64,
    pub on_ground: bool,
    pub walk_intent: Option<Direction>,
}

impl View for Body {
    type V = BodyModel;

    open spec fn view(&self) -> BodyModel {
        BodyModel {
            x: self.x as int,
            y: self.y as int,
            vx: self.vx as int,
            vy: self.vy as int,
            on_ground: self.on_ground,
            walk_intent: self.walk_intent,
        }
    }
}

/// Largest position magnitude that one tick is guaranteed to handle.
pub const POS_LIMIT: i64 = 1_099_511_627_776;

/// Largest velocity magnitude that one tick is guaranteed to handle.
pub const VEL_LIMIT: i64 = 100_000_000;

impl BodyModel {
    /// Position and velocity are small enough for one tick to be computed
    /// without overflow.
    pub open spec fn within_limits(&self) -> bool {
        &&& -POS_LIMIT <= self.x <= POS_LIMIT
        &&& -POS_LIMIT <= self.y <= POS_LIMIT
        &&& -VEL_LIMIT <= self.vx <= VEL_LIMIT
        &&& -VEL_LIMIT <= self.vy <= VEL_LIMIT
    }

    /// The walk intent after a press of the key for `d`: pressing the direction
    /// already walked stops, any other press walks that way.
    pub open spec fn toggled(self, d: Direction) -> Option<Direction> {
        if self.walk_intent == Some(d) {
            None
        } else {
            Some(d)
        }
    }
}

/// What the caller should do after a key press.
#[derive(Clone, Copy, Debug, PartialEq, Eq, Structural)]
pub enum KeyAction {
    Continue,
    Quit,
}

impl Body {
    /// A body at rest at tile `(x, y)`, with no intent.
    pub fn spawn(x: u32, y: u32) -> (r: Body)
        ensures
            r@ == (BodyModel {
                x: x as int * 100,
                y: y as int * 100,
                vx: 0,
                vy: 0,
                on_ground: false,
                walk_intent: None,
            }),
    {
        Body {
            x: x as i64 * 100,
            y: y as i64 * 100,
            vx: 0,
            vy: 0,
            on_ground: false,
            walk_intent: None,
        }
    }

    /// Whether one tick can be computed for this body.
    pub fn within_limits(&self) -> (r: bool)
        ensures
            r == self@.within_limits(),
    {
        -POS_LIMIT <= self.x && self.x <= POS_LIMIT && -POS_LIMIT <= self.y && self.y <= POS_LIMIT
            && -VEL_LIMIT <= self.vx && self.vx <= VEL_LIMIT && -VEL_LIMIT <= self.vy
            && self.vy <= VEL_LIMIT
    }
}

/// Jumps when on the ground; does nothing in the air.
pub fn jump(body: &mut Body)
    ensures
        old(body).on_ground ==> final(body)@ == (BodyModel { vy: -JUMP as int, ..old(body)@ }),
        !old(body).on_ground ==> *final(body) == *old(body),
{
    if body.on_ground {
        body.vy = -JUMP;
    }
}

/// A press of the walk key for `d`: stops when already walking that way,
/// otherwise walks that way at once (also when walking the other way).
pub fn walk(body: &mut Body, d: Direction)
    ensures
        final(body)@ == (BodyModel { walk_intent: old(body)@.toggled(d), ..old(body)@ }),
        old(body).walk_intent == Some(d) ==> final(body).walk_intent.is_none(),
        old(body).walk_intent != Some(d) ==> final(body).walk_intent == Some(d),
{
    if body.walk_intent == Some(d) {
        body.walk_intent = None;
    } else {
        body.walk_intent = Some(d);
    }
}

/// Pressing the walk key for `d` while walking that way stops; from standing,
/// two presses start and then stop walking; a press while walking the other
/// way switches direction without stopping.
pub proof fn lemma_walk_key(b: BodyModel, d: Direction)
    ensures
        b.walk_intent == Some(d) ==> b.toggled(d).is_none(),
        b.walk_intent.is_none() ==> b.toggled(d) == Some(d)
            && (BodyModel { walk_intent: b.toggled(d), ..b }).toggled(d).is_none(),
        b.walk_intent == Some(opposite(d)) ==> b.toggled(d) == Some(d),
{
}

/// Applies one input byte: `q` quits, `w` jumps, `a` and `d` toggle walking
/// left and right; any other byte is ignored.
pub fn handle_key(body: &mut Body, key: u8) -> (r: KeyAction)
    ensures
        r == (if key == 113u8 { KeyAction::Quit } else { KeyAction::Continue }),
        key == 119u8 ==> (if old(body).on_ground {
            final(body)@ == (BodyModel { vy: -JUMP as int, ..old(body)@ })
        } else {
            *final(body) == *old(body)
        }),
        key == 97u8 ==> final(body)@ == (BodyModel {
            walk_intent: old(body)@.toggled(Direction::Left),
            ..old(body)@
        }),
        key == 100u8 ==> final(body)@ == (BodyModel {
            walk_intent: old(body)@.toggled(Direction::Right),
            ..old(body)@
        }),
        key != 119u8 && key != 97u8 && key != 100u8 ==> *final(body) == *old(body),
{
    if key == 113u8 {
        KeyAction::Quit
    } else {
        if key == 119u8 {
            jump(body);
        } else if key == 97u8 {
            walk(body, Direction::Left);
        } else if key == 100u8 {
            walk(body, Direction::Right);
        }
        KeyAction::Continue
    }
}

} // verus!
