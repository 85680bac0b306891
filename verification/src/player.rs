//! The walking player: which way they face, the frames of their walk, and the
//! direction the arrow keys point.
use vstd::prelude::*;

verus! {

/// Which way the player faces.
#[derive(Clone, Copy, PartialEq, Eq, Structural, Debug)]
pub enum Direction {
    Up,
    Down,
    Left,
    Right,
}

/// The player's walk: the frames of the sprite sheet for each direction and
/// the place reached in the current one.
pub struct Player {
    pub direction: Direction,
    pub up_animation_indexes: Vec<usize>,
    pub down_animation_indexes: Vec<usize>,
    pub left_animation_indexes: Vec<usize>,
    pub right_animation_indexes: Vec<usize>,
    pub current_animation_index: usize,
    /// Whether the frames are mirrored when walking left.
    pub flipx_animation_l: bool,
    /// Whether the frames are mirrored when walking right.
    pub flipx_animation_r: bool,
}

impl Player {
    /// The frames for the direction the player faces.
    pub open spec fn frames(&self) -> Seq<usize> {
        match self.direction {
            Direction::Up => self.up_animation_indexes@,
            Direction::Down => self.down_animation_indexes@,
            Direction::Left => self.left_animation_indexes@,
            Direction::Right => self.right_animation_indexes@,
        }
    }

    /// The player as they enter the world: facing down, at the first frame,
    /// with the walk cycles of the sprite sheet.
    pub fn spawn() -> (p: Player)
        ensures
            p.direction == Direction::Down,
            p.up_animation_indexes@ == seq![6usize, 7, 6, 8],
            p.down_animation_indexes@ == seq![0usize, 1, 0, 2],
            p.left_animation_indexes@ == seq![3usize, 4, 3, 5],
            p.right_animation_indexes@ == seq![3usize, 4, 3, 5],
            p.current_animation_index == 0,
            p.flipx_animation_l,
            !p.flipx_animation_r,
    {
        let p = Player {
            direction: Direction::Down,
            up_animation_indexes: vec![6, 7, 6, 8],
            down_animation_indexes: vec![0, 1, 0, 2],
            left_animation_indexes: vec![3, 4, 3, 5],
            right_animation_indexes: vec![3, 4, 3, 5],
            current_animation_index: 0,
            flipx_animation_l: true,
            flipx_animation_r: false,
        };
        assert(p.up_animation_indexes@ =~= seq![6usize, 7, 6, 8]);
        assert(p.down_animation_indexes@ =~= seq![0usize, 1, 0, 2]);
        assert(p.left_animation_indexes@ =~= seq![3usize, 4, 3, 5]);
        assert(p.right_animation_indexes@ =~= seq![3usize, 4, 3, 5]);
        p
    }

    /// The frame to show when the animation timer runs out, and whether the
    /// sprite is mirrored: standing still shows the first frame of the
    /// direction; walking moves on to the next frame, and back to the first
    /// after the last. Facing left mirrors the sprite, facing right does not,
    /// and up and down leave it as it was. Only the frames of the direction
    /// faced are looked at; they must not be empty.
    pub fn animate(&mut self, moving: bool) -> (r: AnimationFrame)
        requires
            old(self).frames().len() > 0,
        ensures
            final(self).direction == old(self).direction,
            final(self).frames() == old(self).frames(),
            final(self).up_animation_indexes == old(self).up_animation_indexes,
            final(self).down_animation_indexes == old(self).down_animation_indexes,
            final(self).left_animation_indexes == old(self).left_animation_indexes,
            final(self).right_animation_indexes == old(self).right_animation_indexes,
            final(self).flipx_animation_l == old(self).flipx_animation_l,
            final(self).flipx_animation_r == old(self).flipx_animation_r,
            moving && old(self).current_animation_index + 1 < old(self).frames().len()
                ==> final(self).current_animation_index == old(self).current_animation_index + 1,
            !(moving && old(self).current_animation_index + 1 < old(self).frames().len())
                ==> final(self).current_animation_index == 0,
            final(self).current_animation_index < old(self).frames().len(),
            r.index == old(self).frames()[final(self).current_animation_index as int],
            r.flip_x == spec_flip(old(self).direction),
            old(self).direction == Direction::Left ==> r.flip_x == Some(true),
            old(self).direction == Direction::Right ==> r.flip_x == Some(false),
            (old(self).direction == Direction::Up || old(self).direction == Direction::Down)
                ==> r.flip_x is None,
    {
        let flip_x = match self.direction {
            Direction::Left => Some(true),
            Direction::Right => Some(false),
            _ => None,
        };
        let frames: &Vec<usize> = match self.direction {
            Direction::Up => &self.up_animation_indexes,
            Direction::Down => &self.down_animation_indexes,
            Direction::Left => &self.left_animation_indexes,
            Direction::Right => &self.right_animation_indexes,
        };
        let index;
        let next;
        if !moving {
            index = frames[0];
            next = 0;
        } else if self.current_animation_index >= frames.len() - 1 {
            index = frames[0];
            next = 0;
        } else {
            next = self.current_animation_index + 1;
            index = frames[next];
        }
        self.current_animation_index = next;
        AnimationFrame { index, flip_x }
    }
}

/// A frame of the player's sprite to show.
pub struct AnimationFrame {
    /// Place of the frame in the sprite sheet.
    pub index: usize,
    /// Whether to mirror the sprite, or `None` to leave it as it was.
    pub flip_x: Option<bool>,
}

/// Mirroring for a direction.
pub open spec fn spec_flip(d: Direction) -> Option<bool> {
    match d {
        Direction::Left => Some(true),
        Direction::Right => Some(false),
        _ => None,
    }
}

/// Direction of the arrow and WASD keys held down, before it is scaled to
/// unit length: up or `W` points up, left or `A` left, down or `S` down, right
/// or `D` right; down wins over up and right over left.
pub open spec fn spec_key_velocity(up: bool, left: bool, down: bool, right: bool) -> (i8, i8) {
    let x: i8 = if right { 1i8 } else if left { -1i8 } else { 0i8 };
    let y: i8 = if down { -1i8 } else if up { 1i8 } else { 0i8 };
    (x, y)
}

/// The horizontal direction comes from left and right alone, and the
/// vertical from up and down alone: right points right (1) and wins over
/// left, left alone points left (-1), neither leaves 0; down points down (-1)
/// and wins over up, up alone points up (1), neither leaves 0.
pub proof fn lemma_key_velocity_axes(
    up: bool,
    left: bool,
    down: bool,
    right: bool,
    other_up: bool,
    other_left: bool,
    other_down: bool,
    other_right: bool,
)
    ensures
        spec_key_velocity(up, left, down, right).0 == spec_key_velocity(
            other_up,
            left,
            other_down,
            right,
        ).0,
        spec_key_velocity(up, left, down, right).1 == spec_key_velocity(
            up,
            other_left,
            down,
            other_right,
        ).1,
        right ==> spec_key_velocity(up, left, down, right).0 == 1,
        left && !right ==> spec_key_velocity(up, left, down, right).0 == -1,
        !left && !right ==> spec_key_velocity(up, left, down, right).0 == 0,
        down ==> spec_key_velocity(up, left, down, right).1 == -1,
        up && !down ==> spec_key_velocity(up, left, down, right).1 == 1,
        !up && !down ==> spec_key_velocity(up, left, down, right).1 == 0,
{
}

/// Direction of the keys held down, each coordinate -1, 0 or 1.
pub fn key_velocity(up: bool, left: bool, down: bool, right: bool) -> (v: (i8, i8))
    ensures
        v == spec_key_velocity(up, left, down, right),
        v.0 == (if right { 1i8 } else if left { -1i8 } else { 0i8 }),
        v.1 == (if down { -1i8 } else if up { 1i8 } else { 0i8 }),
{
    let mut x: i8 = 0;
    let mut y: i8 = 0;
    if up {
        y = 1;
    }
    if left {
        x = -1;
    }
    if down {
        y = -1;
    }
    if right {
        x = 1;
    }
    (x, y)
}

/// The way the player faces after moving with a velocity of the given signs:
/// vertical movement decides over horizontal, and a player standing still
/// keeps facing the same way.
pub open spec fn spec_facing(current: Direction, x: int, y: int) -> Direction {
    if y < 0 {
        Direction::Down
    } else if y > 0 {
        Direction::Up
    } else if x < 0 {
        Direction::Left
    } else if x > 0 {
        Direction::Right
    } else {
        current
    }
}

/// The way the player faces after moving with a velocity whose components
/// have the signs of `x` and `y`.
pub fn player_movement_facing(current: Direction, x: i8, y: i8) -> (d: Direction)
    ensures
        d == spec_facing(current, x as int, y as int),
        y < 0 ==> d == Direction::Down,
        y > 0 ==> d == Direction::Up,
        y == 0 && x < 0 ==> d == Direction::Left,
        y == 0 && x > 0 ==> d == Direction::Right,
        y == 0 && x == 0 ==> d == current,
{
    let mut d = current;
    if x > 0 {
        d = Direction::Right;
    }
    if x < 0 {
        d = Direction::Left;
    }
    if y > 0 {
        d = Direction::Up;
    }
    if y < 0 {
        d = Direction::Down;
    }
    d
}

/// Walking with the keys turns the player the way the keys point.
pub proof fn lemma_keys_turn_player(current: Direction, up: bool, left: bool, down: bool, right: bool)
    ensures
        ({
            let (x, y) = spec_key_velocity(up, left, down, right);
            let d = spec_facing(current, x as int, y as int);
            &&& down ==> d == Direction::Down
            &&& up && !down ==> d == Direction::Up
            &&& !up && !down && right ==> d == Direction::Right
            &&& !up && !down && left && !right ==> d == Direction::Left
            &&& !up && !down && !left && !right ==> d == current
        }),
{
}

} // verus!
