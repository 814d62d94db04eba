//! Actors on the board: their movement, chase step and collisions.

use crate::grid::{centre_coord, centre_of, in_bounds, GridPos};
use vstd::prelude::*;

verus! {

/// The scene graph's handle for a sprite; actors carry it and never look inside.
#[verifier::external_type_specification]
#[verifier::external_body]
pub struct ExUuid(uuid::Uuid);

/// A frog or a robot: where it stands, whether it lives, whether it moved
/// during the current frame, and the sprite that draws it.
#[derive(Clone, Copy, Debug)]
pub struct Actor {
    pub pos: GridPos,
    pub sprite_uuid: uuid::Uuid,
    pub alive: bool,
    pub moved: bool,
}

/// An actor whose sprite has not been added to the scene yet.
#[derive(Clone, Copy, Debug)]
pub struct ActorInProgress {
    pub pos: GridPos,
    pub alive: bool,
    pub sprite_name: &'static str,
}

/// One step of `from` towards `to` along one axis: one closer, or none if equal.
pub open spec fn step_towards(from: int, to: int) -> int {
    if to > from {
        from + 1
    } else if to < from {
        from - 1
    } else {
        from
    }
}

/// Distance between two values along one axis.
pub open spec fn dist(a: int, b: int) -> int {
    if a >= b {
        a - b
    } else {
        b - a
    }
}

/// Two actors collide when they stand on the same cell.
pub open spec fn collides_spec(a: Actor, b: Actor) -> bool {
    a.pos == b.pos
}

/// The cell that a chaser at `from` steps to when it chases a target at `to`.
pub open spec fn chase_pos(from: GridPos, to: GridPos) -> GridPos {
    GridPos {
        col: step_towards(from.col as int, to.col as int) as usize,
        row: step_towards(from.row as int, to.row as int) as usize,
    }
}

/// `a` with its position replaced.
pub open spec fn with_pos(a: Actor, pos: GridPos) -> Actor {
    Actor { pos, sprite_uuid: a.sprite_uuid, alive: a.alive, moved: a.moved }
}

/// `a` with its life flag replaced.
pub open spec fn with_alive(a: Actor, alive: bool) -> Actor {
    Actor { pos: a.pos, sprite_uuid: a.sprite_uuid, alive, moved: a.moved }
}

/// `a` with its moved flag replaced.
pub open spec fn with_moved(a: Actor, moved: bool) -> Actor {
    Actor { pos: a.pos, sprite_uuid: a.sprite_uuid, alive: a.alive, moved }
}

impl Actor {
    /// The actor stands on the board.
    pub open spec fn wf(&self) -> bool {
        self.pos.wf()
    }

    /// Whether this actor stands on the same cell as `other_actor`.
    pub fn collides(&self, other_actor: &Actor) -> (r: bool)
        ensures
            r == collides_spec(*self, *other_actor),
    {
        other_actor.pos.col == self.pos.col && other_actor.pos.row == self.pos.row
    }

    /// Scene abscissa of the centre of the actor's cell.
    pub fn scene_x(&self) -> (r: usize)
        requires
            self.wf(),
        ensures
            r == centre_of(self.pos.col as int),
    {
        centre_coord(self.pos.col)
    }

    /// Scene ordinate of the centre of the actor's cell.
    pub fn scene_y(&self) -> (r: usize)
        requires
            self.wf(),
        ensures
            r == centre_of(self.pos.row as int),
    {
        centre_coord(self.pos.row)
    }

    /// Steps one cell towards `other_actor` on each axis where the two differ.
    /// The distance to the target never grows on either axis.
    pub fn move_towards(&mut self, other_actor: &Actor)
        ensures
            *final(self) == with_pos(*old(self), chase_pos(old(self).pos, other_actor.pos)),
            dist(final(self).pos.col as int, other_actor.pos.col as int) <= dist(
                old(self).pos.col as int,
                other_actor.pos.col as int,
            ),
            dist(final(self).pos.row as int, other_actor.pos.row as int) <= dist(
                old(self).pos.row as int,
                other_actor.pos.row as int,
            ),
            old(self).wf() && other_actor.wf() ==> final(self).wf(),
    {
        let (target_col, target_row) = (other_actor.pos.col, other_actor.pos.row);
        let (own_col, own_row) = (self.pos.col, self.pos.row);
        if target_col > own_col {
            self.pos.col = self.pos.col + 1;
        } else if target_col < own_col {
            self.pos.col = self.pos.col - 1;
        }
        if target_row > own_row {
            self.pos.row = self.pos.row + 1;
        } else if target_row < own_row {
            self.pos.row = self.pos.row - 1;
        }
    }

    /// Moves by `x` columns and `y` rows and sets the moved flag, when the
    /// cell reached lies on the board; otherwise leaves the actor as it was.
    pub fn move_by(&mut self, x: isize, y: isize)
        requires
            old(self).wf(),
            -1 <= x <= 1,
            -1 <= y <= 1,
        ensures
            in_bounds(old(self).pos.col + x, old(self).pos.row + y) ==> *final(self) == with_moved(
                with_pos(
                    *old(self),
                    GridPos {
                        col: (old(self).pos.col + x) as usize,
                        row: (old(self).pos.row + y) as usize,
                    },
                ),
                true,
            ),
            !in_bounds(old(self).pos.col + x, old(self).pos.row + y) ==> *final(self) == *old(self),
            final(self).wf(),
    {
        let new_x = (self.pos.col as isize) + x;
        let new_y = (self.pos.row as isize) + y;
        if new_x >= 0 && new_y >= 0 && new_x < 8 && new_y < 6 {
            self.pos.col = new_x as usize;
            self.pos.row = new_y as usize;
            self.moved = true;
        }
    }
}

impl ActorInProgress {
    /// The actor will stand on the board.
    pub open spec fn wf(&self) -> bool {
        self.pos.wf()
    }

    /// Scene abscissa of the centre of the actor's cell.
    pub fn scene_x(&self) -> (r: usize)
        requires
            self.wf(),
        ensures
            r == centre_of(self.pos.col as int),
    {
        centre_coord(self.pos.col)
    }

    /// Scene ordinate of the centre of the actor's cell.
    pub fn scene_y(&self) -> (r: usize)
        requires
            self.wf(),
        ensures
            r == centre_of(self.pos.row as int),
    {
        centre_coord(self.pos.row)
    }

    /// The finished actor, drawn by the sprite `sprite_uuid`; it has not moved yet.
    pub fn to_actor(&self, sprite_uuid: uuid::Uuid) -> (r: Actor)
        ensures
            r == (Actor { pos: self.pos, sprite_uuid, alive: self.alive, moved: false }),
    {
        Actor { pos: self.pos, sprite_uuid, alive: self.alive, moved: false }
    }
}

/// Collision does not depend on which of the two actors asks.
pub proof fn lemma_collides_symmetric(a: Actor, b: Actor)
    ensures
        collides_spec(a, b) == collides_spec(b, a),
{
}

/// A chase step never moves the chaser further from its target on either axis.
pub proof fn lemma_chase_never_farther(from: GridPos, to: GridPos)
    ensures
        dist(chase_pos(from, to).col as int, to.col as int) <= dist(from.col as int, to.col as int),
        dist(chase_pos(from, to).row as int, to.row as int) <= dist(from.row as int, to.row as int),
{
}

} // verus!
