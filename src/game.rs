//! One frog and a pool of robots: the collision phase and the handling of
//! the player's commands that make up each frame.

use crate::actor::{chase_pos, collides_spec, with_alive, with_moved, with_pos, Actor};
use crate::grid::{in_bounds, GridPos};
use vstd::prelude::*;

verus! {

/// Number of robots placed at the start of a game.
pub const ROBOT_COUNT: usize = 4;

/// The eight neighbouring cells a step can reach.
#[derive(Clone, Copy, Debug, PartialEq, Eq, Structural)]
pub enum Direction {
    NorthWest,
    North,
    NorthEast,
    West,
    East,
    SouthWest,
    South,
    SouthEast,
}

/// What the player asks the frog to do.
#[derive(Clone, Copy, Debug, PartialEq, Eq, Structural)]
pub enum Command {
    /// Step to a neighbouring cell.
    Step(Direction),
    /// Jump to a cell drawn at random.
    Relocate,
}

/// Column and row offsets of a step; rows grow southwards.
pub open spec fn offset_spec(d: Direction) -> (int, int) {
    match d {
        Direction::NorthWest => (-1, -1),
        Direction::North => (0, -1),
        Direction::NorthEast => (1, -1),
        Direction::West => (-1, 0),
        Direction::East => (1, 0),
        Direction::SouthWest => (-1, 1),
        Direction::South => (0, 1),
        Direction::SouthEast => (1, 1),
    }
}

/// The command bound to a key, given as its lower-case character.
pub open spec fn key_command(key: char) -> Option<Command> {
    if key == 'q' {
        Some(Command::Step(Direction::NorthWest))
    } else if key == 'w' {
        Some(Command::Step(Direction::North))
    } else if key == 'e' {
        Some(Command::Step(Direction::NorthEast))
    } else if key == 'a' {
        Some(Command::Step(Direction::West))
    } else if key == 'd' {
        Some(Command::Step(Direction::East))
    } else if key == 'z' {
        Some(Command::Step(Direction::SouthWest))
    } else if key == 'x' {
        Some(Command::Step(Direction::South))
    } else if key == 'c' {
        Some(Command::Step(Direction::SouthEast))
    } else if key == 't' {
        Some(Command::Relocate)
    } else {
        None
    }
}

impl Direction {
    /// Column and row offsets of a step in this direction.
    pub fn offset(&self) -> (r: (isize, isize))
        ensures
            r.0 == offset_spec(*self).0,
            r.1 == offset_spec(*self).1,
    {
        match self {
            Direction::NorthWest => (-1, -1),
            Direction::North => (0, -1),
            Direction::NorthEast => (1, -1),
            Direction::West => (-1, 0),
            Direction::East => (1, 0),
            Direction::SouthWest => (-1, 1),
            Direction::South => (0, 1),
            Direction::SouthEast => (1, 1),
        }
    }
}

/// Maps a key, given as its lower-case character, to the command bound to it.
pub fn command_for_key(key: char) -> (r: Option<Command>)
    ensures
        r == key_command(key),
{
    if key == 'q' {
        Some(Command::Step(Direction::NorthWest))
    } else if key == 'w' {
        Some(Command::Step(Direction::North))
    } else if key == 'e' {
        Some(Command::Step(Direction::NorthEast))
    } else if key == 'a' {
        Some(Command::Step(Direction::West))
    } else if key == 'd' {
        Some(Command::Step(Direction::East))
    } else if key == 'z' {
        Some(Command::Step(Direction::SouthWest))
    } else if key == 'x' {
        Some(Command::Step(Direction::South))
    } else if key == 'c' {
        Some(Command::Step(Direction::SouthEast))
    } else if key == 't' {
        Some(Command::Relocate)
    } else {
        None
    }
}

/// Where the frog at `from` ends up after `cmd`, or `None` when a step would
/// leave the board. `relocation` is the cell drawn for a jump.
pub open spec fn command_target(from: GridPos, cmd: Command, relocation: GridPos) -> Option<GridPos> {
    match cmd {
        Command::Step(d) => {
            let col = from.col + offset_spec(d).0;
            let row = from.row + offset_spec(d).1;
            if in_bounds(col, row) {
                Some(GridPos { col: col as usize, row: row as usize })
            } else {
                None
            }
        },
        Command::Relocate => Some(relocation),
    }
}

/// Whether a live frog stands on the cell of some robot, dead or alive.
pub open spec fn frog_hit(frog: Actor, robots: Seq<Actor>) -> bool {
    frog.alive && exists|i: int| 0 <= i < robots.len() && collides_spec(frog, #[trigger] robots[i])
}

/// The frog after the collision check against `robots`.
pub open spec fn frog_after_check(frog: Actor, robots: Seq<Actor>) -> Actor {
    with_alive(frog, frog.alive && !frog_hit(frog, robots))
}

/// Whether robot `j` is alive when robot `i` is checked: robots before `i`
/// have been checked already and have their flag from `after`, the others
/// still have theirs from `before`.
pub open spec fn alive_during_pass(before: Seq<Actor>, after: Seq<Actor>, i: int, j: int) -> bool {
    if j < i {
        after[j].alive
    } else {
        before[j].alive
    }
}

/// Whether live robot `i` meets another live robot on its cell during the
/// pass that checks the robots in order.
pub open spec fn wrecked_in_pass(before: Seq<Actor>, after: Seq<Actor>, i: int) -> bool {
    before[i].alive && exists|j: int|
        0 <= j < before.len() && j != i && #[trigger] before[j].pos == before[i].pos
            && alive_during_pass(before, after, i, j)
}

/// `after` is the outcome of checking the robots of `before` in order against
/// each other: each robot that meets a live one on its cell dies.
pub open spec fn robot_pass(before: Seq<Actor>, after: Seq<Actor>) -> bool {
    &&& after.len() == before.len()
    &&& forall|i: int|
        0 <= i < before.len() ==> #[trigger] after[i] == with_alive(
            before[i],
            before[i].alive && !wrecked_in_pass(before, after, i),
        )
}

/// The frog and the robots that chase it.
pub struct Game {
    pub frog: Actor,
    pub robots: Vec<Actor>,
}

impl Game {
    /// Every actor stands on the board.
    pub open spec fn wf(&self) -> bool {
        &&& self.frog.wf()
        &&& forall|i: int| 0 <= i < self.robots@.len() ==> (#[trigger] self.robots@[i]).wf()
    }

    /// A game with the given frog and robots.
    pub fn new(frog: Actor, robots: Vec<Actor>) -> (r: Game)
        ensures
            r.frog == frog,
            r.robots@ == robots@,
    {
        Game { frog, robots }
    }

    /// Kills the frog if it is alive and stands on a robot's cell. Returns
    /// whether it died now; a frog that is already dead stays as it is.
    pub fn check_frog(&mut self) -> (died: bool)
        ensures
            died == frog_hit(old(self).frog, old(self).robots@),
            final(self).frog == frog_after_check(old(self).frog, old(self).robots@),
            final(self).robots@ == old(self).robots@,
    {
        let ghost start = self.frog;
        let mut died = false;
        let mut i: usize = 0;
        while i < self.robots.len()
            invariant
                i <= self.robots@.len(),
                self.robots@ == old(self).robots@,
                start == old(self).frog,
                died == (start.alive && exists|j: int|
                    0 <= j < i && collides_spec(start, #[trigger] self.robots@[j])),
                self.frog == with_alive(start, start.alive && !died),
            decreases self.robots@.len() - i,
        {
            let hit = self.frog.collides(&self.robots[i]);
            proof {
                if hit {
                    assert(collides_spec(start, self.robots@[i as int]));
                }
            }
            if hit && self.frog.alive {
                self.frog.alive = false;
                died = true;
            }
            i = i + 1;
        }
        died
    }

    /// Whether a live robot other than robot `i` stands on robot `i`'s cell.
    fn meets_live_robot(&self, i: usize) -> (r: bool)
        requires
            i < self.robots@.len(),
        ensures
            r == exists|j: int|
                0 <= j < self.robots@.len() && j != i && #[trigger] self.robots@[j].pos
                    == self.robots@[i as int].pos && self.robots@[j].alive,
    {
        let mut met = false;
        let mut j: usize = 0;
        while j < self.robots.len()
            invariant
                i < self.robots@.len(),
                j <= self.robots@.len(),
                met == exists|k: int|
                    0 <= k < j && k != i && #[trigger] self.robots@[k].pos
                        == self.robots@[i as int].pos && self.robots@[k].alive,
            decreases self.robots@.len() - j,
        {
            if j != i && self.robots[j].alive && self.robots[i].collides(&self.robots[j]) {
                met = true;
            }
            j = j + 1;
        }
        met
    }

    /// Checks the robots in order against each other: a live robot that meets
    /// another live robot on its cell dies, so of a group of live robots on one
    /// cell all but the last one checked die. Returns the indices of the robots
    /// that died, in increasing order; each leaves a wreck where it stood.
    pub fn check_robots(&mut self) -> (wrecked: Vec<usize>)
        ensures
            robot_pass(old(self).robots@, final(self).robots@),
            final(self).frog == old(self).frog,
            forall|k: int, l: int| 0 <= k < l < wrecked@.len() ==> wrecked@[k] < wrecked@[l],
            forall|k: int| 0 <= k < wrecked@.len() ==> wrecked@[k] < old(self).robots@.len(),
            forall|i: int|
                0 <= i < old(self).robots@.len() ==> (wrecked@.contains(i as usize)
                    <==> wrecked_in_pass(old(self).robots@, final(self).robots@, i)),
    {
        let ghost before = self.robots@;
        let mut wrecked: Vec<usize> = Vec::new();
        let mut i: usize = 0;
        while i < self.robots.len()
            invariant
                before == old(self).robots@,
                self.frog == old(self).frog,
                self.robots@.len() == before.len(),
                i <= before.len(),
                forall|k: int|
                    0 <= k < i ==> #[trigger] self.robots@[k] == with_alive(
                        before[k],
                        before[k].alive && !wrecked_in_pass(before, self.robots@, k),
                    ),
                forall|k: int| i <= k < before.len() ==> #[trigger] self.robots@[k] == before[k],
                forall|k: int, l: int| 0 <= k < l < wrecked@.len() ==> wrecked@[k] < wrecked@[l],
                forall|k: int| 0 <= k < wrecked@.len() ==> wrecked@[k] < i,
                forall|k: int|
                    0 <= k < i ==> (wrecked@.contains(k as usize) <==> wrecked_in_pass(
                        before,
                        self.robots@,
                        k,
                    )),
            decreases before.len() - i,
        {
            let met = self.meets_live_robot(i);
            let ghost cur = self.robots@;
            proof {
                assert(met == wrecked_in_pass(before, cur, i as int) || !before[i as int].alive) by {
                    if met {
                        let j = choose|j: int|
                            0 <= j < cur.len() && j != i && #[trigger] cur[j].pos
                                == cur[i as int].pos && cur[j].alive;
                        assert(before[j].pos == before[i as int].pos);
                    }
                    if wrecked_in_pass(before, cur, i as int) {
                        let j = choose|j: int|
                            0 <= j < before.len() && j != i && #[trigger] before[j].pos
                                == before[i as int].pos && alive_during_pass(before, cur, i as int, j);
                        assert(cur[j].pos == cur[i as int].pos);
                    }
                }
            }
            let ghost old_wrecked = wrecked@;
            if self.robots[i].alive && met {
                self.robots[i].alive = false;
                wrecked.push(i);
            }
            proof {
                assert(!old_wrecked.contains(i));
                assert forall|k: int| 0 <= k <= i implies wrecked@.contains(k as usize) == (
                old_wrecked.contains(k as usize) || (k == i && before[k].alive && met)) by {
                    if wrecked@.contains(k as usize) && !old_wrecked.contains(k as usize) {
                        let n = choose|n: int| 0 <= n < wrecked@.len() && wrecked@[n] == k as usize;
                        assert(n == old_wrecked.len());
                    }
                    if old_wrecked.contains(k as usize) {
                        let n = choose|n: int| 0 <= n < old_wrecked.len() && old_wrecked[n] == k as usize;
                        assert(wrecked@[n] == k as usize);
                    }
                    if k == i && before[k].alive && met {
                        assert(wrecked@[wrecked@.len() - 1] == i);
                    }
                }
                assert forall|k: int| 0 <= k <= i implies wrecked_in_pass(before, self.robots@, k)
                    == wrecked_in_pass(before, cur, k) by {
                    if wrecked_in_pass(before, self.robots@, k) {
                        let j = choose|j: int|
                            0 <= j < before.len() && j != k && #[trigger] before[j].pos
                                == before[k].pos && alive_during_pass(before, self.robots@, k, j);
                        assert(alive_during_pass(before, cur, k, j));
                    }
                    if wrecked_in_pass(before, cur, k) {
                        let j = choose|j: int|
                            0 <= j < before.len() && j != k && #[trigger] before[j].pos
                                == before[k].pos && alive_during_pass(before, cur, k, j);
                        assert(alive_during_pass(before, self.robots@, k, j));
                    }
                }
                assert forall|k: int| 0 <= k <= i implies (wrecked@.contains(k as usize)
                    <==> wrecked_in_pass(before, self.robots@, k)) by {
                    assert(wrecked_in_pass(before, self.robots@, k) == wrecked_in_pass(before, cur, k));
                    if k < i {
                        assert(old_wrecked.contains(k as usize) == wrecked_in_pass(before, cur, k));
                    }
                }
            }
            i = i + 1;
        }
        wrecked
    }

    /// Carries out `cmd` for a live frog; a dead frog ignores it. A step that
    /// would leave the board is refused and clears the frog's moved flag.
    /// When the frog moves (a step, or a jump to `relocation`) every live
    /// robot then takes one chase step towards the frog's new cell. Returns
    /// whether the frog moved.
    pub fn handle_command(&mut self, cmd: Command, relocation: GridPos) -> (moved: bool)
        requires
            old(self).wf(),
            relocation.wf(),
        ensures
            final(self).wf(),
            !old(self).frog.alive ==> !moved && *final(self) == *old(self),
            old(self).frog.alive ==> match command_target(old(self).frog.pos, cmd, relocation) {
                None => {
                    &&& !moved
                    &&& final(self).frog == with_moved(old(self).frog, false)
                    &&& final(self).robots@ == old(self).robots@
                },
                Some(t) => {
                    &&& moved
                    &&& final(self).frog == with_moved(with_pos(old(self).frog, t), true)
                    &&& final(self).robots@.len() == old(self).robots@.len()
                    &&& forall|i: int|
                        0 <= i < old(self).robots@.len() ==> #[trigger] final(self).robots@[i] == (
                        if old(self).robots@[i].alive {
                            with_pos(old(self).robots@[i], chase_pos(old(self).robots@[i].pos, t))
                        } else {
                            old(self).robots@[i]
                        })
                },
            },
    {
        if !self.frog.alive {
            return false;
        }
        self.frog.moved = false;
        match cmd {
            Command::Step(d) => {
                let (dx, dy) = d.offset();
                self.frog.move_by(dx, dy);
            },
            Command::Relocate => {
                self.frog.pos = relocation;
                self.frog.moved = true;
            },
        }
        if self.frog.moved {
            let frog = self.frog;
            let ghost before = self.robots@;
            let mut i: usize = 0;
            while i < self.robots.len()
                invariant
                    frog == self.frog,
                    frog.wf(),
                    self.robots@.len() == before.len(),
                    i <= before.len(),
                    forall|k: int| 0 <= k < before.len() ==> (#[trigger] before[k]).wf(),
                    forall|k: int|
                        0 <= k < i ==> #[trigger] self.robots@[k] == (if before[k].alive {
                            with_pos(before[k], chase_pos(before[k].pos, frog.pos))
                        } else {
                            before[k]
                        }),
                    forall|k: int| i <= k < before.len() ==> #[trigger] self.robots@[k] == before[k],
                    forall|k: int| 0 <= k < before.len() ==> (#[trigger] self.robots@[k]).wf(),
                decreases before.len() - i,
            {
                if self.robots[i].alive {
                    self.robots[i].move_towards(&frog);
                }
                i = i + 1;
            }
        }
        self.frog.moved
    }
}

/// Once a collision check has killed the frog, checking again against the
/// same robots kills nothing more and changes nothing: the death is reported
/// exactly once.
pub proof fn lemma_frog_dies_once(frog: Actor, robots: Seq<Actor>)
    requires
        frog_hit(frog, robots),
    ensures
        !frog_after_check(frog, robots).alive,
        !frog_hit(frog_after_check(frog, robots), robots),
        frog_after_check(frog_after_check(frog, robots), robots) == frog_after_check(frog, robots),
{
}

/// In a pass over the robots, a live robot dies when a later robot that is
/// alive stands on its cell.
pub proof fn lemma_earlier_robot_dies(before: Seq<Actor>, after: Seq<Actor>, i: int, j: int)
    requires
        robot_pass(before, after),
        0 <= i < j < before.len(),
        before[i].alive,
        before[j].alive,
        before[i].pos == before[j].pos,
    ensures
        !after[i].alive,
{
    assert(wrecked_in_pass(before, after, i)) by {
        assert(alive_during_pass(before, after, i, j));
    }
    assert(after[i] == with_alive(before[i], before[i].alive && !wrecked_in_pass(before, after, i)));
}

/// In a pass over the robots, the last live robot on a cell survives; with
/// the law above, exactly one of the live robots that share a cell is left.
pub proof fn lemma_last_robot_on_cell_survives(before: Seq<Actor>, after: Seq<Actor>, j: int)
    requires
        robot_pass(before, after),
        0 <= j < before.len(),
        before[j].alive,
        forall|k: int| j < k < before.len() && before[k].pos == before[j].pos ==> !before[k].alive,
    ensures
        after[j].alive,
{
    assert(after[j] == with_alive(before[j], before[j].alive && !wrecked_in_pass(before, after, j)));
    if wrecked_in_pass(before, after, j) {
        let k = choose|k: int|
            0 <= k < before.len() && k != j && #[trigger] before[k].pos == before[j].pos
                && alive_during_pass(before, after, j, k);
        assert(k < j);
        assert(after[k] == with_alive(before[k], before[k].alive && !wrecked_in_pass(before, after, k)));
        assert(alive_during_pass(before, after, k, j));
        assert(before[j].pos == before[k].pos);
        assert(wrecked_in_pass(before, after, k));
    }
}

} // verus!
