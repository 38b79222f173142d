//! The game aggregate and the movement engine: registry lookup by identifier,
//! validated moves, and the administrative position overwrite.

use vstd::prelude::*;

use crate::model::Board;
use crate::model::Direction;
use crate::model::MoveError;
use crate::model::Position;
use crate::model::Tank;
use crate::model::at_edge;
use crate::model::opposite;
use crate::model::step_allowed;
use crate::model::step_dest;
use crate::model::with_position;

verus! {

/// The game aggregate: one board, fixed for the life of the game, and the
/// full ordered roster of units.
pub struct Game {
    pub board: Board,
    pub tanks: Vec<Tank>,
}

/// The index of the first unit in `tanks` whose identifier is `id`, or
/// `tanks.len()` when no unit carries it.
pub open spec fn find_idx(tanks: Seq<Tank>, id: u32) -> int
    decreases tanks.len(),
{
    if tanks.len() == 0 {
        0
    } else if tanks[0].id == id {
        0
    } else {
        1 + find_idx(tanks.subrange(1, tanks.len() as int), id)
    }
}

/// Whether some unit of `tanks` currently stands on cell `p`.
pub open spec fn occupied_at(tanks: Seq<Tank>, p: Position) -> bool {
    exists|j: int| 0 <= j < tanks.len() && tanks[j].position == p
}

/// The result of one move request, computed against the pre-move state:
/// the identifier must resolve, the step must stay on the board, and the
/// destination cell must be free of every unit's pre-move position.
pub open spec fn move_outcome(
    board: Board,
    tanks: Seq<Tank>,
    id: u32,
    d: Direction,
) -> Result<Position, MoveError> {
    let i = find_idx(tanks, id);
    if i >= tanks.len() {
        Err(MoveError::UnitNotFound)
    } else {
        let from = tanks[i].position;
        if !step_allowed(board, from, d) {
            Err(MoveError::OutOfBounds { direction: d, from_position: from })
        } else if occupied_at(tanks, step_dest(from, d)) {
            Err(MoveError::Occupied { direction: d, from_position: from })
        } else {
            Ok(step_dest(from, d))
        }
    }
}

/// The roster after one move request: on success the addressed unit stands on
/// the destination cell and every other unit is untouched; on any rejection
/// the roster is unchanged.
pub open spec fn tanks_after_move(board: Board, tanks: Seq<Tank>, id: u32, d: Direction) -> Seq<
    Tank,
> {
    if move_outcome(board, tanks, id, d) is Ok {
        let i = find_idx(tanks, id);
        tanks.update(i, with_position(tanks[i], step_dest(tanks[i].position, d)))
    } else {
        tanks
    }
}

/// `find_idx` lands between `0` and `tanks.len()`; when it lands strictly
/// below the length it names the first unit with the given identifier, and
/// every unit before it carries a different one.
pub proof fn lemma_find_idx_props(tanks: Seq<Tank>, id: u32)
    ensures
        0 <= find_idx(tanks, id) <= tanks.len(),
        find_idx(tanks, id) < tanks.len() ==> tanks[find_idx(tanks, id)].id == id,
        forall|j: int| 0 <= j < find_idx(tanks, id) ==> tanks[j].id != id,
    decreases tanks.len(),
{
    if tanks.len() == 0 {
    } else if tanks[0].id == id {
    } else {
        let rest = tanks.subrange(1, tanks.len() as int);
        lemma_find_idx_props(rest, id);
        assert forall|j: int| 0 <= j < find_idx(tanks, id) implies tanks[j].id != id by {
            if j > 0 {
                assert(tanks[j] == rest[j - 1]);
            }
        }
    }
}

/// An index that carries the identifier, with no earlier index carrying it,
/// is exactly where `find_idx` lands.
pub proof fn lemma_find_idx_first(tanks: Seq<Tank>, id: u32, i: int)
    requires
        0 <= i < tanks.len(),
        tanks[i].id == id,
        forall|j: int| 0 <= j < i ==> tanks[j].id != id,
    ensures
        find_idx(tanks, id) == i,
{
    lemma_find_idx_props(tanks, id);
    let r = find_idx(tanks, id);
    if r < i {
        assert(tanks[r].id != id);
    }
    if r > i {
        assert(tanks[i].id != id);
    }
}

/// Linear scan for the first unit carrying `id`; the index it returns is the
/// one the spec-level `find_idx` names, and `None` means no unit carries `id`.
fn find_index(tanks: &Vec<Tank>, id: u32) -> (r: Option<usize>)
    ensures
        match r {
            Some(k) => k == find_idx(tanks@, id) && k < tanks@.len(),
            None => find_idx(tanks@, id) == tanks@.len(),
        },
{
    let n = tanks.len();
    let mut k: usize = 0;
    while k < n
        invariant
            n == tanks@.len(),
            0 <= k <= n,
            forall|j: int| 0 <= j < k ==> tanks@[j].id != id,
        decreases n - k,
    {
        if tanks[k].id == id {
            proof {
                lemma_find_idx_first(tanks@, id, k as int);
            }
            return Some(k);
        }
        k += 1;
    }
    proof {
        lemma_find_idx_props(tanks@, id);
    }
    None
}

impl Game {
    /// Look up the unit carrying `tank_id`: a read-only reference to the
    /// first match in roster order, or `None` when the identifier is unknown.
    pub fn get_tank(&self, tank_id: u32) -> (r: Option<&Tank>)
        ensures
            ({
                let i = find_idx(self.tanks@, tank_id);
                match r {
                    Some(t) => i < self.tanks@.len() && *t == self.tanks@[i],
                    None => i == self.tanks@.len(),
                }
            }),
    {
        match find_index(&self.tanks, tank_id) {
            Some(i) => Some(&self.tanks[i]),
            None => None,
        }
    }

    /// One validated move request: resolve `tank_id`, compute the destination
    /// one step in `direction`, reject a step off the board or onto a cell
    /// some unit already holds, and otherwise commit the new position.
    ///
    /// The occupancy check reads the pre-move positions of all units, so a
    /// unit is never blocked by a cell it is itself about to vacate, and a
    /// rejected request leaves the roster exactly as it was.
    pub fn make_move(&mut self, tank_id: u32, direction: Direction) -> (r: Result<
        Position,
        MoveError,
    >)
        ensures
            final(self).board == old(self).board,
            r == move_outcome(old(self).board, old(self).tanks@, tank_id, direction),
            final(self).tanks@ == tanks_after_move(
                old(self).board,
                old(self).tanks@,
                tank_id,
                direction,
            ),
    {
        let i = match find_index(&self.tanks, tank_id) {
            Some(i) => i,
            None => {
                return Err(MoveError::UnitNotFound);
            },
        };
        let from = self.tanks[i].position;
        let allowed: bool = match direction {
            Direction::Right => from.x < u32::MAX && from.x + 1 < self.board.length,
            Direction::Left => from.x >= 1,
            Direction::Down => from.y < u32::MAX && from.y + 1 < self.board.height,
            Direction::Up => from.y >= 1,
        };
        if !allowed {
            return Err(MoveError::OutOfBounds { direction, from_position: from });
        }
        let dest = match direction {
            Direction::Right => Position { x: from.x + 1, y: from.y },
            Direction::Left => Position { x: from.x - 1, y: from.y },
            Direction::Down => Position { x: from.x, y: from.y + 1 },
            Direction::Up => Position { x: from.x, y: from.y - 1 },
        };
        let n = self.tanks.len();
        let mut k: usize = 0;
        while k < n
            invariant
                n == self.tanks@.len(),
                0 <= k <= n,
                i < n,
                self.board == old(self).board,
                self.tanks@ == old(self).tanks@,
                i == find_idx(self.tanks@, tank_id),
                from == self.tanks@[i as int].position,
                step_allowed(self.board, from, direction),
                dest == step_dest(from, direction),
                forall|j: int| 0 <= j < k ==> self.tanks@[j].position != dest,
            decreases n - k,
        {
            if self.tanks[k].position == dest {
                return Err(MoveError::Occupied { direction, from_position: from });
            }
            k += 1;
        }
        let moved = &mut self.tanks[i];
        moved.position = dest;
        Ok(dest)
    }

    /// Look up the unit carrying `tank_id` and grant exclusive write access
    /// to it: the first match in roster order, or `None` when the identifier
    /// is unknown. Whatever the caller writes through the reference becomes
    /// that unit's new state; the rest of the game is untouched.
    pub fn get_tank_mut(&mut self, tank_id: u32) -> (r: Option<&mut Tank>)
        ensures
            ({
                let i = find_idx(old(self).tanks@, tank_id);
                match r {
                    Some(t) => {
                        &&& i < old(self).tanks@.len()
                        &&& *t == old(self).tanks@[i]
                        &&& final(self).board == old(self).board
                        &&& final(self).tanks@ == old(self).tanks@.update(i, *final(t))
                    },
                    None => {
                        &&& i == old(self).tanks@.len()
                        &&& *final(self) == *old(self)
                    },
                }
            }),
    {
        match find_index(&self.tanks, tank_id) {
            Some(i) => Some(&mut self.tanks[i]),
            None => None,
        }
    }

    /// Administrative position overwrite, for setup and testing: resolve
    /// `tank_id` and, when `position` lies on the board, write it to the unit
    /// unconditionally, with no occupancy check. An out-of-bounds position is
    /// a silent no-op; an unknown identifier is reported as `UnitNotFound`
    /// and changes nothing.
    pub fn set_tank_position(&mut self, tank_id: u32, position: Position) -> (r: Result<
        (),
        MoveError,
    >)
        ensures
            final(self).board == old(self).board,
            ({
                let i = find_idx(old(self).tanks@, tank_id);
                if i < old(self).tanks@.len() {
                    &&& r is Ok
                    &&& if position.x < old(self).board.length && position.y < old(
                        self,
                    ).board.height {
                        final(self).tanks@ == old(self).tanks@.update(
                            i,
                            with_position(old(self).tanks@[i], position),
                        )
                    } else {
                        final(self).tanks@ == old(self).tanks@
                    }
                } else {
                    &&& r == Err::<(), MoveError>(MoveError::UnitNotFound)
                    &&& final(self).tanks@ == old(self).tanks@
                }
            }),
    {
        let i = match find_index(&self.tanks, tank_id) {
            Some(i) => i,
            None => {
                return Err(MoveError::UnitNotFound);
            },
        };
        if position.x < self.board.length && position.y < self.board.height {
            let t = &mut self.tanks[i];
            t.position = position;
        }
        Ok(())
    }
}

/// A move toward a board edge taken exactly at the boundary coordinate —
/// `x == 0` going left, `y == 0` going up, `x == length - 1` going right,
/// `y == height - 1` going down — fails with `OutOfBounds`, and no unit's
/// position changes.
pub proof fn lemma_edge_move_rejected(board: Board, tanks: Seq<Tank>, id: u32, d: Direction)
    requires
        find_idx(tanks, id) < tanks.len(),
        at_edge(board, tanks[find_idx(tanks, id)].position, d),
    ensures
        move_outcome(board, tanks, id, d) == Err::<Position, MoveError>(
            MoveError::OutOfBounds {
                direction: d,
                from_position: tanks[find_idx(tanks, id)].position,
            },
        ),
        tanks_after_move(board, tanks, id, d) == tanks,
{
}

/// Moving onto a cell already occupied by a different unit — `blocker` names
/// one — fails with `Occupied`, and no unit's position changes.
pub proof fn lemma_occupied_move_rejected(
    board: Board,
    tanks: Seq<Tank>,
    id: u32,
    d: Direction,
    blocker: int,
)
    requires
        find_idx(tanks, id) < tanks.len(),
        step_allowed(board, tanks[find_idx(tanks, id)].position, d),
        0 <= blocker < tanks.len(),
        blocker != find_idx(tanks, id),
        tanks[blocker].position == step_dest(tanks[find_idx(tanks, id)].position, d),
    ensures
        move_outcome(board, tanks, id, d) == Err::<Position, MoveError>(
            MoveError::Occupied {
                direction: d,
                from_position: tanks[find_idx(tanks, id)].position,
            },
        ),
        tanks_after_move(board, tanks, id, d) == tanks,
{
    let dest = step_dest(tanks[find_idx(tanks, id)].position, d);
    assert(occupied_at(tanks, dest)) by {
        assert(tanks[blocker].position == dest);
    }
}

/// A move request for an identifier that no unit carries fails with
/// `UnitNotFound` and changes nothing.
pub proof fn lemma_unknown_id_rejected(board: Board, tanks: Seq<Tank>, id: u32, d: Direction)
    requires
        forall|j: int| 0 <= j < tanks.len() ==> tanks[j].id != id,
    ensures
        move_outcome(board, tanks, id, d) == Err::<Position, MoveError>(MoveError::UnitNotFound),
        tanks_after_move(board, tanks, id, d) == tanks,
{
    lemma_find_idx_props(tanks, id);
}

/// Round trip: a unit that shares its cell with no other unit and whose right
/// (or lower) neighbor cell is free moves `Right` then `Left` (or `Down` then
/// `Up`) back to where it started, both steps succeeding.
pub proof fn lemma_round_trip(board: Board, tanks: Seq<Tank>, id: u32, d: Direction)
    requires
        d == Direction::Right || d == Direction::Down,
        find_idx(tanks, id) < tanks.len(),
        step_allowed(board, tanks[find_idx(tanks, id)].position, d),
        !occupied_at(tanks, step_dest(tanks[find_idx(tanks, id)].position, d)),
        forall|j: int|
            0 <= j < tanks.len() && j != find_idx(tanks, id) ==> (#[trigger] tanks[j]).position
                != tanks[find_idx(tanks, id)].position,
    ensures
        ({
            let i = find_idx(tanks, id);
            let from = tanks[i].position;
            let there = tanks_after_move(board, tanks, id, d);
            &&& move_outcome(board, tanks, id, d) == Ok::<Position, MoveError>(
                step_dest(from, d),
            )
            &&& move_outcome(board, there, id, opposite(d)) == Ok::<Position, MoveError>(from)
            &&& tanks_after_move(board, there, id, opposite(d)) == tanks
        }),
{
    let i = find_idx(tanks, id);
    let from = tanks[i].position;
    let dest = step_dest(from, d);
    lemma_find_idx_props(tanks, id);
    let there = tanks_after_move(board, tanks, id, d);
    assert(there == tanks.update(i, with_position(tanks[i], dest)));
    lemma_find_idx_first(there, id, i);
    assert(step_allowed(board, dest, opposite(d)));
    assert(step_dest(dest, opposite(d)) == from);
    assert(!occupied_at(there, from)) by {
        assert forall|j: int| 0 <= j < there.len() implies there[j].position != from by {
            if j == i {
                assert(there[j].position == dest);
            } else {
                assert(there[j] == tanks[j]);
            }
        }
    }
    let back = tanks_after_move(board, there, id, opposite(d));
    assert(back == there.update(i, with_position(there[i], from)));
    assert(with_position(there[i], from) == tanks[i]);
    assert(back =~= tanks);
}

} // verus!
