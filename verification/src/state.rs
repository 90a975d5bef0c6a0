use vstd::prelude::*;
use crate::direction::Direction;
use crate::direction::KeySet;
use crate::direction::resolve_direction;
use crate::direction::resolve_spec;
use crate::grid::ArenaConfig;
use crate::grid::Cell;
use crate::grid::step;
use crate::grid::step_cell;

verus! {

/// The head's starting x coordinate after a spawn or reset.
pub const START_X: i32 = 3;

/// The head's starting y coordinate after a spawn or reset.
pub const START_Y: i32 = 3;

/// The head's starting cell.
pub open spec fn start_head() -> Cell {
    Cell { x: START_X, y: START_Y }
}

/// The starting body: two segments in a column directly below the head.
pub open spec fn start_body() -> Seq<Cell> {
    seq![
        Cell { x: START_X, y: (START_Y - 1) as i32 },
        Cell { x: START_X, y: (START_Y - 2) as i32 },
    ]
}

/// What one movement tick reported. The two collision kinds fire
/// independently and either alone asks the surrounding game to reset.
#[derive(Clone, Copy, PartialEq, Eq, Structural, Debug)]
pub struct TickOutcome {
    pub wall_collision: bool,
    pub self_collision: bool,
}

impl TickOutcome {
    /// Whether any collision fired this tick.
    pub open spec fn collided_spec(self) -> bool {
        self.wall_collision || self.self_collision
    }

    /// Whether any collision fired this tick.
    pub fn collided(&self) -> (r: bool)
        ensures
            r == self.collided_spec(),
    {
        self.wall_collision || self.self_collision
    }
}

/// The whole simulation state owned by one tick pipeline: the head, the
/// body chain, the growth queue and the cached vacated tail cell. The body
/// is an ordered sequence of cells, head-adjacent first, tail last; a
/// segment's identity is its chain index.
pub struct GameState {
    pub config: ArenaConfig,
    pub head_cell: Cell,
    pub head_dir: Direction,
    pub segments: Vec<Cell>,
    pub pending_growth: u32,
    pub last_tail_cell: Option<Cell>,
}

impl GameState {
    /// Every cell the snake occupies, head first, then the body in chain
    /// order.
    pub open spec fn occupied(self) -> Seq<Cell> {
        seq![self.head_cell] + self.segments@
    }

    /// Well-formedness between ticks: a sane arena, at least one body
    /// segment, and the head inside the arena. A wall collision leaves the
    /// head outside, so the state is well formed again only after a reset.
    pub open spec fn wf(self) -> bool {
        &&& self.config.wf()
        &&& self.segments@.len() >= 1
        &&& self.config.in_bounds_spec(self.head_cell)
    }

    /// The cell the head steps to on the next tick.
    pub open spec fn new_head(self) -> Cell {
        step_cell(self.head_cell, self.head_dir)
    }

    /// Whether the next tick's head step leaves the arena.
    pub open spec fn wall_hit(self) -> bool {
        !self.config.in_bounds_spec(self.new_head())
    }

    /// Whether the next tick's head step lands on a cell of the pre-tick
    /// body.
    pub open spec fn self_hit(self) -> bool {
        self.segments@.contains(self.new_head())
    }

    /// Whether the next tick materializes one pending growth event: only a
    /// tick without collision drains the growth queue.
    pub open spec fn grows(self) -> bool {
        &&& !self.wall_hit()
        &&& !self.self_hit()
        &&& self.pending_growth > 0
    }

    /// The starting configuration: head at its starting cell facing up, two
    /// body segments below it, no growth pending, no vacated tail cell yet.
    pub open spec fn is_initial(self, config: ArenaConfig) -> bool {
        &&& self.config == config
        &&& self.head_cell == start_head()
        &&& self.head_dir == Direction::Up
        &&& self.segments@ == start_body()
        &&& self.pending_growth == 0
        &&& self.last_tail_cell is None
    }
}

/// How one movement tick takes `pre` to `post` and reports `out`:
/// the head steps one cell along its facing; each collision kind is judged
/// against the pre-tick body and the arena bounds; the body shifts by one,
/// each segment taking the cell its predecessor vacated; the tail's vacated
/// cell is recorded; and on a collision-free tick with growth pending, one
/// growth event is drained into a new tail segment.
pub open spec fn tick_rel(pre: GameState, post: GameState, out: TickOutcome) -> bool {
    &&& post.config == pre.config
    &&& post.head_dir == pre.head_dir
    &&& post.head_cell == pre.new_head()
    &&& out.wall_collision == pre.wall_hit()
    &&& out.self_collision == pre.self_hit()
    &&& post.last_tail_cell == Some(pre.segments@.last())
    &&& post.segments@.len() == pre.segments@.len() + (if pre.grows() {
        1int
    } else {
        0int
    })
    &&& post.segments@[0] == pre.head_cell
    &&& (forall|i: int|
        1 <= i < post.segments@.len() ==> post.segments@[i] == pre.segments@[i - 1])
    &&& post.pending_growth == (if pre.grows() {
        pre.pending_growth - 1
    } else {
        pre.pending_growth as int
    })
}

/// Whether `cells` holds `c`.
pub fn cells_contain(cells: &Vec<Cell>, c: &Cell) -> (r: bool)
    ensures
        r == cells@.contains(*c),
{
    let n = cells.len();
    let mut i: usize = 0;
    while i < n
        invariant
            0 <= i <= n,
            n == cells@.len(),
            forall|k: int| 0 <= k < i ==> cells@[k] != *c,
        decreases n - i,
    {
        if cells[i] == *c {
            assert(cells@.contains(*c)) by {
                assert(cells@[i as int] == *c);
            }
            return true;
        }
        i = i + 1;
    }
    false
}

impl GameState {
    /// Creates the starting state for `config`. The arena must be large
    /// enough to hold the starting snake.
    pub fn new(config: ArenaConfig) -> (s: GameState)
        requires
            config.wf(),
            START_X < config.width,
            START_Y < config.height,
        ensures
            s.is_initial(config),
            s.wf(),
    {
        let mut segments: Vec<Cell> = Vec::new();
        segments.push(Cell { x: START_X, y: START_Y - 1 });
        segments.push(Cell { x: START_X, y: START_Y - 2 });
        let s = GameState {
            config,
            head_cell: Cell { x: START_X, y: START_Y },
            head_dir: Direction::Up,
            segments,
            pending_growth: 0,
            last_tail_cell: None,
        };
        proof {
            assert(s.segments@ =~= start_body());
        }
        s
    }

    /// Returns the state to the starting configuration, keeping the arena.
    /// The receiver of a tick's reset signal calls this in place of
    /// despawning and respawning every entity.
    pub fn reset(&mut self)
        requires
            old(self).config.wf(),
            START_X < old(self).config.width,
            START_Y < old(self).config.height,
        ensures
            final(self).is_initial(old(self).config),
            final(self).wf(),
    {
        let config = self.config;
        *self = GameState::new(config);
    }

    /// Latches one frame of direction input: the facing changes to the
    /// pressed candidate unless that is the exact reverse of the current
    /// facing. Runs every frame, so input between ticks is not lost.
    pub fn apply_input(&mut self, keys: KeySet)
        ensures
            final(self).head_dir == resolve_spec(keys, old(self).head_dir),
            *final(self) == (GameState { head_dir: final(self).head_dir, ..*old(self) }),
    {
        self.head_dir = resolve_direction(keys, self.head_dir);
    }

    /// Records `amount` growth events reported by the food collaborator,
    /// saturating at the counter's capacity.
    pub fn add_growth(&mut self, amount: u32)
        ensures
            final(self).pending_growth == if old(self).pending_growth + amount <= u32::MAX {
                old(self).pending_growth + amount
            } else {
                u32::MAX as int
            },
            *final(self) == (GameState {
                pending_growth: final(self).pending_growth,
                ..*old(self)
            }),
    {
        if amount > u32::MAX - self.pending_growth {
            self.pending_growth = u32::MAX;
        } else {
            self.pending_growth = self.pending_growth + amount;
        }
    }

    /// Advances the simulation by one movement tick: the head steps one
    /// cell along its facing, collisions are judged against the arena and
    /// the pre-tick body, the body shifts behind the head, the vacated tail
    /// cell is recorded, and a collision-free tick drains at most one
    /// pending growth event into a new tail segment. A wall collision
    /// leaves the head outside the arena; the caller must then reset.
    pub fn tick(&mut self) -> (out: TickOutcome)
        requires
            old(self).wf(),
        ensures
            tick_rel(*old(self), *final(self), out),
            final(self).wf() == !out.wall_collision,
    {
        let n = self.segments.len();
        let old_head = self.head_cell;
        self.head_cell = step(self.head_cell, self.head_dir);
        let wall = !self.config.in_bounds(&self.head_cell);
        let hit = cells_contain(&self.segments, &self.head_cell);
        let tail_cell = self.segments[n - 1];
        self.segments.insert(0, old_head);
        if !wall && !hit && self.pending_growth > 0 {
            self.pending_growth = self.pending_growth - 1;
        } else {
            let _ = self.segments.pop();
        }
        self.last_tail_cell = Some(tail_cell);
        TickOutcome { wall_collision: wall, self_collision: hit }
    }
}

/// Law: across a tick without collision, the chain grows by exactly one
/// segment when growth was pending and keeps its length otherwise. A tick
/// that collides leaves both the chain length and the growth counter
/// untouched, so the law is stated for collision-free ticks.
pub proof fn lemma_tick_chain_length(pre: GameState, post: GameState, out: TickOutcome)
    requires
        pre.wf(),
        tick_rel(pre, post, out),
        !out.collided_spec(),
    ensures
        post.segments@.len() == pre.segments@.len() + (if pre.pending_growth > 0 {
            1int
        } else {
            0int
        }),
        post.pending_growth == (if pre.pending_growth > 0 {
            pre.pending_growth - 1
        } else {
            0int
        }),
{
}

/// Law: follow the leader. After a collision-free tick the occupied cells
/// are exactly the head's new cell followed by every pre-tick occupied cell
/// but the vacated tail cell; the old head cell becomes the first body
/// segment's cell, and each body segment takes the cell of its predecessor.
/// When the tick grows, the vacated tail cell is occupied again too, by the
/// new tail segment, so nothing is dropped.
pub proof fn lemma_follow_the_leader(pre: GameState, post: GameState, out: TickOutcome)
    requires
        pre.wf(),
        tick_rel(pre, post, out),
        !out.collided_spec(),
    ensures
        pre.pending_growth == 0 ==> post.occupied() == seq![pre.new_head()]
            + pre.occupied().drop_last(),
        pre.pending_growth > 0 ==> post.occupied() == seq![pre.new_head()] + pre.occupied(),
{
    if pre.pending_growth == 0 {
        assert(post.occupied() =~= seq![pre.new_head()] + pre.occupied().drop_last());
    } else {
        assert(post.occupied() =~= seq![pre.new_head()] + pre.occupied());
    }
}

/// Law: collision conditions. Self-collision fires exactly when the stepped
/// head cell lies among the pre-tick body cells, and wall-collision exactly
/// when it leaves the configured bounds; the two are independent.
pub proof fn lemma_collision_conditions(pre: GameState, post: GameState, out: TickOutcome)
    requires
        tick_rel(pre, post, out),
    ensures
        out.self_collision <==> pre.segments@.contains(step_cell(pre.head_cell, pre.head_dir)),
        out.wall_collision <==> !pre.config.in_bounds_spec(
            step_cell(pre.head_cell, pre.head_dir),
        ),
{
}

/// Law: growth anchoring. A tick that materializes growth appends exactly
/// one segment, placed at the very cell the tail vacated that same tick,
/// the one recorded as the last tail cell, behind the rest of the shifted
/// chain.
pub proof fn lemma_growth_at_vacated_tail(pre: GameState, post: GameState, out: TickOutcome)
    requires
        pre.wf(),
        tick_rel(pre, post, out),
        pre.grows(),
    ensures
        post.segments@.len() == pre.segments@.len() + 1,
        post.segments@.last() == pre.segments@.last(),
        post.last_tail_cell == Some(pre.segments@.last()),
        post.segments@.drop_last() == seq![pre.head_cell] + pre.segments@.drop_last(),
{
    assert(post.segments@.drop_last() =~= seq![pre.head_cell] + pre.segments@.drop_last());
}

} // verus!
