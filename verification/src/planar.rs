//! The flat game: a snake on a wrapping grid of `WIDTH` by `HEIGHT` cells.

use std::collections::VecDeque;
use vstd::prelude::*;
use vstd::set_lib::{lemma_int_range, lemma_len_subset, set_int_range};
use crate::event::{key_of, parse_key, Key, Tick};
use crate::grid::{in_grid2, is_unit_step, next_cell2, step2, HEIGHT, WIDTH};
use crate::render::{backdrop, backdrop_spec, cell_rect, cell_rect_spec, Color, Rect};

verus! {

/// The flat game as a mathematical value.
pub struct PlanarState {
    /// The snake's cells, head first.
    pub body: Seq<(i32, i32)>,
    /// The step that the head takes at the next tick.
    pub dir: (i32, i32),
    pub food: (i32, i32),
    pub alive: bool,
    pub score: int,
}

/// What holds of every flat game: the snake is not empty, lies in the grid
/// and crosses itself nowhere, the step is a unit step, the food lies in the
/// grid, and every cell but the first was scored for.
pub open spec fn planar_valid(s: PlanarState) -> bool {
    &&& s.body.len() >= 1
    &&& forall|i: int| 0 <= i < s.body.len() ==> in_grid2(#[trigger] s.body[i])
    &&& s.body.no_duplicates()
    &&& is_unit_step(s.dir)
    &&& in_grid2(s.food)
    &&& s.score == s.body.len() - 1
}

/// The state that a game starts in, and starts again in.
pub open spec fn planar_start() -> PlanarState {
    PlanarState {
        body: seq![(10i32, 10i32)],
        dir: (1i32, 0i32),
        food: (5i32, 5i32),
        alive: true,
        score: 0,
    }
}

/// The step that a key asks for, if it asks for one.
pub open spec fn key_step(k: Key) -> Option<(i32, i32)> {
    match k {
        Key::Up => Some((0i32, -1i32)),
        Key::Down => Some((0i32, 1i32)),
        Key::Left => Some((-1i32, 0i32)),
        Key::Right => Some((1i32, 0i32)),
        Key::Other => None,
    }
}

/// The step that leads straight back.
pub open spec fn opposite(d: (i32, i32)) -> (i32, i32) {
    ((-d.0) as i32, (-d.1) as i32)
}

/// The step after the key `k`: the key's own, unless the key asks for none
/// or for the reverse of `dir`.
pub open spec fn steered(dir: (i32, i32), k: Key) -> (i32, i32) {
    match key_step(k) {
        Some(d) => if d == opposite(dir) {
            dir
        } else {
            d
        },
        None => dir,
    }
}

/// The cell that the head moves to at the next tick.
pub open spec fn planar_target(s: PlanarState) -> (i32, i32) {
    next_cell2(s.body[0], s.dir)
}

/// What the next tick reports.
pub open spec fn planar_tick(s: PlanarState) -> Tick {
    if !s.alive {
        Tick::Idle
    } else if s.body.contains(planar_target(s)) {
        Tick::Crashed
    } else if planar_target(s) == s.food {
        Tick::Ate
    } else {
        Tick::Moved
    }
}

/// The state after one tick, where `fresh` is the cell that the food goes to
/// if it is eaten.
pub open spec fn planar_step(s: PlanarState, fresh: (i32, i32)) -> PlanarState {
    match planar_tick(s) {
        Tick::Idle => s,
        Tick::Crashed => PlanarState {
            body: s.body,
            dir: s.dir,
            food: s.food,
            alive: false,
            score: s.score,
        },
        Tick::Ate => PlanarState {
            body: seq![planar_target(s)] + s.body,
            dir: s.dir,
            food: fresh,
            alive: true,
            score: s.score + 1,
        },
        Tick::Moved => PlanarState {
            body: seq![planar_target(s)] + s.body.drop_last(),
            dir: s.dir,
            food: s.food,
            alive: true,
            score: s.score,
        },
    }
}

/// What a frame of the flat game shows: the backdrop, then the snake's
/// cells from head to tail in green, then the food in red.
pub open spec fn planar_scene(s: PlanarState) -> Seq<Rect> {
    seq![backdrop_spec()] + Seq::new(s.body.len(), |i: int| cell_rect_spec(s.body[i], Color::Green))
        + seq![cell_rect_spec(s.food, Color::Red)]
}

/// A frame of the flat game: the rectangles to fill, in order, and the
/// score to show.
#[derive(Debug)]
pub struct PlanarFrame {
    pub rects: Vec<Rect>,
    pub score: i32,
}

/// The state that a game built from these parts is in.
pub open spec fn planar_from(cells: Seq<(i32, i32)>, dir: (i32, i32), food: (i32, i32)) -> PlanarState {
    PlanarState { body: cells, dir: dir, food: food, alive: true, score: cells.len() - 1 }
}

/// Whether `c` lies in the grid.
pub fn cell_in_grid(c: (i32, i32)) -> (r: bool)
    ensures
        r == in_grid2(c),
{
    0 <= c.0 && c.0 < WIDTH && 0 <= c.1 && c.1 < HEIGHT
}

/// Whether `d` is one of the four unit steps.
pub fn unit_step(d: (i32, i32)) -> (r: bool)
    ensures
        r == is_unit_step(d),
{
    (d.0 == 1 && d.1 == 0) || (d.0 == -1 && d.1 == 0) || (d.0 == 0 && d.1 == 1) || (d.0 == 0 && d.1
        == -1)
}

/// Whether the snake has a cell at `c`.
fn occupies(snake: &VecDeque<(i32, i32)>, c: (i32, i32)) -> (r: bool)
    ensures
        r == snake@.contains(c),
{
    let mut i: usize = 0;
    while i < snake.len()
        invariant
            i <= snake@.len(),
            forall|j: int| 0 <= j < i ==> snake@[j] != c,
        decreases snake@.len() - i,
    {
        let cell = snake[i];
        if cell.0 == c.0 && cell.1 == c.1 {
            return true;
        }
        i += 1;
    }
    false
}

/// Whether the cells all lie in the grid and no cell comes twice.
fn cells_valid(cells: &Vec<(i32, i32)>) -> (r: bool)
    ensures
        r == (cells@.no_duplicates() && forall|i: int|
            0 <= i < cells@.len() ==> in_grid2(#[trigger] cells@[i])),
{
    let mut i: usize = 0;
    while i < cells.len()
        invariant
            i <= cells@.len(),
            forall|j: int| 0 <= j < i ==> in_grid2(#[trigger] cells@[j]),
            forall|a: int, b: int| 0 <= a < b < i ==> cells@[a] != cells@[b],
        decreases cells@.len() - i,
    {
        let cell = cells[i];
        if !cell_in_grid(cell) {
            return false;
        }
        let mut k: usize = 0;
        while k < i
            invariant
                k <= i < cells@.len(),
                cell == cells@[i as int],
                forall|a: int| 0 <= a < k ==> cells@[a] != cell,
            decreases i - k,
        {
            let other = cells[k];
            if other.0 == cell.0 && other.1 == cell.1 {
                return false;
            }
            k += 1;
        }
        i += 1;
    }
    proof {
        assert forall|a: int, b: int| 0 <= a < cells@.len() && 0 <= b < cells@.len() && a != b implies cells@[a]
            != cells@[b] by {
            if a < b {
            } else {
                assert(cells@[b] != cells@[a]);
            }
        }
    }
    true
}

/// The flat game.
#[derive(Debug)]
pub struct Game2D {
    snake: VecDeque<(i32, i32)>,
    dir: (i32, i32),
    food: (i32, i32),
    alive: bool,
    score: i32,
}

impl View for Game2D {
    type V = PlanarState;

    closed spec fn view(&self) -> PlanarState {
        PlanarState {
            body: self.snake@,
            dir: self.dir,
            food: self.food,
            alive: self.alive,
            score: self.score as int,
        }
    }
}

impl Game2D {
    /// The game is in a valid state.
    pub open spec fn wf(&self) -> bool {
        planar_valid(self@)
    }

    /// A new game: one cell at the middle of the grid, heading right.
    pub fn new() -> (g: Game2D)
        ensures
            g@ == planar_start(),
            g.wf(),
    {
        let mut snake = VecDeque::new();
        snake.push_back((WIDTH / 2, HEIGHT / 2));
        let g = Game2D { snake, dir: (1, 0), food: (5, 5), alive: true, score: 0 };
        proof {
            assert(g@.body =~= planar_start().body);
        }
        g
    }

    /// A live game with the given snake (head first), step and food, if
    /// these make a valid game; its score is what a snake of that length
    /// has eaten.
    pub fn from_parts(cells: Vec<(i32, i32)>, dir: (i32, i32), food: (i32, i32)) -> (r: Option<Game2D>)
        ensures
            r.is_some() == planar_valid(planar_from(cells@, dir, food)),
            r.is_some() ==> r.unwrap()@ == planar_from(cells@, dir, food) && r.unwrap().wf(),
    {
        if cells.len() == 0 || !unit_step(dir) || !cell_in_grid(food) || !cells_valid(&cells) {
            return None;
        }
        proof {
            lemma_planar_body_fits(cells@);
        }
        let mut snake: VecDeque<(i32, i32)> = VecDeque::new();
        let mut i: usize = 0;
        while i < cells.len()
            invariant
                i <= cells@.len(),
                snake@ == cells@.subrange(0, i as int),
            decreases cells@.len() - i,
        {
            snake.push_back(cells[i]);
            proof {
                assert(snake@ =~= cells@.subrange(0, i + 1));
            }
            i += 1;
        }
        proof {
            assert(snake@ =~= cells@);
        }
        let score: i32 = (cells.len() - 1) as i32;
        Some(Game2D { snake, dir, food, alive: true, score })
    }

    /// The snake's cells, head first.
    pub fn snake(&self) -> (r: Vec<(i32, i32)>)
        ensures
            r@ == self@.body,
    {
        let mut out: Vec<(i32, i32)> = Vec::new();
        let mut i: usize = 0;
        while i < self.snake.len()
            invariant
                i <= self.snake@.len(),
                out@ == self.snake@.subrange(0, i as int),
            decreases self.snake@.len() - i,
        {
            out.push(self.snake[i]);
            proof {
                assert(out@ =~= self.snake@.subrange(0, i + 1));
            }
            i += 1;
        }
        proof {
            assert(out@ =~= self.snake@);
        }
        out
    }

    /// The cell of the head.
    pub fn head(&self) -> (r: (i32, i32))
        requires
            self.wf(),
        ensures
            r == self@.body[0],
    {
        self.snake[0]
    }

    /// The number of cells of the snake.
    pub fn len(&self) -> (r: usize)
        ensures
            r == self@.body.len(),
    {
        self.snake.len()
    }

    /// The step that the head takes at the next tick.
    pub fn dir(&self) -> (r: (i32, i32))
        ensures
            r == self@.dir,
    {
        self.dir
    }

    /// The cell of the food.
    pub fn food(&self) -> (r: (i32, i32))
        ensures
            r == self@.food,
    {
        self.food
    }

    /// Whether the game is still on.
    pub fn alive(&self) -> (r: bool)
        ensures
            r == self@.alive,
    {
        self.alive
    }

    /// The number of times the snake has eaten.
    pub fn score(&self) -> (r: i32)
        ensures
            r == self@.score,
    {
        self.score
    }

    /// The frame that shows the game as it stands.
    pub fn draw(&self) -> (r: PlanarFrame)
        requires
            self.wf(),
        ensures
            r.rects@ == planar_scene(self@),
            r.score == self@.score,
    {
        let mut rects: Vec<Rect> = Vec::new();
        rects.push(backdrop());
        let mut i: usize = 0;
        while i < self.snake.len()
            invariant
                self.wf(),
                i <= self.snake@.len(),
                rects@ == seq![backdrop_spec()] + Seq::new(
                    i as nat,
                    |j: int| cell_rect_spec(self.snake@[j], Color::Green),
                ),
            decreases self.snake@.len() - i,
        {
            assert(in_grid2(self@.body[i as int]));
            rects.push(cell_rect(self.snake[i], Color::Green));
            i += 1;
            proof {
                assert(rects@ =~= seq![backdrop_spec()] + Seq::new(
                    i as nat,
                    |j: int| cell_rect_spec(self.snake@[j], Color::Green),
                ));
            }
        }
        rects.push(cell_rect(self.food, Color::Red));
        proof {
            assert(rects@ =~= planar_scene(self@));
        }
        PlanarFrame { rects, score: self.score }
    }

    /// Turns the snake as the key `k` asks, unless that would reverse it.
    /// A game that is over is steered like a live one.
    pub fn steer(&mut self, k: Key)
        requires
            old(self).wf(),
        ensures
            final(self)@.dir == steered(old(self)@.dir, k),
            final(self)@.body == old(self)@.body,
            final(self)@.food == old(self)@.food,
            final(self)@.alive == old(self)@.alive,
            final(self)@.score == old(self)@.score,
            final(self).wf(),
    {
        match k {
            Key::Up => if self.dir.1 != 1 {
                self.dir = (0, -1);
            },
            Key::Down => if self.dir.1 != -1 {
                self.dir = (0, 1);
            },
            Key::Left => if self.dir.0 != 1 {
                self.dir = (-1, 0);
            },
            Key::Right => if self.dir.0 != -1 {
                self.dir = (1, 0);
            },
            Key::Other => {},
        }
    }

    /// Turns the snake as the key named `key` asks: see `steer`.
    pub fn change_dir(&mut self, key: &str)
        requires
            old(self).wf(),
        ensures
            final(self)@.dir == steered(old(self)@.dir, key_of(key@)),
            final(self)@.body == old(self)@.body,
            final(self)@.food == old(self)@.food,
            final(self)@.alive == old(self)@.alive,
            final(self)@.score == old(self)@.score,
            final(self).wf(),
    {
        let k = parse_key(key);
        self.steer(k);
    }

    /// What the next tick will report, with nothing changed.
    pub fn peek(&self) -> (t: Tick)
        requires
            self.wf(),
        ensures
            t == planar_tick(self@),
    {
        if !self.alive {
            return Tick::Idle;
        }
        let new_head = step2(self.snake[0], self.dir);
        if occupies(&self.snake, new_head) {
            Tick::Crashed
        } else if new_head.0 == self.food.0 && new_head.1 == self.food.1 {
            Tick::Ate
        } else {
            Tick::Moved
        }
    }

    /// One tick. The head moves one step and wraps round the grid's edges.
    /// If it would enter a cell of the snake, the game is over and nothing
    /// moves. If it enters the food's cell, the snake grows by that cell,
    /// scores, and the food goes to `fresh_food`. Otherwise the tail
    /// follows. `fresh_food` is not held against the snake's cells.
    pub fn update(&mut self, fresh_food: (i32, i32)) -> (t: Tick)
        requires
            old(self).wf(),
            in_grid2(fresh_food),
        ensures
            final(self)@ == planar_step(old(self)@, fresh_food),
            t == planar_tick(old(self)@),
            final(self).wf(),
            t == Tick::Ate ==> final(self)@.body.len() == old(self)@.body.len() + 1,
            t != Tick::Ate ==> final(self)@.body.len() == old(self)@.body.len(),
            t == Tick::Crashed ==> !final(self)@.alive && final(self)@.body == old(self)@.body,
            t == Tick::Idle ==> final(self)@ == old(self)@,
    {
        proof {
            lemma_planar_step_valid(self@, fresh_food);
            lemma_planar_body_fits(self@.body);
        }
        if !self.alive {
            return Tick::Idle;
        }
        let new_head = step2(self.snake[0], self.dir);
        if occupies(&self.snake, new_head) {
            self.alive = false;
            return Tick::Crashed;
        }
        self.snake.push_front(new_head);
        if new_head.0 == self.food.0 && new_head.1 == self.food.1 {
            self.score += 1;
            self.food = fresh_food;
            Tick::Ate
        } else {
            self.snake.pop_back();
            proof {
                assert(self@.body =~= planar_step(old(self)@, fresh_food).body);
            }
            Tick::Moved
        }
    }
}

/// A snake that lies in the grid and crosses itself nowhere has no more
/// cells than the grid.
pub proof fn lemma_planar_body_fits(body: Seq<(i32, i32)>)
    requires
        body.no_duplicates(),
        forall|i: int| 0 <= i < body.len() ==> in_grid2(#[trigger] body[i]),
    ensures
        body.len() <= WIDTH * HEIGHT,
{
    let codes = Seq::new(body.len(), |i: int| body[i].0 * 20 + body[i].1);
    assert forall|i: int, j: int| 0 <= i < codes.len() && 0 <= j < codes.len() && i != j implies codes[i]
        != codes[j] by {
        assert(in_grid2(body[i]) && in_grid2(body[j]));
        assert(body[i] != body[j]);
    }
    codes.unique_seq_to_set();
    lemma_int_range(0, 400);
    assert forall|c: int| codes.to_set().contains(c) implies set_int_range(0, 400).contains(c) by {
        let i = choose|i: int| 0 <= i < codes.len() && codes[i] == c;
        assert(in_grid2(body[i]));
    }
    lemma_len_subset(codes.to_set(), set_int_range(0, 400));
}

/// A tick keeps a valid game valid.
pub proof fn lemma_planar_step_valid(s: PlanarState, fresh: (i32, i32))
    requires
        planar_valid(s),
        in_grid2(fresh),
    ensures
        planar_valid(planar_step(s, fresh)),
{
    let t = planar_step(s, fresh);
    let head = planar_target(s);
    assert(in_grid2(s.body[0]));
    match planar_tick(s) {
        Tick::Ate => {
            assert forall|i: int| 0 <= i < t.body.len() implies in_grid2(#[trigger] t.body[i]) by {
                if i > 0 {
                    assert(t.body[i] == s.body[i - 1]);
                }
            }
            assert forall|i: int, j: int| 0 <= i < t.body.len() && 0 <= j < t.body.len() && i != j implies t.body[i]
                != t.body[j] by {
                if i > 0 {
                    assert(t.body[i] == s.body[i - 1]);
                }
                if j > 0 {
                    assert(t.body[j] == s.body[j - 1]);
                }
            }
        },
        Tick::Moved => {
            assert forall|i: int| 0 <= i < t.body.len() implies in_grid2(#[trigger] t.body[i]) by {
                if i > 0 {
                    assert(t.body[i] == s.body[i - 1]);
                }
            }
            assert forall|i: int, j: int| 0 <= i < t.body.len() && 0 <= j < t.body.len() && i != j implies t.body[i]
                != t.body[j] by {
                if i > 0 {
                    assert(t.body[i] == s.body[i - 1]);
                }
                if j > 0 {
                    assert(t.body[j] == s.body[j - 1]);
                }
            }
        },
        _ => {},
    }
}

/// A tick on which the snake does not eat leaves its length as it was, and
/// a tick on which it eats adds one cell.
pub proof fn lemma_planar_length(s: PlanarState, fresh: (i32, i32))
    requires
        planar_valid(s),
    ensures
        planar_tick(s) == Tick::Ate ==> planar_step(s, fresh).body.len() == s.body.len() + 1,
        planar_tick(s) != Tick::Ate ==> planar_step(s, fresh).body.len() == s.body.len(),
        planar_tick(s) == Tick::Ate ==> planar_step(s, fresh).score == s.score + 1,
        planar_tick(s) != Tick::Ate ==> planar_step(s, fresh).score == s.score,
{
}

/// A live snake whose head would move into a cell of its own body stops
/// there: the game is over, and nothing else has changed.
pub proof fn lemma_planar_collision(s: PlanarState, fresh: (i32, i32))
    requires
        planar_valid(s),
        s.alive,
        s.body.contains(planar_target(s)),
    ensures
        planar_tick(s) == Tick::Crashed,
        !planar_step(s, fresh).alive,
        planar_step(s, fresh).body == s.body,
        planar_step(s, fresh).dir == s.dir,
        planar_step(s, fresh).food == s.food,
        planar_step(s, fresh).score == s.score,
{
}

/// Once the game is over, a tick changes nothing.
pub proof fn lemma_planar_over_is_final(s: PlanarState, fresh: (i32, i32))
    requires
        !s.alive,
    ensures
        planar_step(s, fresh) == s,
{
}

/// A key that asks for the reverse of the current step is not obeyed, and
/// whatever the key, the next step is a unit step again.
pub proof fn lemma_no_reversal(dir: (i32, i32), k: Key)
    requires
        is_unit_step(dir),
    ensures
        key_step(k) == Some(opposite(dir)) ==> steered(dir, k) == dir,
        steered(dir, k) != opposite(dir),
        is_unit_step(steered(dir, k)),
{
}

} // verus!
