//! The game in three dimensions: a snake in a wrapping box of `WIDTH` by
//! `HEIGHT` by `DEPTH` cells, steered by turning its frame.

use std::collections::VecDeque;
use vstd::prelude::*;
use vstd::set_lib::{lemma_int_range, lemma_len_subset, set_int_range};
use crate::event::{key_of, parse_key, Key, Tick};
use crate::grid::{Vec3, CELL, DEPTH, HEIGHT, WIDTH};
use crate::planar::PlanarFrame;
use crate::orientation::{frame_valid, is_axis, Orientation, Turn};
use crate::paint::{paint_order, sort_by_depth, Item};
use crate::projection::{cube_of, draw_cube, Cube, Projection};
use crate::render::{backdrop, backdrop_spec, Color, Rect};

verus! {

/// The game in three dimensions as a mathematical value.
pub struct SpatialState {
    /// The snake's cells, head first.
    pub body: Seq<Vec3>,
    /// The frame; the head moves along its `f`.
    pub orient: Orientation,
    pub food: Vec3,
    pub alive: bool,
    pub score: int,
}

/// What holds of every game in three dimensions: the snake is not empty,
/// lies in the box and crosses itself nowhere, the frame is right-handed
/// and orthonormal, the food lies in the box, and every cell but the first
/// was scored for.
pub open spec fn spatial_valid(s: SpatialState) -> bool {
    &&& s.body.len() >= 1
    &&& forall|i: int| 0 <= i < s.body.len() ==> (#[trigger] s.body[i]).in_grid()
    &&& s.body.no_duplicates()
    &&& s.orient.wf()
    &&& s.food.in_grid()
    &&& s.score == s.body.len() - 1
}

/// The state that a game starts in, and starts again in.
pub open spec fn spatial_start() -> SpatialState {
    SpatialState {
        body: seq![Vec3(10, 10, 10)],
        orient: Orientation::initial(),
        food: Vec3(5, 5, 5),
        alive: true,
        score: 0,
    }
}

/// The state that a game built from these parts is in.
pub open spec fn spatial_from(cells: Seq<Vec3>, orient: Orientation, food: Vec3) -> SpatialState {
    SpatialState { body: cells, orient: orient, food: food, alive: true, score: cells.len() - 1 }
}

/// The turn that a key asks for, if it asks for one.
pub open spec fn key_turn(k: Key) -> Option<Turn> {
    match k {
        Key::Up => Some(Turn::PitchUp),
        Key::Down => Some(Turn::PitchDown),
        Key::Left => Some(Turn::YawLeft),
        Key::Right => Some(Turn::YawRight),
        Key::Other => None,
    }
}

/// The frame after the key `k`.
pub open spec fn reoriented(o: Orientation, k: Key) -> Orientation {
    match key_turn(k) {
        Some(t) => o.turned(t),
        None => o,
    }
}

/// The cell one step from `c` along `d`, wrapped into the box.
pub open spec fn next_cell3(c: Vec3, d: Vec3) -> Vec3 {
    Vec3((c.0 + d.0) as i32, (c.1 + d.1) as i32, (c.2 + d.2) as i32).wrap_spec()
}

/// The cell that the head moves to at the next tick.
pub open spec fn spatial_target(s: SpatialState) -> Vec3 {
    next_cell3(s.body[0], s.orient.f)
}

/// What the next tick reports.
pub open spec fn spatial_tick(s: SpatialState) -> Tick {
    if !s.alive {
        Tick::Idle
    } else if s.body.contains(spatial_target(s)) {
        Tick::Crashed
    } else if spatial_target(s) == s.food {
        Tick::Ate
    } else {
        Tick::Moved
    }
}

/// The state after one tick, where `fresh` is the cell that the food goes to
/// if it is eaten.
pub open spec fn spatial_step(s: SpatialState, fresh: Vec3) -> SpatialState {
    match spatial_tick(s) {
        Tick::Idle => s,
        Tick::Crashed => SpatialState {
            body: s.body,
            orient: s.orient,
            food: s.food,
            alive: false,
            score: s.score,
        },
        Tick::Ate => SpatialState {
            body: seq![spatial_target(s)] + s.body,
            orient: s.orient,
            food: fresh,
            alive: true,
            score: s.score + 1,
        },
        Tick::Moved => SpatialState {
            body: seq![spatial_target(s)] + s.body.drop_last(),
            orient: s.orient,
            food: s.food,
            alive: true,
            score: s.score,
        },
    }
}

/// The things that a frame shows, before they are put in painting order:
/// the snake's cells from head to tail in green, then the food in red.
pub open spec fn spatial_items(s: SpatialState) -> Seq<Item> {
    Seq::new(s.body.len(), |i: int| (s.body[i], Color::Green)) + seq![(s.food, Color::Red)]
}

/// The cubes of a frame under the projection `p`, in painting order.
pub open spec fn spatial_scene(s: SpatialState, p: Projection) -> Seq<Cube> {
    let items = paint_order(spatial_items(s));
    Seq::new(items.len(), |i: int| cube_of(p, items[i].0, items[i].1))
}

/// The square of the cell `c` in layers: its place in its own layer,
/// shifted by half a cell to the right and down for each layer of depth.
pub open spec fn layer_rect_spec(c: Vec3, color: Color) -> Rect {
    Rect {
        color: color,
        x: (c.0 * CELL + c.2 * (CELL / 2)) as i32,
        y: (c.1 * CELL + c.2 * (CELL / 2)) as i32,
        w: CELL,
        h: CELL,
    }
}

/// What a frame in layers shows: the backdrop, then the snake's cells from
/// head to tail in green, then the food in red, each as a square.
pub open spec fn layered_scene(s: SpatialState) -> Seq<Rect> {
    seq![backdrop_spec()] + Seq::new(s.body.len(), |i: int| layer_rect_spec(s.body[i], Color::Green))
        + seq![layer_rect_spec(s.food, Color::Red)]
}

/// The square of the cell `c` in layers, in the given colour.
pub fn layer_rect(c: Vec3, color: Color) -> (r: Rect)
    requires
        c.in_grid(),
    ensures
        r == layer_rect_spec(c, color),
        r.x == c.0 * 20 + c.2 * 10,
        r.y == c.1 * 20 + c.2 * 10,
{
    let shift: i32 = c.2 * (CELL / 2);
    Rect { color, x: c.0 * CELL + shift, y: c.1 * CELL + shift, w: CELL, h: CELL }
}

/// A frame of the game in three dimensions: the backdrop, the cubes to
/// paint, in order, and the score to show.
#[derive(Debug)]
pub struct SpatialFrame {
    pub backdrop: Rect,
    pub cubes: Vec<Cube>,
    pub score: i32,
}

/// Whether `c` lies in the box.
pub fn point_in_grid(c: Vec3) -> (r: bool)
    ensures
        r == c.in_grid(),
{
    0 <= c.0 && c.0 < WIDTH && 0 <= c.1 && c.1 < HEIGHT && 0 <= c.2 && c.2 < DEPTH
}

/// Whether two lattice points are the same.
fn same_point(a: Vec3, b: Vec3) -> (r: bool)
    ensures
        r == (a == b),
{
    a.0 == b.0 && a.1 == b.1 && a.2 == b.2
}

/// Moves from the cell `c` by the axis vector `d` and wraps the result.
pub fn step3(c: Vec3, d: Vec3) -> (r: Vec3)
    requires
        c.in_grid(),
        is_axis(d),
    ensures
        r == next_cell3(c, d),
        r.in_grid(),
{
    c.add(d).wrap()
}

/// Whether the snake has a cell at `c`.
fn occupies(snake: &VecDeque<Vec3>, c: Vec3) -> (r: bool)
    ensures
        r == snake@.contains(c),
{
    let mut i: usize = 0;
    while i < snake.len()
        invariant
            i <= snake@.len(),
            forall|j: int| 0 <= j < i ==> snake@[j] != c,
        decreases snake@.len() - i,
    {
        if same_point(snake[i], c) {
            return true;
        }
        i += 1;
    }
    false
}

/// Whether the cells all lie in the box and no cell comes twice.
fn cells_valid(cells: &Vec<Vec3>) -> (r: bool)
    ensures
        r == (cells@.no_duplicates() && forall|i: int|
            0 <= i < cells@.len() ==> (#[trigger] cells@[i]).in_grid()),
{
    let mut i: usize = 0;
    while i < cells.len()
        invariant
            i <= cells@.len(),
            forall|j: int| 0 <= j < i ==> (#[trigger] cells@[j]).in_grid(),
            forall|a: int, b: int| 0 <= a < b < i ==> cells@[a] != cells@[b],
        decreases cells@.len() - i,
    {
        let cell = cells[i];
        if !point_in_grid(cell) {
            return false;
        }
        let mut k: usize = 0;
        while k < i
            invariant
                k <= i < cells@.len(),
                cell == cells@[i as int],
                forall|a: int| 0 <= a < k ==> cells@[a] != cell,
            decreases i - k,
        {
            if same_point(cells[k], cell) {
                return false;
            }
            k += 1;
        }
        i += 1;
    }
    proof {
        assert forall|a: int, b: int| 0 <= a < cells@.len() && 0 <= b < cells@.len() && a != b implies cells@[a]
            != cells@[b] by {
            if a < b {
            } else {
                assert(cells@[b] != cells@[a]);
            }
        }
    }
    true
}

/// The game in three dimensions.
#[derive(Debug)]
pub struct Game3D {
    snake: VecDeque<Vec3>,
    orient: Orientation,
    food: Vec3,
    alive: bool,
    score: i32,
}

impl View for Game3D {
    type V = SpatialState;

    closed spec fn view(&self) -> SpatialState {
        SpatialState {
            body: self.snake@,
            orient: self.orient,
            food: self.food,
            alive: self.alive,
            score: self.score as int,
        }
    }
}

impl Game3D {
    /// The game is in a valid state.
    pub open spec fn wf(&self) -> bool {
        spatial_valid(self@)
    }

    /// A new game: one cell at the middle of the box, in the starting frame.
    pub fn new() -> (g: Game3D)
        ensures
            g@ == spatial_start(),
            g.wf(),
    {
        let mut snake = VecDeque::new();
        snake.push_back(Vec3(WIDTH / 2, HEIGHT / 2, DEPTH / 2));
        let g = Game3D {
            snake,
            orient: Orientation::new(),
            food: Vec3(5, 5, 5),
            alive: true,
            score: 0,
        };
        proof {
            assert(g@.body =~= spatial_start().body);
        }
        g
    }

    /// A live game with the given snake (head first), frame and food, if
    /// these make a valid game; its score is what a snake of that length
    /// has eaten.
    pub fn from_parts(cells: Vec<Vec3>, orient: Orientation, food: Vec3) -> (r: Option<Game3D>)
        ensures
            r.is_some() == spatial_valid(spatial_from(cells@, orient, food)),
            r.is_some() ==> r.unwrap()@ == spatial_from(cells@, orient, food) && r.unwrap().wf(),
    {
        if cells.len() == 0 || !frame_valid(orient) || !point_in_grid(food) || !cells_valid(&cells) {
            return None;
        }
        proof {
            lemma_spatial_body_fits(cells@);
        }
        let mut snake: VecDeque<Vec3> = VecDeque::new();
        let mut i: usize = 0;
        while i < cells.len()
            invariant
                i <= cells@.len(),
                snake@ == cells@.subrange(0, i as int),
            decreases cells@.len() - i,
        {
            snake.push_back(cells[i]);
            proof {
                assert(snake@ =~= cells@.subrange(0, i + 1));
            }
            i += 1;
        }
        proof {
            assert(snake@ =~= cells@);
        }
        let score: i32 = (cells.len() - 1) as i32;
        Some(Game3D { snake, orient, food, alive: true, score })
    }

    /// The snake's cells, head first.
    pub fn snake(&self) -> (r: Vec<Vec3>)
        ensures
            r@ == self@.body,
    {
        let mut out: Vec<Vec3> = Vec::new();
        let mut i: usize = 0;
        while i < self.snake.len()
            invariant
                i <= self.snake@.len(),
                out@ == self.snake@.subrange(0, i as int),
            decreases self.snake@.len() - i,
        {
            out.push(self.snake[i]);
            proof {
                assert(out@ =~= self.snake@.subrange(0, i + 1));
            }
            i += 1;
        }
        proof {
            assert(out@ =~= self.snake@);
        }
        out
    }

    /// The cell of the head.
    pub fn head(&self) -> (r: Vec3)
        requires
            self.wf(),
        ensures
            r == self@.body[0],
    {
        self.snake[0]
    }

    /// The number of cells of the snake.
    pub fn len(&self) -> (r: usize)
        ensures
            r == self@.body.len(),
    {
        self.snake.len()
    }

    /// The frame.
    pub fn orient(&self) -> (r: Orientation)
        ensures
            r == self@.orient,
    {
        self.orient
    }

    /// The cell of the food.
    pub fn food(&self) -> (r: Vec3)
        ensures
            r == self@.food,
    {
        self.food
    }

    /// Whether the game is still on.
    pub fn alive(&self) -> (r: bool)
        ensures
            r == self@.alive,
    {
        self.alive
    }

    /// The number of times the snake has eaten.
    pub fn score(&self) -> (r: i32)
        ensures
            r == self@.score,
    {
        self.score
    }

    /// Turns the frame as the key `k` asks. A game that is over is steered
    /// like a live one.
    pub fn steer(&mut self, k: Key)
        requires
            old(self).wf(),
        ensures
            final(self)@.orient == reoriented(old(self)@.orient, k),
            final(self)@.body == old(self)@.body,
            final(self)@.food == old(self)@.food,
            final(self)@.alive == old(self)@.alive,
            final(self)@.score == old(self)@.score,
            final(self).wf(),
    {
        match k {
            Key::Up => self.orient.pitch_up(),
            Key::Down => self.orient.pitch_down(),
            Key::Left => self.orient.yaw_left(),
            Key::Right => self.orient.yaw_right(),
            Key::Other => {},
        }
    }

    /// Turns the frame as the key named `key` asks: see `steer`.
    pub fn change_dir(&mut self, key: &str)
        requires
            old(self).wf(),
        ensures
            final(self)@.orient == reoriented(old(self)@.orient, key_of(key@)),
            final(self)@.body == old(self)@.body,
            final(self)@.food == old(self)@.food,
            final(self)@.alive == old(self)@.alive,
            final(self)@.score == old(self)@.score,
            final(self).wf(),
    {
        let k = parse_key(key);
        self.steer(k);
    }

    /// What the next tick will report, with nothing changed.
    pub fn peek(&self) -> (t: Tick)
        requires
            self.wf(),
        ensures
            t == spatial_tick(self@),
    {
        if !self.alive {
            return Tick::Idle;
        }
        let new_head = step3(self.snake[0], self.orient.f);
        if occupies(&self.snake, new_head) {
            Tick::Crashed
        } else if same_point(new_head, self.food) {
            Tick::Ate
        } else {
            Tick::Moved
        }
    }

    /// One tick. The head moves one cell forward and wraps round the box.
    /// If it would enter a cell of the snake, the game is over and nothing
    /// moves. If it enters the food's cell, the snake grows by that cell,
    /// scores, and the food goes to `fresh_food`. Otherwise the tail
    /// follows. `fresh_food` is not held against the snake's cells.
    pub fn update(&mut self, fresh_food: Vec3) -> (t: Tick)
        requires
            old(self).wf(),
            fresh_food.in_grid(),
        ensures
            final(self)@ == spatial_step(old(self)@, fresh_food),
            t == spatial_tick(old(self)@),
            final(self).wf(),
            t == Tick::Ate ==> final(self)@.body.len() == old(self)@.body.len() + 1,
            t != Tick::Ate ==> final(self)@.body.len() == old(self)@.body.len(),
            t == Tick::Crashed ==> !final(self)@.alive && final(self)@.body == old(self)@.body,
            t == Tick::Idle ==> final(self)@ == old(self)@,
    {
        proof {
            lemma_spatial_step_valid(self@, fresh_food);
            lemma_spatial_body_fits(self@.body);
        }
        if !self.alive {
            return Tick::Idle;
        }
        let head = self.snake[0];
        let new_head = step3(head, self.orient.f);
        if occupies(&self.snake, new_head) {
            self.alive = false;
            return Tick::Crashed;
        }
        let ate = same_point(new_head, self.food);
        if ate {
            self.score += 1;
            self.food = fresh_food;
        } else {
            self.snake.pop_back();
        }
        self.snake.push_front(new_head);
        proof {
            assert(self@.body =~= spatial_step(old(self)@, fresh_food).body);
        }
        if ate {
            Tick::Ate
        } else {
            Tick::Moved
        }
    }

    /// The frame that shows the game in layers, without perspective: one
    /// square for each cell, in the order of the snake, and one for the
    /// food.
    pub fn draw_layered(&self) -> (r: PlanarFrame)
        requires
            self.wf(),
        ensures
            r.rects@ == layered_scene(self@),
            r.score == self@.score,
    {
        let mut rects: Vec<Rect> = Vec::new();
        rects.push(backdrop());
        let mut i: usize = 0;
        while i < self.snake.len()
            invariant
                self.wf(),
                i <= self.snake@.len(),
                rects@ == seq![backdrop_spec()] + Seq::new(
                    i as nat,
                    |j: int| layer_rect_spec(self.snake@[j], Color::Green),
                ),
            decreases self.snake@.len() - i,
        {
            assert(self@.body[i as int].in_grid());
            rects.push(layer_rect(self.snake[i], Color::Green));
            i += 1;
            proof {
                assert(rects@ =~= seq![backdrop_spec()] + Seq::new(
                    i as nat,
                    |j: int| layer_rect_spec(self.snake@[j], Color::Green),
                ));
            }
        }
        rects.push(layer_rect(self.food, Color::Red));
        proof {
            assert(rects@ =~= layered_scene(self@));
        }
        PlanarFrame { rects, score: self.score }
    }

    /// The frame that shows the game as it stands, in perspective.
    pub fn draw(&self) -> (r: SpatialFrame)
        requires
            self.wf(),
        ensures
            r.backdrop == backdrop_spec(),
            r.cubes@ == spatial_scene(self@, Projection::Perspective),
            r.score == self@.score,
    {
        self.draw_with(Projection::Perspective)
    }

    /// The frame that shows the game as it stands, under the projection
    /// `p`: what is painted later covers what was painted before.
    pub fn draw_with(&self, p: Projection) -> (r: SpatialFrame)
        requires
            self.wf(),
        ensures
            r.backdrop == backdrop_spec(),
            r.cubes@ == spatial_scene(self@, p),
            r.score == self@.score,
    {
        let mut items: Vec<Item> = Vec::new();
        let mut i: usize = 0;
        while i < self.snake.len()
            invariant
                i <= self.snake@.len(),
                items@ == Seq::new(i as nat, |j: int| (self.snake@[j], Color::Green)),
            decreases self.snake@.len() - i,
        {
            items.push((self.snake[i], Color::Green));
            i += 1;
            proof {
                assert(items@ =~= Seq::new(i as nat, |j: int| (self.snake@[j], Color::Green)));
            }
        }
        items.push((self.food, Color::Red));
        proof {
            assert(items@ =~= spatial_items(self@));
        }
        let sorted = sort_by_depth(&items);
        proof {
            lemma_items_in_grid(self@);
        }
        let mut cubes: Vec<Cube> = Vec::new();
        let mut n: usize = 0;
        while n < sorted.len()
            invariant
                n <= sorted@.len(),
                forall|j: int| 0 <= j < sorted@.len() ==> (#[trigger] sorted@[j]).0.in_grid(),
                cubes@ == Seq::new(n as nat, |j: int| cube_of(p, sorted@[j].0, sorted@[j].1)),
            decreases sorted@.len() - n,
        {
            let it = sorted[n];
            assert(sorted@[n as int].0.in_grid());
            cubes.push(draw_cube(p, it.0, it.1));
            n += 1;
            proof {
                assert(cubes@ =~= Seq::new(n as nat, |j: int| cube_of(p, sorted@[j].0, sorted@[j].1)));
            }
        }
        SpatialFrame { backdrop: backdrop(), cubes, score: self.score }
    }
}

/// Every thing that a frame of a valid game shows stands in the box.
proof fn lemma_items_in_grid(s: SpatialState)
    requires
        spatial_valid(s),
    ensures
        forall|j: int|
            0 <= j < paint_order(spatial_items(s)).len() ==> (#[trigger] paint_order(
                spatial_items(s),
            )[j]).0.in_grid(),
{
    broadcast use vstd::seq_lib::group_to_multiset_ensures;

    let items = spatial_items(s);
    let sorted = paint_order(items);
    crate::paint::lemma_paint_order(items);
    assert forall|j: int| 0 <= j < sorted.len() implies (#[trigger] sorted[j]).0.in_grid() by {
        assert(sorted.to_multiset().count(sorted[j]) > 0);
        assert(items.to_multiset().count(sorted[j]) > 0);
        assert(items.contains(sorted[j]));
        let b = choose|b: int| 0 <= b < items.len() && items[b] == sorted[j];
        if b < s.body.len() {
            assert(s.body[b].in_grid());
        }
    }
}

/// A snake that lies in the box and crosses itself nowhere has no more
/// cells than the box.
pub proof fn lemma_spatial_body_fits(body: Seq<Vec3>)
    requires
        body.no_duplicates(),
        forall|i: int| 0 <= i < body.len() ==> (#[trigger] body[i]).in_grid(),
    ensures
        body.len() <= WIDTH * HEIGHT * DEPTH,
{
    let codes = Seq::new(body.len(), |i: int| body[i].0 * 400 + body[i].1 * 20 + body[i].2);
    assert forall|i: int, j: int| 0 <= i < codes.len() && 0 <= j < codes.len() && i != j implies codes[i]
        != codes[j] by {
        assert(body[i].in_grid() && body[j].in_grid());
        assert(body[i] != body[j]);
    }
    codes.unique_seq_to_set();
    lemma_int_range(0, 8000);
    assert forall|c: int| codes.to_set().contains(c) implies set_int_range(0, 8000).contains(c) by {
        let i = choose|i: int| 0 <= i < codes.len() && codes[i] == c;
        assert(body[i].in_grid());
    }
    lemma_len_subset(codes.to_set(), set_int_range(0, 8000));
}

/// A tick keeps a valid game valid.
pub proof fn lemma_spatial_step_valid(s: SpatialState, fresh: Vec3)
    requires
        spatial_valid(s),
        fresh.in_grid(),
    ensures
        spatial_valid(spatial_step(s, fresh)),
{
    let t = spatial_step(s, fresh);
    assert(s.body[0].in_grid());
    assert(spatial_target(s).in_grid()) by {
        lemma_next_cell_in_grid(s.body[0], s.orient.f);
    }
    if spatial_tick(s) == Tick::Ate || spatial_tick(s) == Tick::Moved {
        assert forall|i: int| 0 <= i < t.body.len() implies (#[trigger] t.body[i]).in_grid() by {
            if i > 0 {
                assert(t.body[i] == s.body[i - 1]);
            }
        }
        assert forall|i: int, j: int| 0 <= i < t.body.len() && 0 <= j < t.body.len() && i != j implies t.body[i]
            != t.body[j] by {
            if i > 0 {
                assert(t.body[i] == s.body[i - 1]);
            }
            if j > 0 {
                assert(t.body[j] == s.body[j - 1]);
            }
        }
    }
}

/// One step along an axis from a cell of the box, wrapped, is a cell of the
/// box.
pub proof fn lemma_next_cell_in_grid(c: Vec3, d: Vec3)
    requires
        c.in_grid(),
        is_axis(d),
    ensures
        next_cell3(c, d).in_grid(),
{
}

/// A tick on which the snake does not eat leaves its length as it was, and
/// a tick on which it eats adds one cell.
pub proof fn lemma_spatial_length(s: SpatialState, fresh: Vec3)
    requires
        spatial_valid(s),
    ensures
        spatial_tick(s) == Tick::Ate ==> spatial_step(s, fresh).body.len() == s.body.len() + 1,
        spatial_tick(s) != Tick::Ate ==> spatial_step(s, fresh).body.len() == s.body.len(),
        spatial_tick(s) == Tick::Ate ==> spatial_step(s, fresh).score == s.score + 1,
        spatial_tick(s) != Tick::Ate ==> spatial_step(s, fresh).score == s.score,
{
}

/// A live snake whose head would move into a cell of its own body stops
/// there: the game is over, and nothing else has changed.
pub proof fn lemma_spatial_collision(s: SpatialState, fresh: Vec3)
    requires
        spatial_valid(s),
        s.alive,
        s.body.contains(spatial_target(s)),
    ensures
        spatial_tick(s) == Tick::Crashed,
        !spatial_step(s, fresh).alive,
        spatial_step(s, fresh).body == s.body,
        spatial_step(s, fresh).orient == s.orient,
        spatial_step(s, fresh).food == s.food,
        spatial_step(s, fresh).score == s.score,
{
}

/// Once the game is over, a tick changes nothing.
pub proof fn lemma_spatial_over_is_final(s: SpatialState, fresh: Vec3)
    requires
        !s.alive,
    ensures
        spatial_step(s, fresh) == s,
{
}

/// Whatever keys are pressed, the frame of a valid game stays right-handed
/// and orthonormal.
pub proof fn lemma_keys_keep_frame(o: Orientation, k: Key)
    requires
        o.wf(),
    ensures
        reoriented(o, k).wf(),
{
    match key_turn(k) {
        Some(t) => crate::orientation::lemma_turn_keeps_frame(o, t),
        None => {},
    }
}

} // verus!
