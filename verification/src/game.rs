//! The game that is on, flat or in three dimensions, and what the front end
//! does with it: start, steer, tick, draw, restart, change the mode.

use vstd::prelude::*;
use crate::event::{key_of, Tick};
use crate::grid::{Vec3, CELL, HEIGHT, WIDTH};
use crate::planar::{
    lemma_no_reversal, lemma_planar_step_valid, planar_scene, planar_start, planar_step,
    planar_tick, planar_valid, steered, Game2D, PlanarFrame, PlanarState,
};
use crate::projection::Projection;
use crate::render::backdrop_spec;
use crate::spatial::{
    lemma_keys_keep_frame, lemma_spatial_step_valid, reoriented, spatial_scene, spatial_start,
    spatial_step, spatial_tick, spatial_valid, Game3D, SpatialFrame, SpatialState,
};

verus! {

/// The game that is on.
#[derive(Debug)]
pub enum GameVariant {
    TwoD(Game2D),
    ThreeD(Game3D),
}

/// The game that is on, as a mathematical value.
pub enum VariantState {
    TwoD(PlanarState),
    ThreeD(SpatialState),
}

/// A frame of the game that is on.
#[derive(Debug)]
pub enum Frame {
    TwoD(PlanarFrame),
    ThreeD(SpatialFrame),
}

/// What holds of every game.
pub open spec fn variant_valid(s: VariantState) -> bool {
    match s {
        VariantState::TwoD(p) => planar_valid(p),
        VariantState::ThreeD(q) => spatial_valid(q),
    }
}

/// The game after the key named `name`.
pub open spec fn variant_steered(s: VariantState, name: Seq<char>) -> VariantState {
    match s {
        VariantState::TwoD(p) => VariantState::TwoD(
            PlanarState {
                body: p.body,
                dir: steered(p.dir, key_of(name)),
                food: p.food,
                alive: p.alive,
                score: p.score,
            },
        ),
        VariantState::ThreeD(q) => VariantState::ThreeD(
            SpatialState {
                body: q.body,
                orient: reoriented(q.orient, key_of(name)),
                food: q.food,
                alive: q.alive,
                score: q.score,
            },
        ),
    }
}

/// The game after one tick; the flat game takes the x and y of `fresh` for
/// its food.
pub open spec fn variant_step(s: VariantState, fresh: Vec3) -> VariantState {
    match s {
        VariantState::TwoD(p) => VariantState::TwoD(planar_step(p, (fresh.0, fresh.1))),
        VariantState::ThreeD(q) => VariantState::ThreeD(spatial_step(q, fresh)),
    }
}

/// What the next tick reports.
pub open spec fn variant_tick(s: VariantState) -> Tick {
    match s {
        VariantState::TwoD(p) => planar_tick(p),
        VariantState::ThreeD(q) => spatial_tick(q),
    }
}

/// The game started again, in the mode it is in.
pub open spec fn restarted(s: VariantState) -> VariantState {
    match s {
        VariantState::TwoD(_) => VariantState::TwoD(planar_start()),
        VariantState::ThreeD(_) => VariantState::ThreeD(spatial_start()),
    }
}

/// A new game in the other mode.
pub open spec fn toggled(s: VariantState) -> VariantState {
    match s {
        VariantState::TwoD(_) => VariantState::ThreeD(spatial_start()),
        VariantState::ThreeD(_) => VariantState::TwoD(planar_start()),
    }
}

impl View for GameVariant {
    type V = VariantState;

    open spec fn view(&self) -> VariantState {
        match self {
            GameVariant::TwoD(g) => VariantState::TwoD(g@),
            GameVariant::ThreeD(g) => VariantState::ThreeD(g@),
        }
    }
}

impl GameVariant {
    /// The game is in a valid state.
    pub open spec fn wf(&self) -> bool {
        variant_valid(self@)
    }

    /// Whether the game is the flat one.
    pub fn is_flat(&self) -> (r: bool)
        ensures
            r == (self@ is TwoD),
    {
        match self {
            GameVariant::TwoD(_) => true,
            GameVariant::ThreeD(_) => false,
        }
    }

    /// Whether the game is still on.
    pub fn alive(&self) -> (r: bool)
        ensures
            r == match self@ {
                VariantState::TwoD(p) => p.alive,
                VariantState::ThreeD(q) => q.alive,
            },
    {
        match self {
            GameVariant::TwoD(g) => g.alive(),
            GameVariant::ThreeD(g) => g.alive(),
        }
    }

    /// The number of times the snake has eaten.
    pub fn score(&self) -> (r: i32)
        ensures
            r == match self@ {
                VariantState::TwoD(p) => p.score,
                VariantState::ThreeD(q) => q.score,
            },
    {
        match self {
            GameVariant::TwoD(g) => g.score(),
            GameVariant::ThreeD(g) => g.score(),
        }
    }

    /// Steers the game by the key named `key`: the flat game turns its
    /// step, the other its frame.
    pub fn change_dir(&mut self, key: &str)
        requires
            old(self).wf(),
        ensures
            final(self)@ == variant_steered(old(self)@, key@),
            final(self).wf(),
    {
        match self {
            GameVariant::TwoD(g) => g.change_dir(key),
            GameVariant::ThreeD(g) => g.change_dir(key),
        }
    }

    /// What the next tick will report, with nothing changed.
    pub fn peek(&self) -> (t: Tick)
        requires
            self.wf(),
        ensures
            t == variant_tick(self@),
    {
        match self {
            GameVariant::TwoD(g) => g.peek(),
            GameVariant::ThreeD(g) => g.peek(),
        }
    }

    /// One tick of the game that is on.
    pub fn update(&mut self, fresh_food: Vec3) -> (t: Tick)
        requires
            old(self).wf(),
            fresh_food.in_grid(),
        ensures
            final(self)@ == variant_step(old(self)@, fresh_food),
            t == variant_tick(old(self)@),
            final(self).wf(),
    {
        match self {
            GameVariant::TwoD(g) => g.update((fresh_food.0, fresh_food.1)),
            GameVariant::ThreeD(g) => g.update(fresh_food),
        }
    }

    /// The frame that shows the game as it stands; three dimensions are
    /// shown in perspective.
    pub fn draw(&self) -> (r: Frame)
        requires
            self.wf(),
        ensures
            match (self@, r) {
                (VariantState::TwoD(p), Frame::TwoD(f)) => f.rects@ == planar_scene(p) && f.score
                    == p.score,
                (VariantState::ThreeD(q), Frame::ThreeD(f)) => f.backdrop == backdrop_spec()
                    && f.cubes@ == spatial_scene(q, Projection::Perspective) && f.score == q.score,
                _ => false,
            },
    {
        match self {
            GameVariant::TwoD(g) => Frame::TwoD(g.draw()),
            GameVariant::ThreeD(g) => Frame::ThreeD(g.draw()),
        }
    }

    /// Starts the game again, in the mode it is in.
    pub fn restart(&mut self)
        ensures
            final(self)@ == restarted(old(self)@),
            final(self).wf(),
    {
        match self {
            GameVariant::TwoD(g) => {
                *g = Game2D::new();
            },
            GameVariant::ThreeD(g) => {
                *g = Game3D::new();
            },
        }
    }
}

/// The width and the height of the canvas in pixels.
pub fn canvas_size() -> (r: (u32, u32))
    ensures
        r.0 == WIDTH * CELL,
        r.1 == HEIGHT * CELL,
{
    ((WIDTH * CELL) as u32, (HEIGHT * CELL) as u32)
}

/// The game that the page opens with: a new flat game.
pub fn start() -> (g: GameVariant)
    ensures
        g@ == VariantState::TwoD(planar_start()),
        g.wf(),
{
    GameVariant::TwoD(Game2D::new())
}

/// Gives up the game that is on for a new one in the other mode.
pub fn toggle_mode(game: GameVariant) -> (g: GameVariant)
    ensures
        g@ == toggled(game@),
        g.wf(),
{
    match game {
        GameVariant::TwoD(_) => GameVariant::ThreeD(Game3D::new()),
        GameVariant::ThreeD(_) => GameVariant::TwoD(Game2D::new()),
    }
}

/// Starts the game again, in the mode it is in, whatever state it was in.
pub fn restart(game: &mut GameVariant)
    ensures
        final(game)@ == restarted(old(game)@),
        final(game).wf(),
{
    game.restart();
}

/// What can happen to a game between two frames.
pub enum Input {
    /// A key was pressed; its name.
    Key(Seq<char>),
    /// The timer fired; the cell that the food goes to if it is eaten.
    Tick(Vec3),
    /// The player asked to start again.
    Restart,
    /// The player asked for the other mode.
    Toggle,
}

/// The game after the input `i`.
pub open spec fn variant_after(s: VariantState, i: Input) -> VariantState {
    match i {
        Input::Key(name) => variant_steered(s, name),
        Input::Tick(fresh) => variant_step(s, fresh),
        Input::Restart => restarted(s),
        Input::Toggle => toggled(s),
    }
}

/// The game after the inputs of `inputs`, first to last.
pub open spec fn variant_run(s: VariantState, inputs: Seq<Input>) -> VariantState
    decreases inputs.len(),
{
    if inputs.len() == 0 {
        s
    } else {
        variant_after(variant_run(s, inputs.drop_last()), inputs.last())
    }
}

/// Every tick among the inputs brings a cell of the grid for the food.
pub open spec fn food_in_grid(inputs: Seq<Input>) -> bool {
    forall|i: int|
        0 <= i < inputs.len() ==> match #[trigger] inputs[i] {
            Input::Tick(fresh) => fresh.in_grid(),
            _ => true,
        }
}

/// One input takes a valid game to a valid game.
pub proof fn lemma_input_keeps_valid(s: VariantState, i: Input)
    requires
        variant_valid(s),
        match i {
            Input::Tick(fresh) => fresh.in_grid(),
            _ => true,
        },
    ensures
        variant_valid(variant_after(s, i)),
{
    match i {
        Input::Key(name) => {
            match s {
                VariantState::TwoD(p) => {
                    lemma_no_reversal(p.dir, key_of(name));
                },
                VariantState::ThreeD(q) => {
                    lemma_keys_keep_frame(q.orient, key_of(name));
                },
            }
        },
        Input::Tick(fresh) => {
            match s {
                VariantState::TwoD(p) => {
                    lemma_planar_step_valid(p, (fresh.0, fresh.1));
                },
                VariantState::ThreeD(q) => {
                    lemma_spatial_step_valid(q, fresh);
                },
            }
        },
        _ => {
            lemma_toggle_twice(s);
        },
    }
}

/// Whatever happens to a valid game, in whatever order, it stays valid: the
/// snake is never empty, lies in the grid and crosses itself nowhere, and
/// the score counts the cells it has grown by.
pub proof fn lemma_every_state_is_valid(s: VariantState, inputs: Seq<Input>)
    requires
        variant_valid(s),
        food_in_grid(inputs),
    ensures
        variant_valid(variant_run(s, inputs)),
    decreases inputs.len(),
{
    if inputs.len() > 0 {
        let before = inputs.drop_last();
        assert forall|i: int| 0 <= i < before.len() implies match #[trigger] before[i] {
            Input::Tick(fresh) => fresh.in_grid(),
            _ => true,
        } by {
            assert(before[i] == inputs[i]);
        }
        lemma_every_state_is_valid(s, before);
        assert(inputs.last() == inputs[inputs.len() - 1]);
        lemma_input_keeps_valid(variant_run(s, before), inputs.last());
    }
}

/// Changing the mode twice gives the game that a restart gives.
pub proof fn lemma_toggle_twice(s: VariantState)
    ensures
        toggled(toggled(s)) == restarted(s),
        variant_valid(toggled(s)),
        variant_valid(restarted(s)),
{
    assert(planar_start().body.no_duplicates());
    assert(spatial_start().body.no_duplicates());
}

} // verus!
