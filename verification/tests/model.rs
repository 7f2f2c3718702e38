use std::collections::VecDeque;

use snake_game::event::Tick;
use snake_game::grid::Vec3;
use snake_game::orientation::Orientation;
use snake_game::planar::Game2D;
use snake_game::spatial::Game3D;

/// A small generator of numbers, the same on every run.
struct Dice(u64);

impl Dice {
    fn roll(&mut self, sides: u64) -> i32 {
        self.0 = self.0.wrapping_mul(6364136223846793005).wrapping_add(1442695040888963407);
        ((self.0 >> 33) % sides) as i32
    }
}

const KEYS: [&str; 6] = ["ArrowUp", "ArrowDown", "ArrowLeft", "ArrowRight", "Enter", "x"];

/// The flat game written out plainly, to hold the library against.
struct PlainFlat {
    snake: VecDeque<(i32, i32)>,
    dir: (i32, i32),
    food: (i32, i32),
    alive: bool,
    score: i32,
}

impl PlainFlat {
    fn key(&mut self, key: &str) {
        match key {
            "ArrowUp" if self.dir.1 != 1 => self.dir = (0, -1),
            "ArrowDown" if self.dir.1 != -1 => self.dir = (0, 1),
            "ArrowLeft" if self.dir.0 != 1 => self.dir = (-1, 0),
            "ArrowRight" if self.dir.0 != -1 => self.dir = (1, 0),
            _ => {}
        }
    }

    fn tick(&mut self, fresh: (i32, i32)) -> Tick {
        if !self.alive {
            return Tick::Idle;
        }
        let mut head = *self.snake.front().unwrap();
        head.0 = (head.0 + self.dir.0 + 20) % 20;
        head.1 = (head.1 + self.dir.1 + 20) % 20;
        if self.snake.contains(&head) {
            self.alive = false;
            return Tick::Crashed;
        }
        self.snake.push_front(head);
        if head == self.food {
            self.score += 1;
            self.food = fresh;
            Tick::Ate
        } else {
            self.snake.pop_back();
            Tick::Moved
        }
    }
}

/// The game in three dimensions written out plainly.
struct PlainDeep {
    snake: VecDeque<Vec3>,
    f: Vec3,
    u: Vec3,
    r: Vec3,
    food: Vec3,
    alive: bool,
    score: i32,
}

fn minus(v: Vec3) -> Vec3 {
    Vec3(-v.0, -v.1, -v.2)
}

impl PlainDeep {
    fn key(&mut self, key: &str) {
        let (f, u, r) = (self.f, self.u, self.r);
        match key {
            "ArrowUp" => {
                self.f = u;
                self.u = minus(f);
            }
            "ArrowDown" => {
                self.f = minus(u);
                self.u = f;
            }
            "ArrowLeft" => {
                self.f = minus(r);
                self.r = f;
            }
            "ArrowRight" => {
                self.f = r;
                self.r = minus(f);
            }
            _ => {}
        }
    }

    fn tick(&mut self, fresh: Vec3) -> Tick {
        if !self.alive {
            return Tick::Idle;
        }
        let head = *self.snake.front().unwrap();
        let next = Vec3(
            (head.0 + self.f.0 + 20) % 20,
            (head.1 + self.f.1 + 20) % 20,
            (head.2 + self.f.2 + 20) % 20,
        );
        if self.snake.contains(&next) {
            self.alive = false;
            return Tick::Crashed;
        }
        let ate = next == self.food;
        if ate {
            self.score += 1;
            self.food = fresh;
        } else {
            self.snake.pop_back();
        }
        self.snake.push_front(next);
        if ate {
            Tick::Ate
        } else {
            Tick::Moved
        }
    }
}

#[test]
fn flat_game_agrees_with_a_plain_model() {
    let mut dice = Dice(7);
    let mut finished = 0;
    let mut eaten = 0;
    for _ in 0..200 {
        let cells: Vec<(i32, i32)> = (0..10).map(|i| (10 - i, 10)).collect();
        let mut game = Game2D::from_parts(cells.clone(), (1, 0), (11, 10)).expect("valid parts");
        let mut plain = PlainFlat {
            snake: VecDeque::from(cells),
            dir: (1, 0),
            food: (11, 10),
            alive: true,
            score: 9,
        };
        for _ in 0..400 {
            if dice.roll(3) == 0 {
                let key = KEYS[dice.roll(6) as usize];
                game.change_dir(key);
                plain.key(key);
            }
            // The food is thrown close to the head, so that the snake eats often.
            let head = game.head();
            let fresh = ((head.0 + dice.roll(3) + 19) % 20, (head.1 + dice.roll(3) + 19) % 20);
            let before = game.len();
            let expected = plain.tick(fresh);
            assert_eq!(game.peek(), expected);
            let got = game.update(fresh);
            assert_eq!(got, expected);
            assert_eq!(game.snake(), Vec::from(plain.snake.clone()));
            assert_eq!(game.dir(), plain.dir);
            assert_eq!(game.food(), plain.food);
            assert_eq!(game.alive(), plain.alive);
            assert_eq!(game.score(), plain.score);
            assert_eq!(game.len(), if got == Tick::Ate { before + 1 } else { before });
            assert_eq!(game.score() as usize, game.len() - 1);
            if got == Tick::Ate {
                eaten += 1;
            }
        }
        if !game.alive() {
            finished += 1;
        }
    }
    assert!(eaten > 100);
    assert!(finished > 100);
}

#[test]
fn spatial_game_agrees_with_a_plain_model() {
    let mut dice = Dice(11);
    let mut finished = 0;
    let mut eaten = 0;
    for _ in 0..200 {
        let cells: Vec<Vec3> = (0..10).map(|i| Vec3(10, 10, 10 - i)).collect();
        let mut game =
            Game3D::from_parts(cells.clone(), Orientation::new(), Vec3(10, 10, 11)).expect("valid parts");
        let mut plain = PlainDeep {
            snake: VecDeque::from(cells),
            f: Vec3(0, 0, 1),
            u: Vec3(1, 0, 0),
            r: Vec3(0, 1, 0),
            food: Vec3(10, 10, 11),
            alive: true,
            score: 9,
        };
        for _ in 0..400 {
            if dice.roll(3) == 0 {
                let key = KEYS[dice.roll(6) as usize];
                game.change_dir(key);
                plain.key(key);
            }
            let head = game.head();
            let fresh = Vec3(
                (head.0 + dice.roll(3) + 19) % 20,
                (head.1 + dice.roll(3) + 19) % 20,
                (head.2 + dice.roll(3) + 19) % 20,
            );
            let before = game.len();
            let expected = plain.tick(fresh);
            assert_eq!(game.peek(), expected);
            let got = game.update(fresh);
            assert_eq!(got, expected);
            assert_eq!(game.snake(), Vec::from(plain.snake.clone()));
            assert_eq!(game.orient().f, plain.f);
            assert_eq!(game.orient().u, plain.u);
            assert_eq!(game.orient().r, plain.r);
            assert_eq!(game.food(), plain.food);
            assert_eq!(game.alive(), plain.alive);
            assert_eq!(game.score(), plain.score);
            assert_eq!(game.len(), if got == Tick::Ate { before + 1 } else { before });
            if got == Tick::Ate {
                eaten += 1;
            }
        }
        if !game.alive() {
            finished += 1;
        }
    }
    assert!(eaten > 100);
    assert!(finished > 100);
}
