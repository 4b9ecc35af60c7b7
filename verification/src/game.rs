use vstd::prelude::*;

use rand::Rng;

use crate::input::Key;
use crate::point::Point;
use crate::snake::{Direction, Snake};
use crate::terminal::{in_interior, on_border, Command, Terminal, SCREEN_MARGIN};

verus! {

/// How many random cells are tried for new food before the field is searched
/// in order.
pub const MAX_FOOD_DRAWS: u32 = 1024;

/// Whether the game goes on. `Lost` and `Quit` are final.
#[derive(Clone, Copy, PartialEq, Eq, Structural, Debug)]
pub enum GameState {
    Running,
    Lost,
    Quit,
}

/// Whether food may be put on `p` in a `width` by `height` field: columns
/// from 1 up to, but not including, `width - 2`, and rows likewise.
pub open spec fn food_cell(width: u16, height: u16, p: Point) -> bool {
    &&& 1 <= p.x < width - 2
    &&& 1 <= p.y < height - 2
}

/// Whether `p` is a food cell of a `width` by `height` field that none of the
/// segments in `body` lies on.
pub open spec fn vacant(width: u16, height: u16, body: Seq<Point>, p: Point) -> bool {
    food_cell(width, height, p) && !body.contains(p)
}

/// Whether `p` comes no later than `q` when the field is read row by row,
/// each row from the left.
pub open spec fn reads_before(p: Point, q: Point) -> bool {
    p.y < q.y || (p.y == q.y && p.x <= q.x)
}

/// A game of Snake: the field as the drawing side sees it, the food if any
/// is out, the snake, the points scored and whether the game goes on.
#[derive(Debug)]
pub struct Game {
    pub terminal: Terminal,
    pub food: Option<Point>,
    pub snake: Snake,
    pub score: u16,
    pub state: GameState,
}

/// A number from `low` up to, but not including, `high`, drawn by
/// `rand::Rng::gen_range` from the generator that `rand::thread_rng` hands
/// out. The range must not be empty: `gen_range` panics on an empty one.
/// Only the bounds are promised, and they are taken on trust from `rand`;
/// which number comes is up to chance. The generator itself gives up where
/// the operating system has no entropy for it, when it is first seeded and
/// when it is seeded again.
#[verifier::external_body]
fn random_in_range(low: u16, high: u16) -> (drawn: u16)
    requires
        low < high,
    ensures
        low <= drawn < high,
{
    rand::thread_rng().gen_range(low..high)
}

impl Game {
    /// Whether `key` ends the game.
    pub open spec fn quits(key: Option<Key>) -> bool {
        key matches Some(k) && k.is_quit()
    }

    /// The heading after `key`: an arrow key sets it, anything else and no
    /// key at all leave it.
    pub open spec fn heading_after(heading: Direction, key: Option<Key>) -> Direction {
        match key {
            Some(k) => match k.heading() {
                Some(asked) => asked,
                None => heading,
            },
            None => heading,
        }
    }

    /// The heading after every key of `keys` was taken in, first to last.
    pub open spec fn heading_after_all(heading: Direction, keys: Seq<Key>) -> Direction
        decreases keys.len(),
    {
        if keys.len() == 0 {
            heading
        } else {
            Self::heading_after(
                Self::heading_after_all(heading, keys.drop_last()),
                Some(keys.last()),
            )
        }
    }

    /// Whether the key at `at` is the first quit key among `keys`.
    pub open spec fn first_quit(keys: Seq<Key>, at: int) -> bool {
        &&& 0 <= at < keys.len()
        &&& keys[at].is_quit()
        &&& forall|j: int| 0 <= j < at ==> !(#[trigger] keys[j]).is_quit()
    }

    /// Where the head goes on the next move.
    pub open spec fn next_head(self) -> Point
        recommends
            self.snake.wf(),
    {
        self.snake.head().stepped(self.snake.direction)
    }

    /// Whether the next move lands the head on the food.
    pub open spec fn will_eat(self) -> bool {
        self.food == Some(self.next_head())
    }

    /// Whether the snake can make its next move: it has a head, the cell in
    /// front of the head has coordinates, and the score can still count a
    /// meal if there is one.
    pub open spec fn can_move(self) -> bool {
        &&& self.snake.wf()
        &&& self.snake.head().can_step(self.snake.direction)
        &&& (self.will_eat() ==> self.score < u16::MAX)
    }

    /// Whether food may be placed on `p`: it is a food cell and the snake
    /// is not on it.
    pub open spec fn free_cell(self, p: Point) -> bool {
        vacant(self.terminal.width, self.terminal.height, self.snake.body@, p)
    }

    /// Whether food may be placed anywhere at all.
    pub open spec fn has_free_cell(self) -> bool {
        exists|p: Point| vacant(self.terminal.width, self.terminal.height, self.snake.body@, p)
    }

    /// A new game on a `width` by `height` field: a snake of one segment at
    /// the centre heading right, no food yet, no points, and a terminal
    /// whose size was `original_size` when the caller asked.
    pub fn new(width: u16, height: u16, original_size: (u16, u16)) -> (game: Game)
        ensures
            game.terminal.width == width,
            game.terminal.height == height,
            game.terminal.original_size == original_size,
            game.terminal.boarder@ == Seq::<Point>::empty(),
            game.food.is_none(),
            game.snake.body@ == seq![Snake::centre(width, height)],
            game.snake.direction == Direction::Right,
            game.score == 0,
            game.state == GameState::Running,
            width >= 3 && height >= 3 ==> in_interior(width, height, game.snake.head()),
    {
        Game {
            terminal: Terminal::new(width, height, original_size),
            food: None,
            snake: Snake::new(width, height),
            score: 0,
            state: GameState::Running,
        }
    }

    /// Takes in what the player pressed while the game waited, if anything.
    /// The quit key ends the game and is reported; an arrow key sets the
    /// heading, also straight back; any other key changes nothing.
    pub fn get_user_input(&mut self, key: Option<Key>) -> (quit: bool)
        ensures
            quit == Self::quits(key),
            quit ==> *final(self) == (Game { state: GameState::Quit, ..*old(self) }),
            !quit ==> *final(self) == (Game {
                snake: Snake {
                    direction: Self::heading_after(old(self).snake.direction, key),
                    ..old(self).snake
                },
                ..*old(self)
            }),
    {
        match key {
            Some(k) => {
                if k.quits() {
                    self.state = GameState::Quit;
                    return true;
                }
                match k.to_heading() {
                    Some(asked) => {
                        self.snake.direction = asked;
                    },
                    None => {},
                }
                false
            },
            None => false,
        }
    }

    /// Takes in every key that was pressed during one wait, in the order in
    /// which the keys came. Each arrow key overrides the heading that an
    /// earlier one set. The first quit key ends the game and is reported;
    /// what came after it is not looked at.
    pub fn take_keys(&mut self, keys: &Vec<Key>) -> (quit: bool)
        ensures
            quit == (exists|i: int| 0 <= i < keys@.len() && (#[trigger] keys@[i]).is_quit()),
            !quit ==> *final(self) == (Game {
                snake: Snake {
                    direction: Self::heading_after_all(old(self).snake.direction, keys@),
                    ..old(self).snake
                },
                ..*old(self)
            }),
            quit ==> (exists|at: int| #[trigger]
                Self::first_quit(keys@, at) && *final(self) == (Game {
                    state: GameState::Quit,
                    snake: Snake {
                        direction: Self::heading_after_all(
                            old(self).snake.direction,
                            keys@.take(at),
                        ),
                        ..old(self).snake
                    },
                    ..*old(self)
                })),
    {
        let mut i: usize = 0;
        while i < keys.len()
            invariant
                i <= keys@.len(),
                forall|j: int| 0 <= j < i ==> !(#[trigger] keys@[j]).is_quit(),
                *self == (Game {
                    snake: Snake {
                        direction: Self::heading_after_all(
                            old(self).snake.direction,
                            keys@.take(i as int),
                        ),
                        ..old(self).snake
                    },
                    ..*old(self)
                }),
            decreases keys@.len() - i,
        {
            let ghost taken = keys@.take(i as int);
            assert(keys@.take(i + 1).drop_last() =~= taken);
            if self.get_user_input(Some(keys[i])) {
                assert(Self::first_quit(keys@, i as int));
                return true;
            }
            i += 1;
        }
        assert(keys@.take(i as int) =~= keys@);
        false
    }

    /// Moves the snake one cell along its heading without growing.
    pub fn move_snake(&mut self)
        requires
            old(self).snake.wf(),
            old(self).snake.head().can_step(old(self).snake.direction),
        ensures
            final(self).snake.body@ == Snake::advanced_body(
                old(self).snake.body@,
                old(self).snake.direction,
                false,
            ),
            final(self).snake.body@.len() == old(self).snake.body@.len(),
            final(self).snake.direction == old(self).snake.direction,
            final(self).terminal == old(self).terminal,
            final(self).food == old(self).food,
            final(self).score == old(self).score,
            final(self).state == old(self).state,
    {
        let heading = self.snake.direction;
        self.snake.advance(heading, false);
    }

    /// Moves the snake one cell along its heading. Where the head lands on
    /// the food, the snake grows by one segment, the food is gone and the
    /// score goes up by one; anywhere else the snake keeps its length and
    /// nothing else changes.
    pub fn move_or_eat(&mut self) -> (ate: bool)
        requires
            old(self).can_move(),
        ensures
            ate == old(self).will_eat(),
            final(self).snake.body@ == Snake::advanced_body(
                old(self).snake.body@,
                old(self).snake.direction,
                ate,
            ),
            final(self).snake.head() == old(self).next_head(),
            final(self).snake.direction == old(self).snake.direction,
            final(self).terminal == old(self).terminal,
            final(self).state == old(self).state,
            !ate ==> final(self).snake.body@.len() == old(self).snake.body@.len(),
            !ate ==> final(self).food == old(self).food,
            !ate ==> final(self).score == old(self).score,
            ate ==> final(self).snake.body@.len() == old(self).snake.body@.len() + 1,
            ate ==> final(self).food.is_none(),
            ate ==> final(self).score == old(self).score + 1,
    {
        let heading = self.snake.direction;
        let next = self.snake.get_head().neighbour(heading);
        let ate = match self.food {
            Some(food) => food == next,
            None => false,
        };
        self.snake.advance(heading, ate);
        if ate {
            self.food = None;
            self.score = self.score + 1;
        }
        ate
    }

    /// Whether the head has run into the rest of the snake.
    pub fn crossed(&self) -> (hit: bool)
        requires
            self.snake.wf(),
        ensures
            hit == Snake::collides(self.snake.body@),
    {
        self.snake.self_collision()
    }

    /// Whether the head is on a border cell.
    pub fn hit_wall(&self) -> (hit: bool)
        requires
            self.snake.wf(),
        ensures
            hit == self.terminal.boarder@.contains(self.snake.head()),
            self.terminal.border_ready() ==> hit == on_border(
                self.terminal.width,
                self.terminal.height,
                self.snake.head(),
            ),
    {
        self.terminal.is_border(*self.snake.get_head())
    }

    /// The first cell, reading the field row by row, on which food may be
    /// placed; `None` when there is no such cell.
    pub fn first_free_cell(&self) -> (found: Option<Point>)
        ensures
            found matches Some(p) ==> self.free_cell(p) && (forall|q: Point| #[trigger]
                vacant(self.terminal.width, self.terminal.height, self.snake.body@, q)
                    ==> reads_before(p, q)),
            found.is_none() ==> !self.has_free_cell(),
    {
        let width = self.terminal.width;
        let height = self.terminal.height;
        if width < 4 || height < 4 {
            return None;
        }
        let mut y: u16 = 1;
        while y < height - 2
            invariant
                1 <= y <= height - 2,
                4 <= width == self.terminal.width,
                4 <= height == self.terminal.height,
                forall|q: Point| #[trigger]
                    vacant(width, height, self.snake.body@, q) ==> q.y >= y,
            decreases height - y,
        {
            let mut x: u16 = 1;
            while x < width - 2
                invariant
                    1 <= x <= width - 2,
                    1 <= y < height - 2,
                    4 <= width == self.terminal.width,
                    4 <= height == self.terminal.height,
                    forall|q: Point| #[trigger]
                        vacant(width, height, self.snake.body@, q) ==> q.y > y || (q.y == y && q.x
                            >= x),
                decreases width - x,
            {
                let cell = Point { x, y };
                if !self.snake.occupies(cell) {
                    return Some(cell);
                }
                x += 1;
            }
            y += 1;
        }
        None
    }

    /// Puts the food on `candidate` if food may be placed there, and says
    /// whether it did.
    pub fn offer_food(&mut self, candidate: Point) -> (taken: bool)
        ensures
            taken == old(self).free_cell(candidate),
            taken ==> *final(self) == (Game { food: Some(candidate), ..*old(self) }),
            !taken ==> *final(self) == *old(self),
    {
        let width = self.terminal.width;
        let height = self.terminal.height;
        if width < 4 || height < 4 {
            return false;
        }
        if candidate.x < 1 || candidate.x >= width - 2 || candidate.y < 1 || candidate.y >= height
            - 2 {
            return false;
        }
        if self.snake.occupies(candidate) {
            return false;
        }
        self.food = Some(candidate);
        true
    }

    /// Places new food on a random cell that is off the border and off the
    /// snake. Cells are drawn at random and offered until one is taken; if
    /// `MAX_FOOD_DRAWS` draws in a row land on the snake, the first free cell
    /// in reading order is taken instead. The result says whether food was
    /// placed, which it is whenever a free cell exists.
    pub fn new_food(&mut self) -> (placed: bool)
        ensures
            placed == old(self).has_free_cell(),
            placed ==> ({
                &&& final(self).food matches Some(p)
                &&& old(self).free_cell(p)
                &&& in_interior(old(self).terminal.width, old(self).terminal.height, p)
                &&& !on_border(old(self).terminal.width, old(self).terminal.height, p)
            }),
            !placed ==> final(self).food == old(self).food,
            final(self).terminal == old(self).terminal,
            final(self).snake == old(self).snake,
            final(self).score == old(self).score,
            final(self).state == old(self).state,
    {
        let width = self.terminal.width;
        let height = self.terminal.height;
        if width >= 4 && height >= 4 {
            let mut draws: u32 = 0;
            while draws < MAX_FOOD_DRAWS
                invariant
                    *self == *old(self),
                    4 <= width == self.terminal.width,
                    4 <= height == self.terminal.height,
                decreases MAX_FOOD_DRAWS - draws,
            {
                let x = random_in_range(1, width - 2);
                let y = random_in_range(1, height - 2);
                if self.offer_food(Point::new(x, y)) {
                    return true;
                }
                draws += 1;
            }
        }
        match self.first_free_cell() {
            Some(cell) => {
                self.food = Some(cell);
                true
            },
            None => false,
        }
    }

    /// Gets the game ready for play: the border is computed and the first
    /// food placed. The result tells the caller how to prepare the terminal.
    pub fn start(&mut self) -> (commands: Vec<Command>)
        requires
            old(self).terminal.wf(),
        ensures
            commands@ == old(self).terminal.setup_commands(),
            final(self).terminal.width == old(self).terminal.width,
            final(self).terminal.height == old(self).terminal.height,
            final(self).terminal.original_size == old(self).terminal.original_size,
            final(self).terminal.wf(),
            final(self).terminal.border_ready(),
            final(self).snake == old(self).snake,
            final(self).score == old(self).score,
            final(self).state == old(self).state,
            old(self).has_free_cell() ==> (final(self).food matches Some(p) && old(self).free_cell(
                p,
            )),
            !old(self).has_free_cell() ==> final(self).food == old(self).food,
    {
        let commands = self.terminal.setup_ui();
        self.new_food();
        commands
    }

    /// Whether `tick` may be called with `key`: the screen's height is a
    /// number, the snake has a head and, if this tick moves the snake, the move can
    /// be made.
    pub open spec fn tickable(self, key: Option<Key>) -> bool {
        &&& self.terminal.wf()
        &&& self.snake.wf()
        &&& (self.state == GameState::Running && !Self::quits(key) ==> self.turned(key).can_move())
    }

    /// The game with the heading that `key` asks for.
    pub open spec fn turned(self, key: Option<Key>) -> Game {
        Game {
            snake: Snake {
                direction: Self::heading_after(self.snake.direction, key),
                ..self.snake
            },
            ..self
        }
    }

    /// Tests at run time what `tick` demands.
    pub fn is_tickable(&self, key: Option<Key>) -> (ok: bool)
        ensures
            ok == self.tickable(key),
    {
        if self.terminal.height > u16::MAX - SCREEN_MARGIN || self.snake.body.len() == 0 {
            return false;
        }
        let running = match self.state {
            GameState::Running => true,
            _ => false,
        };
        let mut heading = self.snake.direction;
        match key {
            Some(k) => {
                if k.quits() {
                    return true;
                }
                match k.to_heading() {
                    Some(asked) => {
                        heading = asked;
                    },
                    None => {},
                }
            },
            None => {},
        }
        if !running {
            return true;
        }
        match self.snake.get_head().step(heading) {
            Some(next) => match self.food {
                Some(food) => food != next || self.score < u16::MAX,
                None => true,
            },
            None => false,
        }
    }

    /// One tick of a running game: take in the key, move the snake and let
    /// it eat, put out new food where there is none, and see whether the
    /// snake ran into itself or the border. The result is the frame to draw.
    /// The quit key ends the game before anything moves, and a game that is
    /// over stays as it is; both draw nothing.
    pub fn tick(&mut self, key: Option<Key>) -> (commands: Vec<Command>)
        requires
            old(self).tickable(key),
        ensures
            old(self).state != GameState::Running ==> *final(self) == *old(self) && commands@.len()
                == 0,
            old(self).state == GameState::Running && Self::quits(key) ==> *final(self) == (Game {
                state: GameState::Quit,
                ..*old(self)
            }) && commands@.len() == 0,
            old(self).state == GameState::Running && !Self::quits(key) ==> {
                let turned = old(self).turned(key);
                let ate = turned.will_eat();
                let after = *final(self);
                &&& after.terminal == old(self).terminal
                &&& after.snake.direction == turned.snake.direction
                &&& after.snake.body@ == Snake::advanced_body(
                    old(self).snake.body@,
                    turned.snake.direction,
                    ate,
                )
                &&& after.score == old(self).score + if ate {
                    1int
                } else {
                    0int
                }
                &&& !ate && old(self).food.is_some() ==> after.food == old(self).food
                &&& ate || old(self).food.is_none() ==> {
                    ||| after.food matches Some(p) && after.free_cell(p)
                    ||| after.food.is_none() && !after.has_free_cell()
                }
                &&& after.state == if Snake::collides(after.snake.body@)
                    || after.terminal.boarder@.contains(after.snake.head()) {
                    GameState::Lost
                } else {
                    GameState::Running
                }
                &&& commands@ == after.terminal.frame(after.snake.body@, after.food, after.score)
            },
            old(self).state == GameState::Running && !Self::quits(key) ==> {
                let ate = old(self).turned(key).will_eat();
                let after = *final(self);
                let width = after.terminal.width;
                let height = after.terminal.height;
                &&& !ate ==> after.snake.body@.len() == old(self).snake.body@.len()
                &&& ate ==> after.snake.body@.len() == old(self).snake.body@.len() + 1
                &&& after.snake.body@.len() - old(self).snake.body@.len()
                    == after.score - old(self).score
                &&& after.terminal.border_ready() && on_border(width, height, after.snake.head())
                    ==> after.state == GameState::Lost
                &&& after.terminal.border_ready() && in_interior(width, height, after.snake.head())
                    && !Snake::collides(after.snake.body@) ==> after.state == GameState::Running
                &&& after.terminal.border_ready() && in_interior(
                    width,
                    height,
                    old(self).snake.head(),
                ) && after.state == GameState::Running ==> in_interior(
                    width,
                    height,
                    after.snake.head(),
                )
            },
            final(self).terminal.wf(),
            final(self).snake.wf(),
    {
        match self.state {
            GameState::Running => {},
            _ => {
                return Vec::new();
            },
        }
        if self.get_user_input(key) {
            return Vec::new();
        }
        self.move_or_eat();
        if self.food.is_none() {
            self.new_food();
        }
        if self.crossed() || self.hit_wall() {
            self.state = GameState::Lost;
        }
        self.terminal.render(&self.snake, self.food, self.score)
    }
}

/// Of the arrow keys pressed during one wait the last one decides: whatever
/// came before it, the heading is the one it asks for.
pub proof fn lemma_last_arrow_decides(heading: Direction, keys: Seq<Key>)
    requires
        keys.len() > 0,
        keys.last().heading().is_some(),
    ensures
        Some(Game::heading_after_all(heading, keys)) == keys.last().heading(),
{
}

/// A key that is no arrow key leaves the heading that the keys before it
/// gave.
pub proof fn lemma_other_key_keeps_heading(heading: Direction, keys: Seq<Key>)
    requires
        keys.len() > 0,
        keys.last().heading().is_none(),
    ensures
        Game::heading_after_all(heading, keys) == Game::heading_after_all(
            heading,
            keys.drop_last(),
        ),
{
}

/// A head inside the border ring can move in every direction.
pub proof fn lemma_interior_can_step(width: u16, height: u16, p: Point, heading: Direction)
    requires
        in_interior(width, height, p),
    ensures
        p.can_step(heading),
{
}

/// A game whose head is inside the border ring and whose score is not at its
/// limit can be ticked with any key.
pub proof fn lemma_inside_is_tickable(game: Game, key: Option<Key>)
    requires
        game.terminal.wf(),
        game.snake.wf(),
        in_interior(game.terminal.width, game.terminal.height, game.snake.head()),
        game.score < u16::MAX,
    ensures
        game.tickable(key),
{
}

} // verus!
