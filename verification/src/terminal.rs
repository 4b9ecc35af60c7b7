use vstd::prelude::*;

use crate::point::Point;
use crate::snake::Snake;

verus! {

/// Rows that the screen has below the field. The field takes the rows from
/// 0 up to its height, the margin the rows after them.
pub const SCREEN_MARGIN: u16 = 2;

/// The row of the margin in which the score line stands, counted from the
/// first row below the field. It is less than `SCREEN_MARGIN`, so the score
/// line is on the screen.
pub const SCORE_ROW_OFFSET: u16 = 1;

/// The column in which the score line starts.
pub const SCORE_COLUMN: u16 = 1;

/// What a cell shows. The program that draws picks the characters.
#[derive(Clone, Copy, PartialEq, Eq, Structural, Debug)]
pub enum Glyph {
    Border,
    Head,
    Body,
    Food,
    Blank,
}

/// One step for the program that owns the terminal. The library only ever
/// builds lists of these; performing them is the caller's part.
#[derive(Clone, Copy, PartialEq, Eq, Structural, Debug)]
pub enum Command {
    EnableRawMode,
    DisableRawMode,
    EnterAlternateScreen,
    LeaveAlternateScreen,
    SetSize { width: u16, height: u16 },
    ClearAll,
    HideCursor,
    ShowCursor,
    /// Show `glyph` in the cell `at`.
    Put { at: Point, glyph: Glyph },
    /// Write the score readout, the text that `score_text` gives for
    /// `score`, starting in the cell `at`.
    Score { at: Point, score: u16 },
}

/// The character for one decimal digit.
pub open spec fn digit_char(digit: int) -> char
    recommends
        0 <= digit < 10,
{
    if digit == 0 {
        '0'
    } else if digit == 1 {
        '1'
    } else if digit == 2 {
        '2'
    } else if digit == 3 {
        '3'
    } else if digit == 4 {
        '4'
    } else if digit == 5 {
        '5'
    } else if digit == 6 {
        '6'
    } else if digit == 7 {
        '7'
    } else if digit == 8 {
        '8'
    } else {
        '9'
    }
}

/// A number in decimal, without leading zeros.
pub open spec fn decimal(n: nat) -> Seq<char>
    decreases n,
{
    if n < 10 {
        seq![digit_char(n as int)]
    } else {
        decimal(n / 10).push(digit_char((n % 10) as int))
    }
}

/// The score readout: the word, a colon, a space and the score in decimal.
pub open spec fn score_line(score: u16) -> Seq<char> {
    seq!['S', 'c', 'o', 'r', 'e', ':', ' '] + decimal(score as nat)
}

/// The character for the decimal digit `value`.
fn digit(value: u16) -> (c: char)
    requires
        value < 10,
    ensures
        c == digit_char(value as int),
{
    if value == 0 {
        '0'
    } else if value == 1 {
        '1'
    } else if value == 2 {
        '2'
    } else if value == 3 {
        '3'
    } else if value == 4 {
        '4'
    } else if value == 5 {
        '5'
    } else if value == 6 {
        '6'
    } else if value == 7 {
        '7'
    } else if value == 8 {
        '8'
    } else {
        '9'
    }
}

/// Appends `n` in decimal to `text`.
fn push_decimal(text: &mut Vec<char>, n: u16)
    ensures
        final(text)@ == old(text)@ + decimal(n as nat),
    decreases n,
{
    if n >= 10 {
        push_decimal(text, n / 10);
    }
    text.push(digit(n % 10));
    assert(text@ =~= old(text)@ + decimal(n as nat));
}

/// The text of the score readout, character by character.
pub fn score_text(score: u16) -> (text: Vec<char>)
    ensures
        text@ == score_line(score),
{
    let mut text: Vec<char> = Vec::new();
    text.push('S');
    text.push('c');
    text.push('o');
    text.push('r');
    text.push('e');
    text.push(':');
    text.push(' ');
    assert(text@ =~= seq!['S', 'c', 'o', 'r', 'e', ':', ' ']);
    push_decimal(&mut text, score);
    text
}

/// The part of a terminal's state that setting up and cleaning up change.
pub struct Screen {
    pub size: (u16, u16),
    pub cursor_visible: bool,
    pub alternate: bool,
    pub raw: bool,
}

impl Command {
    /// Commands that put something on the screen and leave its mode alone.
    pub open spec fn draws_only(self) -> bool {
        self is ClearAll || self is Put || self is Score
    }

    /// The screen after this command.
    pub open spec fn applied(self, screen: Screen) -> Screen {
        match self {
            Command::EnableRawMode => Screen { raw: true, ..screen },
            Command::DisableRawMode => Screen { raw: false, ..screen },
            Command::EnterAlternateScreen => Screen { alternate: true, ..screen },
            Command::LeaveAlternateScreen => Screen { alternate: false, ..screen },
            Command::SetSize { width, height } => Screen { size: (width, height), ..screen },
            Command::HideCursor => Screen { cursor_visible: false, ..screen },
            Command::ShowCursor => Screen { cursor_visible: true, ..screen },
            Command::ClearAll => screen,
            Command::Put { .. } => screen,
            Command::Score { .. } => screen,
        }
    }
}

/// The screen after a list of commands, performed first to last.
pub open spec fn performed(commands: Seq<Command>, screen: Screen) -> Screen
    decreases commands.len(),
{
    if commands.len() == 0 {
        screen
    } else {
        commands.last().applied(performed(commands.drop_last(), screen))
    }
}

/// Whether `p` lies on the one cell thick ring along the four edges of a
/// `width` by `height` field.
pub open spec fn on_border(width: u16, height: u16, p: Point) -> bool {
    &&& p.x < width
    &&& p.y < height
    &&& (p.x == 0 || p.x == width - 1 || p.y == 0 || p.y == height - 1)
}

/// How many cells the border ring of a `width` by `height` field has.
pub open spec fn ring_size(width: u16, height: u16) -> int {
    if width == 0 || height == 0 {
        0
    } else if height == 1 {
        width as int
    } else if width == 1 {
        height as int
    } else {
        2 * width + 2 * height - 4
    }
}

/// Whether `p` lies inside the field and off the border ring.
pub open spec fn in_interior(width: u16, height: u16, p: Point) -> bool {
    &&& 1 <= p.x < width - 1
    &&& 1 <= p.y < height - 1
}

/// The playing field as the drawing side sees it: its size, the size the
/// terminal had before the game, and the border cells once computed.
#[derive(Debug)]
pub struct Terminal {
    pub width: u16,
    pub height: u16,
    pub original_size: (u16, u16),
    pub boarder: Vec<Point>,
}

impl Terminal {
    /// The field is low enough for the screen's height, margin included,
    /// to be a number; the score line's row is then one too.
    pub open spec fn wf(self) -> bool {
        self.screen_rows() <= u16::MAX
    }

    /// How many rows the screen has once set up: the field's and the
    /// margin's.
    pub open spec fn screen_rows(self) -> int {
        self.height + SCREEN_MARGIN
    }

    /// The row of the score line.
    pub open spec fn score_row(self) -> int {
        self.height + SCORE_ROW_OFFSET
    }

    /// The border has been computed: it holds each cell of the ring once and
    /// nothing else.
    pub open spec fn border_ready(self) -> bool {
        &&& self.boarder@.no_duplicates()
        &&& forall|p: Point| #[trigger]
            self.boarder@.contains(p) <==> on_border(self.width, self.height, p)
    }

    /// What prepares the terminal for a game.
    pub open spec fn setup_commands(self) -> Seq<Command> {
        seq![
            Command::EnableRawMode,
            Command::EnterAlternateScreen,
            Command::SetSize {
                width: self.width,
                height: self.screen_rows() as u16,
            },
            Command::ClearAll,
            Command::HideCursor,
        ]
    }

    /// What gives the terminal back after a game.
    pub open spec fn clean_up_commands(self) -> Seq<Command> {
        seq![
            Command::DisableRawMode,
            Command::LeaveAlternateScreen,
            Command::SetSize { width: self.original_size.0, height: self.original_size.1 },
            Command::ShowCursor,
        ]
    }

    /// One border glyph per cell of `border`, in the same order.
    pub open spec fn border_commands(border: Seq<Point>) -> Seq<Command> {
        Seq::new(border.len(), |i: int| Command::Put { at: border[i], glyph: Glyph::Border })
    }

    /// One glyph per segment, in order; only the first is drawn as the head.
    pub open spec fn snake_commands(body: Seq<Point>) -> Seq<Command> {
        Seq::new(
            body.len(),
            |i: int|
                Command::Put {
                    at: body[i],
                    glyph: if i == 0 {
                        Glyph::Head
                    } else {
                        Glyph::Body
                    },
                },
        )
    }

    /// The food glyph on the food's cell; nothing where there is no food.
    pub open spec fn food_commands(food: Option<Point>) -> Seq<Command> {
        match food {
            Some(at) => seq![Command::Put { at, glyph: Glyph::Food }],
            None => Seq::empty(),
        }
    }

    /// The score readout, in the margin below the field.
    pub open spec fn score_commands(self, score: u16) -> Seq<Command> {
        seq![
            Command::Score { at: Point { x: SCORE_COLUMN, y: self.score_row() as u16 }, score },
        ]
    }

    /// A whole frame: clear, then border, snake, food and score, in that
    /// order.
    pub open spec fn frame(self, body: Seq<Point>, food: Option<Point>, score: u16) -> Seq<
        Command,
    > {
        seq![Command::ClearAll] + Self::border_commands(self.boarder@) + Self::snake_commands(body)
            + Self::food_commands(food) + self.score_commands(score)
    }

    /// A field of `width` by `height` cells on a terminal whose size was
    /// `original_size` when the caller asked. The border is not computed
    /// yet.
    pub fn new(width: u16, height: u16, original_size: (u16, u16)) -> (terminal: Terminal)
        ensures
            terminal.width == width,
            terminal.height == height,
            terminal.original_size == original_size,
            terminal.boarder@ == Seq::<Point>::empty(),
    {
        Terminal { width, height, original_size, boarder: Vec::new() }
    }

    /// The cells of the border ring, each once: the top and bottom rows from
    /// left to right, then the left and right columns between them from top
    /// to bottom.
    pub fn compute_border(&self) -> (border: Vec<Point>)
        ensures
            border@.no_duplicates(),
            forall|p: Point| #[trigger]
                border@.contains(p) <==> on_border(self.width, self.height, p),
            border@.len() == ring_size(self.width, self.height),
    {
        let width = self.width;
        let height = self.height;
        let mut border: Vec<Point> = Vec::new();
        if width == 0 || height == 0 {
            return border;
        }
        let mut x: u16 = 0;
        while x < width
            invariant
                x <= width,
                height >= 1,
                border@.len() == if height > 1 {
                    2 * x
                } else {
                    x as int
                },
                border@.no_duplicates(),
                forall|p: Point| #[trigger]
                    border@.contains(p) <==> (p.x < x && (p.y == 0 || p.y == height - 1)),
            decreases width - x,
        {
            let top = Point { x, y: 0 };
            proof {
                lemma_push_fresh(border@, top);
            }
            border.push(top);
            if height > 1 {
                let bottom = Point { x, y: height - 1 };
                proof {
                    lemma_push_fresh(border@, bottom);
                }
                border.push(bottom);
            }
            x += 1;
        }
        let mut y: u16 = 1;
        while y < height - 1
            invariant
                1 <= y,
                y <= height - 1 || y == 1,
                width >= 1,
                height >= 1,
                border@.len() == (if height > 1 {
                    2 * width
                } else {
                    width as int
                }) + (if width > 1 {
                    2 * (y - 1)
                } else {
                    y - 1
                }),
                border@.no_duplicates(),
                forall|p: Point| #[trigger]
                    border@.contains(p) <==> ((p.x < width && (p.y == 0 || p.y == height - 1)) || (1
                        <= p.y < y && (p.x == 0 || p.x == width - 1))),
            decreases height - y,
        {
            let left = Point { x: 0, y };
            proof {
                lemma_push_fresh(border@, left);
            }
            border.push(left);
            if width > 1 {
                let right = Point { x: width - 1, y };
                proof {
                    lemma_push_fresh(border@, right);
                }
                border.push(right);
            }
            y += 1;
        }
        border
    }

    /// Whether `cell` is one of the border cells that were computed.
    pub fn is_border(&self, cell: Point) -> (found: bool)
        ensures
            found == self.boarder@.contains(cell),
            self.border_ready() ==> found == on_border(self.width, self.height, cell),
    {
        let mut i: usize = 0;
        while i < self.boarder.len()
            invariant
                i <= self.boarder@.len(),
                forall|j: int| 0 <= j < i ==> self.boarder@[j] != cell,
            decreases self.boarder@.len() - i,
        {
            if self.boarder[i] == cell {
                return true;
            }
            i += 1;
        }
        assert(!self.boarder@.contains(cell));
        false
    }

    /// Computes and keeps the border, and tells the caller how to prepare
    /// the terminal: raw mode, the alternate screen, the field's size plus
    /// the margin, a clear screen and a hidden cursor.
    pub fn setup_ui(&mut self) -> (commands: Vec<Command>)
        requires
            old(self).wf(),
        ensures
            final(self).width == old(self).width,
            final(self).height == old(self).height,
            final(self).original_size == old(self).original_size,
            final(self).wf(),
            final(self).border_ready(),
            final(self).boarder@.len() == ring_size(old(self).width, old(self).height),
            commands@ == old(self).setup_commands(),
    {
        self.boarder = self.compute_border();
        let mut commands: Vec<Command> = Vec::new();
        commands.push(Command::EnableRawMode);
        commands.push(Command::EnterAlternateScreen);
        commands.push(Command::SetSize { width: self.width, height: self.height + SCREEN_MARGIN });
        commands.push(Command::ClearAll);
        commands.push(Command::HideCursor);
        assert(commands@ =~= old(self).setup_commands());
        commands
    }

    /// Tells the caller how to give the terminal back: leave raw mode and
    /// the alternate screen, restore the size recorded at construction and
    /// show the cursor.
    pub fn clean_up_ui(&self) -> (commands: Vec<Command>)
        ensures
            commands@ == self.clean_up_commands(),
    {
        let mut commands: Vec<Command> = Vec::new();
        commands.push(Command::DisableRawMode);
        commands.push(Command::LeaveAlternateScreen);
        commands.push(
            Command::SetSize { width: self.original_size.0, height: self.original_size.1 },
        );
        commands.push(Command::ShowCursor);
        assert(commands@ =~= self.clean_up_commands());
        commands
    }

    /// A border glyph for every cell of the border that was computed.
    pub fn draw_borders(&self) -> (commands: Vec<Command>)
        ensures
            commands@ == Self::border_commands(self.boarder@),
    {
        let mut commands: Vec<Command> = Vec::new();
        let mut i: usize = 0;
        while i < self.boarder.len()
            invariant
                i <= self.boarder@.len(),
                commands@.len() == i,
                forall|j: int|
                    0 <= j < i ==> commands@[j] == (Command::Put {
                        at: self.boarder@[j],
                        glyph: Glyph::Border,
                    }),
            decreases self.boarder@.len() - i,
        {
            commands.push(Command::Put { at: self.boarder[i], glyph: Glyph::Border });
            i += 1;
        }
        assert(commands@ =~= Self::border_commands(self.boarder@));
        commands
    }

    /// A glyph for every segment of the snake, the head's unlike the rest.
    pub fn draw_snake(&self, snake: &Snake) -> (commands: Vec<Command>)
        ensures
            commands@ == Self::snake_commands(snake.body@),
    {
        let mut commands: Vec<Command> = Vec::new();
        let mut i: usize = 0;
        while i < snake.body.len()
            invariant
                i <= snake.body@.len(),
                commands@.len() == i,
                forall|j: int|
                    0 <= j < i ==> commands@[j] == (Command::Put {
                        at: snake.body@[j],
                        glyph: if j == 0 {
                            Glyph::Head
                        } else {
                            Glyph::Body
                        },
                    }),
            decreases snake.body@.len() - i,
        {
            let glyph = if i == 0 {
                Glyph::Head
            } else {
                Glyph::Body
            };
            commands.push(Command::Put { at: snake.body[i], glyph });
            i += 1;
        }
        assert(commands@ =~= Self::snake_commands(snake.body@));
        commands
    }

    /// The food glyph, where there is food.
    pub fn draw_food(&self, food: Option<Point>) -> (commands: Vec<Command>)
        ensures
            commands@ == Self::food_commands(food),
    {
        let mut commands: Vec<Command> = Vec::new();
        if let Some(at) = food {
            commands.push(Command::Put { at, glyph: Glyph::Food });
        }
        assert(commands@ =~= Self::food_commands(food));
        commands
    }

    /// The score readout, in the margin below the field: under the field's
    /// last row and on the screen that `setup_ui` asks for.
    pub fn draw_score(&self, score: u16) -> (commands: Vec<Command>)
        requires
            self.wf(),
        ensures
            commands@ == self.score_commands(score),
            commands@.len() == 1,
            commands@[0] matches Command::Score { at, score: shown } && shown == score && at.x
                == SCORE_COLUMN && self.height <= at.y < self.screen_rows(),
    {
        let mut commands: Vec<Command> = Vec::new();
        let at = Point { x: SCORE_COLUMN, y: self.height + SCORE_ROW_OFFSET };
        commands.push(Command::Score { at, score });
        assert(commands@ =~= self.score_commands(score));
        commands
    }

    /// A full redraw: every frame starts from a clear screen. Nothing in it
    /// changes the terminal's mode.
    pub fn render(&self, snake: &Snake, food: Option<Point>, score: u16) -> (commands: Vec<Command>)
        requires
            self.wf(),
        ensures
            commands@ == self.frame(snake.body@, food, score),
            forall|i: int| 0 <= i < commands@.len() ==> (#[trigger] commands@[i]).draws_only(),
    {
        let mut commands: Vec<Command> = Vec::new();
        commands.push(Command::ClearAll);
        let mut border = self.draw_borders();
        commands.append(&mut border);
        let mut body = self.draw_snake(snake);
        commands.append(&mut body);
        let mut meal = self.draw_food(food);
        commands.append(&mut meal);
        let mut readout = self.draw_score(score);
        commands.append(&mut readout);
        assert(commands@ =~= self.frame(snake.body@, food, score));
        commands
    }

    /// Blanks the cell from which food was taken.
    pub fn remove_food(&self, food: Point) -> (commands: Vec<Command>)
        ensures
            commands@ == seq![Command::Put { at: food, glyph: Glyph::Blank }],
    {
        let mut commands: Vec<Command> = Vec::new();
        commands.push(Command::Put { at: food, glyph: Glyph::Blank });
        assert(commands@ =~= seq![Command::Put { at: food, glyph: Glyph::Blank }]);
        commands
    }
}

/// Appending a cell that a duplicate-free list does not hold keeps the list
/// free of duplicates, and adds that cell and no other.
proof fn lemma_push_fresh(cells: Seq<Point>, fresh: Point)
    requires
        cells.no_duplicates(),
        !cells.contains(fresh),
    ensures
        cells.push(fresh).no_duplicates(),
        forall|p: Point| #[trigger]
            cells.push(fresh).contains(p) <==> (cells.contains(p) || p == fresh),
{
    let longer = cells.push(fresh);
    assert forall|p: Point| #[trigger] longer.contains(p) <==> (cells.contains(p) || p
        == fresh) by {
        if cells.contains(p) {
            let i = choose|i: int| 0 <= i < cells.len() && cells[i] == p;
            assert(longer[i] == p);
        }
        if p == fresh {
            assert(longer[cells.len() as int] == p);
        }
    }
}

/// Performing one more command applies it to the screen that the others
/// left.
proof fn lemma_performed_push(commands: Seq<Command>, last: Command, screen: Screen)
    ensures
        performed(commands.push(last), screen) == last.applied(performed(commands, screen)),
{
    assert(commands.push(last).drop_last() =~= commands);
}

/// Performing two lists in a row is performing the second on the screen
/// that the first left.
proof fn lemma_performed_concat(first: Seq<Command>, second: Seq<Command>, screen: Screen)
    ensures
        performed(first + second, screen) == performed(second, performed(first, screen)),
    decreases second.len(),
{
    if second.len() == 0 {
        assert(first + second =~= first);
    } else {
        assert((first + second).drop_last() =~= first + second.drop_last());
        lemma_performed_concat(first, second.drop_last(), screen);
    }
}

/// Drawing leaves the terminal's mode as it was, however much is drawn.
pub proof fn lemma_drawing_keeps_screen(drawn: Seq<Command>, screen: Screen)
    requires
        forall|i: int| 0 <= i < drawn.len() ==> (#[trigger] drawn[i]).draws_only(),
    ensures
        performed(drawn, screen) == screen,
    decreases drawn.len(),
{
    if drawn.len() > 0 {
        lemma_drawing_keeps_screen(drawn.drop_last(), screen);
    }
}

/// Cleaning up after setting up leaves the terminal with the size recorded
/// at construction, a visible cursor, the main screen and cooked mode. This
/// holds whatever was drawn in between, and however much of it. A terminal
/// that was in that state before setting up is therefore given back exactly
/// as it was.
pub proof fn lemma_clean_up_undoes_setup(terminal: Terminal, before: Screen, drawn: Seq<Command>)
    requires
        forall|i: int| 0 <= i < drawn.len() ==> (#[trigger] drawn[i]).draws_only(),
    ensures
        performed(terminal.setup_commands() + drawn + terminal.clean_up_commands(), before) == (
        Screen { size: terminal.original_size, cursor_visible: true, alternate: false, raw: false }),
        before.size == terminal.original_size && before.cursor_visible && !before.alternate
            && !before.raw ==> performed(
            terminal.setup_commands() + drawn + terminal.clean_up_commands(),
            before,
        ) == before,
{
    let setup = terminal.setup_commands();
    let clean_up = terminal.clean_up_commands();
    let e = Seq::<Command>::empty();
    assert(setup =~= e.push(setup[0]).push(setup[1]).push(setup[2]).push(setup[3]).push(setup[4]));
    lemma_performed_push(e, setup[0], before);
    lemma_performed_push(e.push(setup[0]), setup[1], before);
    lemma_performed_push(e.push(setup[0]).push(setup[1]), setup[2], before);
    lemma_performed_push(e.push(setup[0]).push(setup[1]).push(setup[2]), setup[3], before);
    lemma_performed_push(
        e.push(setup[0]).push(setup[1]).push(setup[2]).push(setup[3]),
        setup[4],
        before,
    );
    let ready = performed(setup, before);
    lemma_drawing_keeps_screen(drawn, ready);
    assert(clean_up =~= e.push(clean_up[0]).push(clean_up[1]).push(clean_up[2]).push(clean_up[3]));
    lemma_performed_push(e, clean_up[0], ready);
    lemma_performed_push(e.push(clean_up[0]), clean_up[1], ready);
    lemma_performed_push(e.push(clean_up[0]).push(clean_up[1]), clean_up[2], ready);
    lemma_performed_push(
        e.push(clean_up[0]).push(clean_up[1]).push(clean_up[2]),
        clean_up[3],
        ready,
    );
    lemma_performed_concat(setup, drawn, before);
    lemma_performed_concat(setup + drawn, clean_up, before);
}

/// The score line stands in the margin: below the field's last row and
/// above the end of the screen that setting up asks for.
pub proof fn lemma_score_line_is_on_screen(terminal: Terminal, score: u16)
    requires
        terminal.wf(),
    ensures
        SCORE_ROW_OFFSET < SCREEN_MARGIN,
        terminal.height <= terminal.score_row() < terminal.screen_rows(),
        terminal.setup_commands()[2] == (Command::SetSize {
            width: terminal.width,
            height: terminal.screen_rows() as u16,
        }),
        terminal.score_commands(score)[0] == (Command::Score {
            at: Point { x: SCORE_COLUMN, y: terminal.score_row() as u16 },
            score,
        }),
{
}

/// A cell inside the ring is not a border cell, and a border cell is not
/// inside the ring.
pub proof fn lemma_interior_is_off_border(terminal: Terminal, p: Point)
    requires
        terminal.border_ready(),
    ensures
        in_interior(terminal.width, terminal.height, p) ==> !terminal.boarder@.contains(p),
        on_border(terminal.width, terminal.height, p) ==> terminal.boarder@.contains(p),
{
}

} // verus!
