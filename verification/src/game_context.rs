//! The state engine of the game: the snake, its heading, the food and the
//! status of play, with the operations that the presentation layer drives.

use vstd::prelude::*;
use crate::laws::checked_game_can_tick;
use crate::model::GameModel;
use crate::point::Point;
use crate::random::choose_cell;

verus! {

/// Columns of the grid of a game made by [`GameContext::new`].
pub const GRID_X_SIZE: i32 = 20;

/// Rows of the grid of a game made by [`GameContext::new`].
pub const GRID_Y_SIZE: i32 = 20;

/// Whether the simulation runs, rests, or has ended for good.
#[derive(Clone, Copy, Debug, PartialEq, Eq, Structural)]
pub enum GameState {
    Playing,
    Paused,
    Over,
}

/// The four headings of the snake.
#[derive(Clone, Copy, Debug, PartialEq, Eq, Structural)]
pub enum PlayerDirection {
    Up,
    Down,
    Right,
    Left,
}

impl PlayerDirection {
    /// The heading that points the other way.
    pub open spec fn opposite(self) -> PlayerDirection {
        match self {
            PlayerDirection::Up => PlayerDirection::Down,
            PlayerDirection::Down => PlayerDirection::Up,
            PlayerDirection::Right => PlayerDirection::Left,
            PlayerDirection::Left => PlayerDirection::Right,
        }
    }

    /// The displacement of one move in this heading. Rows grow downwards.
    pub open spec fn step(self) -> Point {
        match self {
            PlayerDirection::Up => Point(0, -1i32),
            PlayerDirection::Down => Point(0, 1),
            PlayerDirection::Right => Point(1, 0),
            PlayerDirection::Left => Point(-1i32, 0),
        }
    }

    /// The heading that points the other way.
    pub fn reversed(self) -> (r: PlayerDirection)
        ensures
            r == self.opposite(),
    {
        match self {
            PlayerDirection::Up => PlayerDirection::Down,
            PlayerDirection::Down => PlayerDirection::Up,
            PlayerDirection::Right => PlayerDirection::Left,
            PlayerDirection::Left => PlayerDirection::Right,
        }
    }

    /// The displacement of one move in this heading.
    pub fn unit(self) -> (r: Point)
        ensures
            r == self.step(),
    {
        match self {
            PlayerDirection::Up => Point(0, -1),
            PlayerDirection::Down => Point(0, 1),
            PlayerDirection::Right => Point(1, 0),
            PlayerDirection::Left => Point(-1, 0),
        }
    }
}

/// A game in progress. The snake always has a head.
pub struct GameContext {
    player_position: Vec<Point>,
    player_direction: PlayerDirection,
    food: Point,
    state: GameState,
    grid_width: i32,
    grid_height: i32,
}

impl View for GameContext {
    type V = GameModel;

    closed spec fn view(&self) -> GameModel {
        GameModel {
            body: self.player_position@,
            direction: self.player_direction,
            food: self.food,
            state: self.state,
            width: self.grid_width as int,
            height: self.grid_height as int,
        }
    }
}

impl GameContext {
    #[verifier::type_invariant]
    spec fn has_head(&self) -> bool {
        self.player_position@.len() >= 1
    }

    /// A new game on the grid of `GRID_X_SIZE` by `GRID_Y_SIZE` cells.
    pub fn new() -> (game: GameContext)
        ensures
            game@ == GameModel::initial(GRID_X_SIZE as int, GRID_Y_SIZE as int),
            game@.wf(),
    {
        GameContext::with_grid(GRID_X_SIZE, GRID_Y_SIZE)
    }

    /// A new game on a grid of `width` columns and `height` rows. The size
    /// stays as it is for the whole game.
    pub fn with_grid(width: i32, height: i32) -> (game: GameContext)
        ensures
            game@ == GameModel::initial(width as int, height as int),
            game@.wf(),
    {
        let mut body: Vec<Point> = Vec::new();
        body.push(Point(3, 1));
        body.push(Point(2, 1));
        body.push(Point(1, 1));
        let game = GameContext {
            player_position: body,
            player_direction: PlayerDirection::Right,
            food: Point(3, 3),
            state: GameState::Playing,
            grid_width: width,
            grid_height: height,
        };
        assert(game@.body =~= GameModel::initial(width as int, height as int).body);
        game
    }

    /// A game in the given state, or `None` when `body` is empty: a snake
    /// has a head.
    pub fn from_parts(
        width: i32,
        height: i32,
        body: Vec<Point>,
        direction: PlayerDirection,
        food: Point,
        state: GameState,
    ) -> (game: Option<GameContext>)
        ensures
            game is Some <==> body@.len() >= 1,
            game is Some ==> game.unwrap()@ == (GameModel {
                body: body@,
                direction,
                food,
                state,
                width: width as int,
                height: height as int,
            }),
    {
        if body.len() == 0 {
            None
        } else {
            Some(
                GameContext {
                    player_position: body,
                    player_direction: direction,
                    food,
                    state,
                    grid_width: width,
                    grid_height: height,
                },
            )
        }
    }

    /// The cells of the snake, head first.
    pub fn player_position(&self) -> (body: &Vec<Point>)
        ensures
            body@ == self@.body,
            self@.wf(),
    {
        proof {
            use_type_invariant(self);
        }
        &self.player_position
    }

    /// The first cell of the snake.
    pub fn head(&self) -> (p: Point)
        ensures
            self@.wf(),
            p == self@.head(),
    {
        proof {
            use_type_invariant(self);
        }
        self.player_position[0]
    }

    pub fn player_direction(&self) -> (d: PlayerDirection)
        ensures
            d == self@.direction,
    {
        self.player_direction
    }

    pub fn food(&self) -> (p: Point)
        ensures
            p == self@.food,
    {
        self.food
    }

    pub fn state(&self) -> (s: GameState)
        ensures
            s == self@.state,
    {
        self.state
    }

    pub fn grid_width(&self) -> (w: i32)
        ensures
            w == self@.width,
    {
        self.grid_width
    }

    pub fn grid_height(&self) -> (h: i32)
        ensures
            h == self@.height,
    {
        self.grid_height
    }

    /// Whether the snake covers the cell `p`.
    pub fn occupies(&self, p: Point) -> (r: bool)
        ensures
            r == self@.occupied(p),
    {
        let mut k: usize = 0;
        while k < self.player_position.len()
            invariant
                k <= self.player_position@.len(),
                forall|i: int| 0 <= i < k ==> self.player_position@[i] != p,
            decreases self.player_position@.len() - k,
        {
            if self.player_position[k] == p {
                return true;
            }
            k += 1;
        }
        false
    }

    /// The cells of the grid that the snake does not cover, column by column
    /// and, within a column, from the top down.
    pub fn free_cells(&self) -> (cells: Vec<Point>)
        ensures
            self@.lists_free_cells(cells@),
            cells@.len() == 0 <==> self@.board_full(),
    {
        let mut cells: Vec<Point> = Vec::new();
        let mut i: i32 = 0;
        while i < self.grid_width
            invariant
                0 <= i,
                forall|p: Point| #[trigger]
                    cells@.contains(p) <==> self@.is_free(p) && p.0 < i,
                forall|a: int, b: int|
                    0 <= a < b < cells@.len() ==> (#[trigger] cells@[a]).precedes(
                        #[trigger] cells@[b],
                    ),
            decreases self.grid_width - i,
        {
            let mut j: i32 = 0;
            while j < self.grid_height
                invariant
                    0 <= i < self.grid_width,
                    0 <= j,
                    forall|p: Point| #[trigger]
                        cells@.contains(p) <==> self@.is_free(p) && (p.0 < i || (p.0 == i && p.1
                            < j)),
                    forall|a: int, b: int|
                        0 <= a < b < cells@.len() ==> (#[trigger] cells@[a]).precedes(
                            #[trigger] cells@[b],
                        ),
                decreases self.grid_height - j,
            {
                let point = Point(i, j);
                if !self.occupies(point) {
                    let ghost before = cells@;
                    cells.push(point);
                    proof {
                        assert forall|p: Point| #[trigger]
                            cells@.contains(p) <==> before.contains(p) || p == point by {
                            if before.contains(p) {
                                let k = choose|k: int| 0 <= k < before.len() && before[k] == p;
                                assert(cells@[k] == p);
                            }
                            if p == point {
                                assert(cells@[before.len() as int] == p);
                            }
                        }
                        assert forall|a: int, b: int| 0 <= a < b < cells@.len() implies (
                            #[trigger] cells@[a]
                        ).precedes(#[trigger] cells@[b]) by {
                            if b == before.len() {
                                assert(before.contains(before[a]));
                            }
                        }
                    }
                }
                j += 1;
            }
            i += 1;
        }
        proof {
            if cells@.len() > 0 {
                assert(cells@.contains(cells@[0]));
                assert(!self@.occupied(cells@[0]));
            } else {
                assert forall|p: Point| self@.on_grid(p) implies #[trigger] self@.occupied(p) by {
                    assert(!cells@.contains(p));
                }
            }
        }
        cells
    }

    /// Puts the food on the chosen cell. With no cell to choose the game is
    /// over: the snake has filled the board.
    pub fn place_food(&mut self, choice: Option<Point>)
        ensures
            final(self)@ == old(self)@.fed(choice),
            final(self)@.wf(),
    {
        proof {
            use_type_invariant(&*self);
        }
        match choice {
            Some(cell) => {
                self.food = cell;
            },
            None => {
                self.state = GameState::Over;
            },
        }
    }

    /// Moves the food to a free cell picked at random. Every free cell may be
    /// picked; when there is none, the game is over.
    fn eat(&mut self)
        ensures
            final(self)@.wf(),
            old(self)@.board_full() ==> final(self)@ == old(self)@.fed(None),
            !old(self)@.board_full() ==> old(self)@.is_free(final(self)@.food) && final(self)@
                == old(self)@.fed(Some(final(self)@.food)),
    {
        let cells = self.free_cells();
        let mut rng = rand::thread_rng();
        let choice = choose_cell(&cells, &mut rng);
        self.place_food(choice);
    }

    /// Whether a tick can be taken: a running game needs the cell ahead of
    /// the head to have coordinates that an `i32` holds. A game that is
    /// paused or over can always take one, since it does not move.
    pub fn can_update(&self) -> (r: bool)
        ensures
            r == (self@.state == GameState::Playing ==> self@.can_advance()),
    {
        proof {
            use_type_invariant(self);
        }
        let head = self.player_position[0];
        match self.state {
            GameState::Playing => match self.player_direction {
                PlayerDirection::Up => head.1 > i32::MIN,
                PlayerDirection::Down => head.1 < i32::MAX,
                PlayerDirection::Right => head.0 < i32::MAX,
                PlayerDirection::Left => head.0 > i32::MIN,
            },
            _ => true,
        }
    }

    /// The cell one move ahead of the head.
    fn cell_ahead(&self) -> (next: Point)
        requires
            self@.can_advance(),
        ensures
            self@.wf(),
            next == self@.next_head(),
    {
        proof {
            use_type_invariant(self);
        }
        self.player_position[0].add(self.player_direction.unit())
    }

    /// Puts `next` in front of the snake as its new head. The old cells
    /// follow in their order, all of them if the snake is to `grow`, all but
    /// the last if not.
    fn slide(&mut self, next: Point, grow: bool)
        ensures
            final(self)@.wf(),
            final(self)@ == (GameModel {
                body: seq![next] + if grow {
                    old(self)@.body
                } else {
                    old(self)@.body.drop_last()
                },
                ..old(self)@
            }),
    {
        proof {
            use_type_invariant(&*self);
        }
        let kept: usize = if grow {
            self.player_position.len()
        } else {
            self.player_position.len() - 1
        };
        let mut body: Vec<Point> = Vec::new();
        body.push(next);
        let mut k: usize = 0;
        while k < kept
            invariant
                k <= kept <= self.player_position@.len(),
                body@ == seq![next] + self.player_position@.take(k as int),
            decreases kept - k,
        {
            body.push(self.player_position[k]);
            k += 1;
            assert(body@ =~= seq![next] + self.player_position@.take(k as int));
        }
        assert(body@ =~= seq![next] + if grow {
            self.player_position@
        } else {
            self.player_position@.drop_last()
        });
        self.player_position = body;
    }

    /// One tick of the simulation, with food placed at random when the snake
    /// eats. A game that is paused or over does not move. In a running game
    /// the head advances by one cell in the current heading. If the head was
    /// not on the food, the tail follows and the length stays. If it was, the
    /// snake grows by one cell and the food moves to a cell that was free
    /// before the move, any of them; with no free cell the game is over.
    ///
    /// The tick does not look at where the head lands: that is for
    /// [`GameContext::check_game_over_conditions`].
    pub fn update(&mut self)
        requires
            old(self)@.state == GameState::Playing ==> old(self)@.can_advance(),
        ensures
            old(self)@.may_tick_to(final(self)@),
            final(self)@.wf(),
    {
        if let GameState::Paused | GameState::Over = self.state {
            proof {
                use_type_invariant(&*self);
            }
            return;
        }
        let head_position = self.head();
        let next_head_position = self.cell_ahead();
        if self.food != head_position {
            self.slide(next_head_position, false);
        } else {
            self.eat();
            self.slide(next_head_position, true);
        }
    }

    /// One tick of the simulation in which food placement has the outcome
    /// `choice`: the new cell of the food, or `None` for a full board. The
    /// choice matters only when the snake eats.
    pub fn update_with(&mut self, choice: Option<Point>)
        requires
            old(self)@.state == GameState::Playing ==> old(self)@.can_advance(),
        ensures
            final(self)@ == old(self)@.ticked(choice),
            final(self)@.wf(),
    {
        if let GameState::Paused | GameState::Over = self.state {
            proof {
                use_type_invariant(&*self);
            }
            return;
        }
        let head_position = self.head();
        let next_head_position = self.cell_ahead();
        if self.food != head_position {
            self.slide(next_head_position, false);
        } else {
            self.place_food(choice);
            self.slide(next_head_position, true);
        }
    }

    /// Ends the game when the head is off the grid or on another cell of the
    /// snake. Nothing else changes, and a second call changes nothing more.
    /// A game that is still running after the test can take a tick.
    pub fn check_game_over_conditions(&mut self)
        ensures
            final(self)@ == old(self)@.checked(),
            final(self)@.wf(),
            final(self)@.state == GameState::Playing ==> final(self)@.can_advance(),
    {
        self.check_wall_collition();
        self.check_self_collition();
        proof {
            checked_game_can_tick(old(self)@);
        }
    }

    /// Ends the game when the head is off the grid.
    pub fn check_wall_collition(&mut self)
        ensures
            final(self)@ == if old(self)@.hits_wall() {
                GameModel { state: GameState::Over, ..old(self)@ }
            } else {
                old(self)@
            },
            final(self)@.wf(),
    {
        let head_position = self.head();
        if head_position.0 < 0 || head_position.0 >= self.grid_width || head_position.1 < 0
            || head_position.1 >= self.grid_height {
            self.state = GameState::Over;
        }
    }

    /// Ends the game when the head lies on another cell of the snake.
    pub fn check_self_collition(&mut self)
        ensures
            final(self)@ == if old(self)@.hits_self() {
                GameModel { state: GameState::Over, ..old(self)@ }
            } else {
                old(self)@
            },
            final(self)@.wf(),
    {
        let head_position = self.head();
        let mut k: usize = 1;
        while k < self.player_position.len()
            invariant
                1 <= k,
                self@ == old(self)@,
                self@.wf(),
                head_position == self@.head(),
                forall|i: int| 1 <= i < k ==> self@.body[i] != head_position,
            decreases self.player_position@.len() - k,
        {
            if self.player_position[k] == head_position {
                self.state = GameState::Over;
                return;
            }
            k += 1;
        }
    }

    /// Asks for the heading `direction`. The request is dropped when it is
    /// the reverse of the current heading and when the game is over; it is
    /// taken while the game is paused. The last request before a tick wins.
    pub fn set_direction(&mut self, direction: PlayerDirection)
        ensures
            final(self)@ == old(self)@.turned(direction),
            final(self)@.wf(),
    {
        proof {
            use_type_invariant(&*self);
        }
        if self.state == GameState::Over || direction == self.player_direction.reversed() {
            return;
        }
        self.player_direction = direction;
    }

    pub fn move_up(&mut self)
        ensures
            final(self)@ == old(self)@.turned(PlayerDirection::Up),
            final(self)@.wf(),
    {
        self.set_direction(PlayerDirection::Up);
    }

    pub fn move_down(&mut self)
        ensures
            final(self)@ == old(self)@.turned(PlayerDirection::Down),
            final(self)@.wf(),
    {
        self.set_direction(PlayerDirection::Down);
    }

    pub fn move_left(&mut self)
        ensures
            final(self)@ == old(self)@.turned(PlayerDirection::Left),
            final(self)@.wf(),
    {
        self.set_direction(PlayerDirection::Left);
    }

    pub fn move_right(&mut self)
        ensures
            final(self)@ == old(self)@.turned(PlayerDirection::Right),
            final(self)@.wf(),
    {
        self.set_direction(PlayerDirection::Right);
    }

    /// Pauses a running game and resumes a paused one. A game that is over
    /// stays over.
    pub fn pause_toggle(&mut self)
        ensures
            final(self)@ == old(self)@.pause_toggled(),
            final(self)@.wf(),
    {
        proof {
            use_type_invariant(&*self);
        }
        self.state = match self.state {
            GameState::Playing => GameState::Paused,
            GameState::Paused => GameState::Playing,
            GameState::Over => GameState::Over,
        };
    }
}

} // verus!
