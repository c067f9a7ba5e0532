//! The mathematical model of a game, and the rules of the game stated on it.

use vstd::prelude::*;
use crate::game_context::{GameState, PlayerDirection};
use crate::point::Point;

verus! {

/// The mathematical content of a game: what every contract speaks of.
pub struct GameModel {
    /// The cells of the snake, head first.
    pub body: Seq<Point>,
    /// The heading that the next tick moves the head in.
    pub direction: PlayerDirection,
    /// The cell that holds the food.
    pub food: Point,
    pub state: GameState,
    /// Number of columns: a cell `p` is on the grid when `0 <= p.0 < width`
    /// and `0 <= p.1 < height`.
    pub width: int,
    /// Number of rows.
    pub height: int,
}

impl GameModel {
    /// The state that every game starts in, on a grid of the given size.
    pub open spec fn initial(width: int, height: int) -> GameModel {
        GameModel {
            body: seq![Point(3, 1), Point(2, 1), Point(1, 1)],
            direction: PlayerDirection::Right,
            food: Point(3, 3),
            state: GameState::Playing,
            width,
            height,
        }
    }

    /// The snake has a head.
    pub open spec fn wf(self) -> bool {
        self.body.len() >= 1
    }

    pub open spec fn head(self) -> Point {
        self.body[0]
    }

    /// `p` is a cell of the grid.
    pub open spec fn on_grid(self, p: Point) -> bool {
        0 <= p.0 < self.width && 0 <= p.1 < self.height
    }

    /// `p` is covered by the snake.
    pub open spec fn occupied(self, p: Point) -> bool {
        self.body.contains(p)
    }

    /// `p` is a cell of the grid that the snake does not cover.
    pub open spec fn is_free(self, p: Point) -> bool {
        self.on_grid(p) && !self.occupied(p)
    }

    /// The snake covers every cell of the grid.
    pub open spec fn board_full(self) -> bool {
        forall|p: Point| self.on_grid(p) ==> #[trigger] self.occupied(p)
    }

    /// `cells` lists the free cells: exactly those, each once, in column-major
    /// order. At most one sequence does.
    pub open spec fn lists_free_cells(self, cells: Seq<Point>) -> bool {
        &&& forall|p: Point| #[trigger] cells.contains(p) <==> self.is_free(p)
        &&& forall|i: int, j: int|
            0 <= i < j < cells.len() ==> (#[trigger] cells[i]).precedes(#[trigger] cells[j])
    }

    /// The head is off the grid.
    pub open spec fn hits_wall(self) -> bool {
        !self.on_grid(self.head())
    }

    /// The head lies on another cell of the body.
    pub open spec fn hits_self(self) -> bool {
        exists|i: int| 1 <= i < self.body.len() && #[trigger] self.body[i] == self.head()
    }

    /// The head lies on the food.
    pub open spec fn eating(self) -> bool {
        self.head() == self.food
    }

    /// The cell one move ahead of the head has coordinates that an `i32` holds.
    pub open spec fn can_advance(self) -> bool {
        self.head().can_add(self.direction.step())
    }

    /// The cell one move ahead of the head.
    pub open spec fn next_head(self) -> Point {
        Point(
            (self.head().0 + self.direction.step().0) as i32,
            (self.head().1 + self.direction.step().1) as i32,
        )
    }

    /// The game after a request to head in direction `d`: the request is
    /// dropped when it would reverse the snake and when the game is over.
    pub open spec fn turned(self, d: PlayerDirection) -> GameModel {
        if self.state == GameState::Over || d == self.direction.opposite() {
            self
        } else {
            GameModel { direction: d, ..self }
        }
    }

    /// The game after the pause key: play and pause change places, and a game
    /// that is over stays over.
    pub open spec fn pause_toggled(self) -> GameModel {
        match self.state {
            GameState::Playing => GameModel { state: GameState::Paused, ..self },
            GameState::Paused => GameModel { state: GameState::Playing, ..self },
            GameState::Over => self,
        }
    }

    /// The game after the end-of-game test: over when the head is off the
    /// grid or on the body, untouched otherwise.
    pub open spec fn checked(self) -> GameModel {
        if self.hits_wall() || self.hits_self() {
            GameModel { state: GameState::Over, ..self }
        } else {
            self
        }
    }

    /// The game after food placement: the food moves to the chosen cell; with
    /// no cell to choose the game is over.
    pub open spec fn fed(self, choice: Option<Point>) -> GameModel {
        match choice {
            Some(p) => GameModel { food: p, ..self },
            None => GameModel { state: GameState::Over, ..self },
        }
    }

    /// The game after one tick in which `choice` is the outcome of food
    /// placement. Only a running game moves. The head advances by one cell;
    /// the tail follows unless the head was on the food, in which case the
    /// snake keeps its tail and the food is placed anew.
    pub open spec fn ticked(self, choice: Option<Point>) -> GameModel {
        if self.state != GameState::Playing {
            self
        } else if !self.eating() {
            GameModel { body: seq![self.next_head()] + self.body.drop_last(), ..self }
        } else {
            GameModel { body: seq![self.next_head()] + self.body, ..self.fed(choice) }
        }
    }

    /// The game after one tick for each element of `choices`, in order.
    pub open spec fn ticked_all(self, choices: Seq<Option<Point>>) -> GameModel
        decreases choices.len(),
    {
        if choices.len() == 0 {
            self
        } else {
            self.ticked_all(choices.drop_last()).ticked(choices.last())
        }
    }

    /// `next` is a possible outcome of one tick of `self` when food placement
    /// picks among the free cells: any free cell may become the food, and
    /// only a full board leaves none.
    pub open spec fn may_tick_to(self, next: GameModel) -> bool {
        if self.state == GameState::Playing && self.eating() && !self.board_full() {
            self.is_free(next.food) && next == self.ticked(Some(next.food))
        } else {
            next == self.ticked(None)
        }
    }
}

} // verus!
