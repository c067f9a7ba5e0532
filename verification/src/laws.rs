//! What holds of the rules of the game, whatever the state and the input.

use vstd::prelude::*;
use crate::game_context::{GameState, PlayerDirection};
use crate::model::GameModel;
use crate::point::Point;

verus! {

/// A game starts with a snake that has a head.
pub proof fn initial_game_has_a_head(width: int, height: int)
    ensures
        GameModel::initial(width, height).wf(),
        GameModel::initial(width, height).body.len() == 3,
{
}

/// No operation takes the head away: the snake is at least one cell long
/// after every operation on a game in which it was.
pub proof fn snake_keeps_its_head(m: GameModel, d: PlayerDirection, choice: Option<Point>)
    requires
        m.wf(),
    ensures
        m.turned(d).wf(),
        m.pause_toggled().wf(),
        m.checked().wf(),
        m.fed(choice).wf(),
        m.ticked(choice).wf(),
{
}

/// A game that is over stays over under every operation.
pub proof fn over_is_final(m: GameModel, d: PlayerDirection, choice: Option<Point>)
    requires
        m.state == GameState::Over,
    ensures
        m.turned(d) == m,
        m.pause_toggled() == m,
        m.checked() == m,
        m.ticked(choice) == m,
        m.fed(choice).state == GameState::Over,
{
}

/// A request to head the opposite way of the current heading changes
/// nothing.
pub proof fn reversal_is_ignored(m: GameModel)
    ensures
        m.turned(m.direction.opposite()) == m,
{
}

/// Any other request is taken as long as the game is not over, also while it
/// is paused, and changes the heading only.
pub proof fn turn_is_taken(m: GameModel, d: PlayerDirection)
    requires
        m.state != GameState::Over,
        d != m.direction.opposite(),
    ensures
        m.turned(d) == (GameModel { direction: d, ..m }),
{
}

/// In a running game the snake grows by one cell in a tick if its head was on
/// the food before the tick, and keeps its length if not.
pub proof fn tick_grows_on_food_only(m: GameModel, choice: Option<Point>)
    requires
        m.wf(),
        m.state == GameState::Playing,
    ensures
        m.eating() ==> m.ticked(choice).body.len() == m.body.len() + 1,
        !m.eating() ==> m.ticked(choice).body.len() == m.body.len(),
        m.ticked(choice).head() == m.next_head(),
{
}

/// The end-of-game test is idempotent.
pub proof fn check_is_idempotent(m: GameModel)
    ensures
        m.checked().checked() == m.checked(),
{
    assert(m.checked().head() == m.head());
    assert(m.checked().hits_wall() == m.hits_wall());
    assert(m.checked().body == m.body);
    assert(m.checked().hits_self() == m.hits_self());
}

/// The end-of-game test never revives a game, and ends it exactly when the
/// head is off the grid or on the body.
pub proof fn check_ends_on_collision_only(m: GameModel)
    ensures
        m.checked().state == GameState::Over <==> m.state == GameState::Over || m.hits_wall()
            || m.hits_self(),
{
}

/// A game that the end-of-game test leaves running has its head on the
/// grid, so the cell ahead of it has coordinates that an `i32` holds: a tick
/// right after the test can always be taken.
pub proof fn checked_game_can_tick(m: GameModel)
    requires
        m.wf(),
        m.width <= i32::MAX,
        m.height <= i32::MAX,
    ensures
        m.checked().state == GameState::Playing ==> m.checked().can_advance(),
{
    assert(m.checked().head() == m.head());
}

/// While a game is paused, ticks change nothing, however many are taken.
pub proof fn paused_game_is_frozen(m: GameModel, choices: Seq<Option<Point>>)
    requires
        m.state == GameState::Paused,
    ensures
        m.ticked_all(choices) == m,
    decreases choices.len(),
{
    if choices.len() > 0 {
        paused_game_is_frozen(m, choices.drop_last());
    }
}

/// A tick with food placed at random changes nothing either, unless the game
/// is running.
pub proof fn idle_game_does_not_tick(m: GameModel, next: GameModel)
    requires
        m.state != GameState::Playing,
        m.may_tick_to(next),
    ensures
        next == m,
{
}

/// After a tick of a running game in which the snake eats, either the board
/// was full and the game is over, or the food lies on a cell of the grid
/// that the snake did not cover before the tick. In the second case the
/// food is off the snake after the tick as well, provided that it was not
/// placed on the very cell that the head moves to.
pub proof fn relocated_food_is_off_the_snake(pre: GameModel, post: GameModel)
    requires
        pre.wf(),
        pre.state == GameState::Playing,
        pre.eating(),
        pre.may_tick_to(post),
    ensures
        pre.board_full() ==> post.state == GameState::Over && post.food == pre.food,
        !pre.board_full() ==> post.state == GameState::Playing && pre.is_free(post.food),
        !pre.board_full() && post.food != pre.next_head() ==> !post.occupied(post.food),
{
    if !pre.board_full() && post.food != pre.next_head() {
        let food = post.food;
        if post.body.contains(food) {
            let k = choose|k: int| 0 <= k < post.body.len() && post.body[k] == food;
            assert(k >= 1);
            assert(pre.body[k - 1] == food);
            assert(pre.body.contains(food));
        }
    }
}

/// Two listings of the free cells of a game agree up to index `n`.
proof fn free_cells_agree_up_to(m: GameModel, a: Seq<Point>, b: Seq<Point>, n: int)
    requires
        m.lists_free_cells(a),
        m.lists_free_cells(b),
        0 <= n <= a.len(),
        n <= b.len(),
    ensures
        forall|i: int| 0 <= i < n ==> a[i] == b[i],
    decreases n,
{
    if n > 0 {
        free_cells_agree_up_to(m, a, b, n - 1);
        let i = n - 1;
        assert(a.contains(a[i]));
        assert(m.is_free(a[i]));
        assert(b.contains(a[i]));
        assert(b.contains(b[i]));
        assert(m.is_free(b[i]));
        assert(a.contains(b[i]));
        let j = choose|j: int| 0 <= j < b.len() && b[j] == a[i];
        let l = choose|l: int| 0 <= l < a.len() && a[l] == b[i];
        if j < i {
            assert(a[j].precedes(a[i]));
        }
        if l < i {
            assert(b[l].precedes(b[i]));
        }
        if j > i {
            assert(b[i].precedes(b[j]));
            if l > i {
                assert(a[i].precedes(a[l]));
            }
        }
    }
}

/// The free cells of a game have one listing only: two sequences that both
/// hold exactly the free cells in column-major order are equal.
pub proof fn free_cells_are_unique(m: GameModel, a: Seq<Point>, b: Seq<Point>)
    requires
        m.lists_free_cells(a),
        m.lists_free_cells(b),
    ensures
        a == b,
{
    let n = if a.len() <= b.len() {
        a.len() as int
    } else {
        b.len() as int
    };
    free_cells_agree_up_to(m, a, b, n);
    if a.len() > n {
        assert(a.contains(a[n]));
        assert(m.is_free(a[n]));
        assert(b.contains(a[n]));
        let j = choose|j: int| 0 <= j < b.len() && b[j] == a[n];
        assert(a[j].precedes(a[n]));
    }
    if b.len() > n {
        assert(b.contains(b[n]));
        assert(m.is_free(b[n]));
        assert(a.contains(b[n]));
        let j = choose|j: int| 0 <= j < a.len() && a[j] == b[n];
        assert(b[j].precedes(b[n]));
    }
    assert(a =~= b);
}

} // verus!
