//! Properties of the game that span one or several ticks.

use vstd::prelude::*;
use crate::food::{Food, before, food_fits, growth_spec, is_first_free, room_for_food};
use crate::grid::Position;
use crate::game::{GameView, Status, TickOutcome, fatal, next_head, ticked, view_wf};
use crate::grid::{dx, dy, offset};

verus! {

/// A tick on a running game without a fatal collision either moves the snake,
/// keeping its length (head in front, last segment gone, score and food
/// unchanged), or feeds it, making it longer by the growth amount of the food.
pub proof fn lemma_tick_length(a: GameView, b: GameView, out: TickOutcome)
    requires
        view_wf(a),
        a.status == Status::Running,
        !fatal(a.snake, next_head(a)),
        ticked(a, b, out),
    ensures
        out == TickOutcome::Moved || out == TickOutcome::Ate,
        b.snake.len() == a.snake.len() || b.snake.len() == a.snake.len() + growth_spec(a.food.size),
        out == TickOutcome::Moved ==> {
            &&& b.snake.len() == a.snake.len()
            &&& b.snake == seq![next_head(a)] + a.snake.drop_last()
            &&& b.score == a.score
            &&& b.food == a.food
            &&& b.status == Status::Running
        },
        out == TickOutcome::Ate ==> b.snake.len() == a.snake.len() + growth_spec(a.food.size),
{
}

/// A meal scores 3 points for food of size 2 or more and 1 point for size 1,
/// and the body grows by as many segments as points.
pub proof fn lemma_meal(a: GameView, b: GameView)
    requires
        view_wf(a),
        ticked(a, b, TickOutcome::Ate),
    ensures
        a.food.size >= 2 ==> b.score == a.score + 3 && b.snake.len() == a.snake.len() + 3,
        a.food.size < 2 ==> b.score == a.score + 1 && b.snake.len() == a.snake.len() + 1,
{
}

/// After `n` ticks that each moved the snake without eating or crashing, the
/// direction is unchanged and the head is `n` cells from where it started in
/// that direction.
pub proof fn lemma_straight_run(trace: Seq<GameView>, outs: Seq<TickOutcome>)
    requires
        trace.len() >= 1,
        outs.len() + 1 == trace.len(),
        forall|i: int| 0 <= i < trace.len() ==> view_wf(#[trigger] trace[i]),
        forall|i: int| 0 <= i < outs.len() ==> #[trigger] ticked(trace[i], trace[i + 1], outs[i]),
        forall|i: int| 0 <= i < outs.len() ==> #[trigger] outs[i] == TickOutcome::Moved,
    ensures
        trace.last().pending == trace[0].pending,
        trace.last().snake[0].0 == offset(trace[0].snake[0], trace[0].pending, outs.len() as int).0,
        trace.last().snake[0].1 == offset(trace[0].snake[0], trace[0].pending, outs.len() as int).1,
    decreases trace.len(),
{
    if trace.len() > 1 {
        let n = outs.len() as int;
        let t = trace.drop_last();
        let o = outs.drop_last();
        assert forall|i: int| 0 <= i < o.len() implies #[trigger] ticked(t[i], t[i + 1], o[i]) by {
            assert(ticked(trace[i], trace[i + 1], outs[i]));
        }
        assert forall|i: int| 0 <= i < o.len() implies #[trigger] o[i] == TickOutcome::Moved by {
            assert(outs[i] == TickOutcome::Moved);
        }
        lemma_straight_run(t, o);
        assert(ticked(trace[n - 1], trace[n], outs[n - 1]));
        assert(outs[n - 1] == TickOutcome::Moved);
        let d = trace[0].pending;
        assert((n - 1) * dx(d) + dx(d) == n * dx(d)) by (nonlinear_arith);
        assert((n - 1) * dy(d) + dy(d) == n * dy(d)) by (nonlinear_arith);
    }
}

/// Whether food fits beside a snake depends only on the cells it occupies,
/// not on the order of its segments or on repeated ones.
pub proof fn lemma_fits_depends_on_cells(s1: Seq<Position>, s2: Seq<Position>, f: Food)
    requires
        s1.to_set() == s2.to_set(),
    ensures
        food_fits(s1, f) == food_fits(s2, f),
{
    assert forall|p: Position| s1.contains(p) <==> s2.contains(p) by {
        assert(s1.to_set().contains(p) == s1.contains(p));
        assert(s2.to_set().contains(p) == s2.contains(p));
    }
    if food_fits(s1, f) {
        assert forall|j: int| 0 <= j < s2.len() implies !crate::food::covers(f, #[trigger] s2[j]) by {
            assert(s2.contains(s2[j]));
        }
    }
    if food_fits(s2, f) {
        assert forall|j: int| 0 <= j < s1.len() implies !crate::food::covers(f, #[trigger] s1[j]) by {
            assert(s1.contains(s1[j]));
        }
    }
}

/// The ordered scan for a free cell gives the same answer for two snakes
/// that occupy the same cells.
pub proof fn lemma_first_free_depends_on_cells(
    s1: Seq<Position>,
    s2: Seq<Position>,
    r1: Option<Food>,
    r2: Option<Food>,
)
    requires
        s1.to_set() == s2.to_set(),
        is_first_free(s1, r1),
        is_first_free(s2, r2),
    ensures
        r1 == r2,
{
    assert forall|f: Food| food_fits(s1, f) == food_fits(s2, f) by {
        lemma_fits_depends_on_cells(s1, s2, f);
    }
    if room_for_food(s1) {
        let f = choose|f: Food| food_fits(s1, f);
        assert(food_fits(s2, f));
    }
    if room_for_food(s2) {
        let f = choose|f: Food| food_fits(s2, f);
        assert(food_fits(s1, f));
    }
    if r1 is Some && r2 is Some {
        let f1 = r1.unwrap();
        let f2 = r2.unwrap();
        if before(f1.x, f1.y, f2.x, f2.y) {
            assert(food_fits(s2, Food { x: f1.x, y: f1.y, size: 1 }));
        } else if before(f2.x, f2.y, f1.x, f1.y) {
            assert(food_fits(s1, Food { x: f2.x, y: f2.y, size: 1 }));
        }
    }
}

} // verus!
