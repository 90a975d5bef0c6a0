use vstd::prelude::*;
use crate::grid::ArenaConfig;
use crate::grid::Cell;

verus! {

/// How many cells of `foods` lie at `target`.
pub open spec fn count_at(foods: Seq<Cell>, target: Cell) -> nat
    decreases foods.len(),
{
    if foods.len() == 0 {
        0
    } else if foods.last() == target {
        count_at(foods.drop_last(), target) + 1
    } else {
        count_at(foods.drop_last(), target)
    }
}

/// `foods` with every cell at `target` removed, order kept.
pub open spec fn without_cell(foods: Seq<Cell>, target: Cell) -> Seq<Cell>
    decreases foods.len(),
{
    if foods.len() == 0 {
        Seq::empty()
    } else if foods.last() == target {
        without_cell(foods.drop_last(), target)
    } else {
        without_cell(foods.drop_last(), target).push(foods.last())
    }
}

/// Splits the live food cells against the head cell: returns the food that
/// survives the tick and how many items the head consumed. The surrounding
/// game despawns the eaten food, bumps the score by the count and reports
/// it to the growth queue.
pub fn eat(head: &Cell, foods: &Vec<Cell>) -> (r: (Vec<Cell>, usize))
    ensures
        r.0@ == without_cell(foods@, *head),
        r.1 == count_at(foods@, *head),
        r.0@.len() + r.1 == foods@.len(),
{
    let n = foods.len();
    let mut kept: Vec<Cell> = Vec::new();
    let mut eaten: usize = 0;
    let mut i: usize = 0;
    while i < n
        invariant
            0 <= i <= n,
            n == foods@.len(),
            kept@ == without_cell(foods@.take(i as int), *head),
            eaten == count_at(foods@.take(i as int), *head),
            kept@.len() + eaten == i,
        decreases n - i,
    {
        proof {
            assert(foods@.take(i + 1).drop_last() =~= foods@.take(i as int));
            assert(foods@.take(i + 1).last() == foods@[i as int]);
        }
        if foods[i] == *head {
            eaten = eaten + 1;
        } else {
            kept.push(foods[i]);
        }
        i = i + 1;
    }
    proof {
        assert(foods@.take(n as int) =~= foods@);
    }
    (kept, eaten)
}

/// Relies on rand::random: one sampled value of the asked type, from the
/// process RNG. Nothing is promised of which value comes back.
pub assume_specification<T>[ rand::random::<T> ]() -> (r: T)
    where
        rand::distributions::Standard: rand::distributions::Distribution<T>,
;

/// Picks a cell for a new food item. The raw coordinates come from the
/// process RNG; whatever values it yields, they are reduced into the
/// arena, so every outcome lies in bounds.
pub fn spawn_food_cell(config: &ArenaConfig) -> (c: Cell)
    requires
        config.wf(),
    ensures
        config.in_bounds_spec(c),
{
    let rx: u32 = rand::random();
    let ry: u32 = rand::random();
    let x = (rx % (config.width as u32)) as i32;
    let y = (ry % (config.height as u32)) as i32;
    Cell { x, y }
}

} // verus!
