use vstd::prelude::*;

use crate::random::{lemma_permutation_distinct, shuffle};
use crate::resources::Books;

verus! {

/// What a book action does.
#[derive(Clone, Copy, Debug, PartialEq, Eq, Structural)]
pub enum BookActionEffect {
    GainPower,
    DiscStep,
    GainCoins,
    UpgradeToGuild,
    PointsPerGuild,
    Spades,
}

/// An action that players buy with books.
#[derive(Clone, Copy, Debug, Eq)]
pub struct BookAction {
    pub cost: Books,
    pub effect: BookActionEffect,
}

impl PartialEq for BookAction {
    fn eq(&self, other: &BookAction) -> (r: bool) {
        self.cost.0 == other.cost.0 && self.effect == other.effect
    }
}

impl vstd::std_specs::cmp::PartialEqSpecImpl for BookAction {
    open spec fn obeys_eq_spec() -> bool {
        true
    }

    open spec fn eq_spec(&self, other: &BookAction) -> bool {
        self.cost == other.cost && self.effect == other.effect
    }
}

/// Every book action of the game.
pub open spec fn book_action_table() -> Seq<BookAction> {
    seq![
        BookAction { cost: Books(1), effect: BookActionEffect::GainPower },
        BookAction { cost: Books(1), effect: BookActionEffect::DiscStep },
        BookAction { cost: Books(2), effect: BookActionEffect::GainCoins },
        BookAction { cost: Books(2), effect: BookActionEffect::UpgradeToGuild },
        BookAction { cost: Books(1), effect: BookActionEffect::PointsPerGuild },
        BookAction { cost: Books(3), effect: BookActionEffect::Spades },
    ]
}

/// Every book action of the game.
pub fn all_book_actions() -> (r: Vec<BookAction>)
    ensures
        r@ == book_action_table(),
{
    let r = vec![
        BookAction { cost: Books(1), effect: BookActionEffect::GainPower },
        BookAction { cost: Books(1), effect: BookActionEffect::DiscStep },
        BookAction { cost: Books(2), effect: BookActionEffect::GainCoins },
        BookAction { cost: Books(2), effect: BookActionEffect::UpgradeToGuild },
        BookAction { cost: Books(1), effect: BookActionEffect::PointsPerGuild },
        BookAction { cost: Books(3), effect: BookActionEffect::Spades },
    ];
    assert(r@ =~= book_action_table());
    r
}

/// The first `n` elements of a list; `n` must not exceed its length.
fn take_first<T: Copy>(v: &Vec<T>, n: usize) -> (r: Vec<T>)
    requires
        n <= v@.len(),
    ensures
        r@ == v@.take(n as int),
{
    let mut r: Vec<T> = Vec::new();
    let mut i: usize = 0;
    while i < n
        invariant
            n <= v@.len(),
            i <= n,
            r@ == v@.take(i as int),
        decreases n - i,
    {
        r.push(v[i]);
        i = i + 1;
        assert(r@ =~= v@.take(i as int));
    }
    r
}

/// The book actions of a game from a list in drawing order: its first
/// three, or all of it when it is shorter.
pub fn pick_book_actions(drawn: &Vec<BookAction>) -> (r: Vec<BookAction>)
    ensures
        r@ == (if drawn@.len() >= 3 {
            drawn@.take(3)
        } else {
            drawn@
        }),
{
    if drawn.len() >= 3 {
        take_first(drawn, 3)
    } else {
        let r = take_first(drawn, drawn.len());
        assert(r@ =~= drawn@);
        r
    }
}

/// Three different book actions, drawn at random for a new game: the book
/// actions are shuffled and then picked by `pick_book_actions`.
pub fn new_game_random_book_actions() -> (r: Vec<BookAction>)
    ensures
        r@.len() == 3,
        r@.no_duplicates(),
        forall|i: int| 0 <= i < 3 ==> book_action_table().contains(#[trigger] r@[i]),
{
    let mut actions = all_book_actions();
    let ghost before = actions@;
    shuffle(&mut actions);
    proof {
        lemma_permutation_distinct(before, actions@);
    }
    let r = pick_book_actions(&actions);
    assert forall|i: int| 0 <= i < 3 implies book_action_table().contains(#[trigger] r@[i]) by {
        assert(actions@.contains(actions@[i]));
    }
    r
}

} // verus!
