use vstd::prelude::*;

verus! {

/// The playable races; `Raceless` has no starting bonus.
#[derive(Clone, Copy, Debug, PartialEq, Eq, Structural)]
pub enum Race {
    Blessed,
    Monks,
    Felines,
    Navigators,
    Goblins,
    Omar,
    Illusionists,
    Inventors,
    Philosophers,
    Lizards,
    Psychics,
    Moles,
    Raceless,
}

/// Every race that a game deals out (all but `Raceless`), in declaration order.
pub fn playable_races() -> (r: Vec<Race>)
    ensures
        r@ == seq![
            Race::Blessed,
            Race::Monks,
            Race::Felines,
            Race::Navigators,
            Race::Goblins,
            Race::Omar,
            Race::Illusionists,
            Race::Inventors,
            Race::Philosophers,
            Race::Lizards,
            Race::Psychics,
            Race::Moles,
        ],
{
    vec![
        Race::Blessed,
        Race::Monks,
        Race::Felines,
        Race::Navigators,
        Race::Goblins,
        Race::Omar,
        Race::Illusionists,
        Race::Inventors,
        Race::Philosophers,
        Race::Lizards,
        Race::Psychics,
        Race::Moles,
    ]
}

} // verus!
