use vstd::prelude::*;

verus! {

/// The bonus tiles that players take with their faction.
#[derive(Clone, Copy, Debug, PartialEq, Eq, Structural)]
pub enum BonusTile {
    BonSailing,
    BonScholar,
    BonGuild,
    BonBigBuilding,
    BonSpade,
    BonBridge,
    BonDiscStep,
    BonSchool,
    BonCoinsAndPower,
    BonCoins,
}

/// Every bonus tile, in declaration order.
pub fn all_bonus_tiles() -> (r: Vec<BonusTile>)
    ensures
        r@ == seq![
            BonusTile::BonSailing,
            BonusTile::BonScholar,
            BonusTile::BonGuild,
            BonusTile::BonBigBuilding,
            BonusTile::BonSpade,
            BonusTile::BonBridge,
            BonusTile::BonDiscStep,
            BonusTile::BonSchool,
            BonusTile::BonCoinsAndPower,
            BonusTile::BonCoins,
        ],
{
    vec![
        BonusTile::BonSailing,
        BonusTile::BonScholar,
        BonusTile::BonGuild,
        BonusTile::BonBigBuilding,
        BonusTile::BonSpade,
        BonusTile::BonBridge,
        BonusTile::BonDiscStep,
        BonusTile::BonSchool,
        BonusTile::BonCoinsAndPower,
        BonusTile::BonCoins,
    ]
}

} // verus!
