use vstd::prelude::*;

use crate::error::GameError;
use crate::resources::{Books, Coins, Scholars, Tools};

verus! {

/// The tokens in bowls one, two and three.
pub type Bowls = (nat, nat, nat);

/// The tokens held in all three bowls.
pub open spec fn total(v: Bowls) -> int {
    (v.0 + v.1 + v.2) as int
}

/// Whether the tokens of all three bowls together fit in a `u32`; every
/// operation keeps this, as none of them creates tokens.
pub open spec fn tokens_fit(v: Bowls) -> bool {
    total(v) <= u32::MAX
}

/// The tokens in bowl `bowl`, counted from one.
pub open spec fn bowl_amount(v: Bowls, bowl: int) -> nat {
    if bowl == 1 {
        v.0
    } else if bowl == 2 {
        v.1
    } else {
        v.2
    }
}

/// How much repeated gains can advance before bowls one and two run dry.
pub open spec fn limit_of(v: Bowls) -> nat {
    2 * v.0 + v.1
}

/// The tokens that leave bowl one when `a` power is gained.
pub open spec fn first_leg(v: Bowls, a: nat) -> nat {
    if v.0 <= a {
        v.0
    } else {
        a
    }
}

/// The tokens that leave bowl two for bowl three when `a` power is gained.
pub open spec fn second_leg(v: Bowls, a: nat) -> nat {
    let g1 = first_leg(v, a);
    if v.1 + g1 <= a - g1 {
        (v.1 + g1) as nat
    } else {
        (a - g1) as nat
    }
}

/// The bowls after gaining `a` power: up to `a` tokens advance from bowl one
/// to bowl two, and what is left of `a` advances tokens from bowl two to bowl three.
pub open spec fn gained(v: Bowls, a: nat) -> Bowls {
    let g1 = first_leg(v, a);
    let g2 = second_leg(v, a);
    ((v.0 - g1) as nat, (v.1 + g1 - g2) as nat, v.2 + g2)
}

/// The number of steps that gaining `a` power advances tokens.
pub open spec fn gain_moved(v: Bowls, a: nat) -> nat {
    first_leg(v, a) + second_leg(v, a)
}

/// The bowls after spending `a` power: `a` tokens go from bowl three back to bowl one.
pub open spec fn spent(v: Bowls, a: nat) -> Bowls {
    (v.0 + a, v.1, (v.2 - a) as nat)
}

/// The bowls after burning `a` power: `2 * a` tokens leave bowl two and `a` of
/// them reach bowl three.
pub open spec fn burnt(v: Bowls, a: nat) -> Bowls {
    (v.0, (v.1 - 2 * a) as nat, v.2 + a)
}

/// The three power bowls of one faction.
#[derive(Clone, Copy, Debug)]
pub struct PowerBowls {
    bowls: [u32; 3],
}

impl View for PowerBowls {
    type V = Bowls;

    closed spec fn view(&self) -> Bowls {
        (self.bowls[0] as nat, self.bowls[1] as nat, self.bowls[2] as nat)
    }
}

impl PowerBowls {
    /// Bowls holding the given numbers of tokens, which together must fit in
    /// a `u32`: gains and spends move tokens between bowls and keep the total.
    pub fn new(bowl1_amount: u32, bowl2_amount: u32, bowl3_amount: u32) -> (r: Self)
        requires
            bowl1_amount + bowl2_amount + bowl3_amount <= u32::MAX,
        ensures
            tokens_fit(r@),
            r@ == (bowl1_amount as nat, bowl2_amount as nat, bowl3_amount as nat),
    {
        PowerBowls { bowls: [bowl1_amount, bowl2_amount, bowl3_amount] }
    }

    /// Gains `amount` power and returns the number of steps that tokens
    /// advanced, which is `amount` unless bowls one and two run dry first.
    pub fn gain(&mut self, amount: u32) -> (r: u32)
        requires
            tokens_fit(old(self)@),
        ensures
            final(self)@ == gained(old(self)@, amount as nat),
            r == gain_moved(old(self)@, amount as nat),
            r as int == if amount <= limit_of(old(self)@) {
                amount as int
            } else {
                limit_of(old(self)@) as int
            },
            total(final(self)@) == total(old(self)@),
            final(self)@.1 + final(self)@.2 >= old(self)@.1 + old(self)@.2,
    {
        let b1_to_b2_gain = if self.bowls[0] <= amount {
            self.bowls[0]
        } else {
            amount
        };
        self.bowls[1] = self.bowls[1] + b1_to_b2_gain;
        self.bowls[0] = self.bowls[0] - b1_to_b2_gain;

        let rest = amount - b1_to_b2_gain;
        let b2_to_b3_gain = if self.bowls[1] <= rest {
            self.bowls[1]
        } else {
            rest
        };
        self.bowls[2] = self.bowls[2] + b2_to_b3_gain;
        self.bowls[1] = self.bowls[1] - b2_to_b3_gain;

        b1_to_b2_gain + b2_to_b3_gain
    }

    /// Spends `amount` power from bowl three, which returns those tokens to
    /// bowl one; refused when bowl three holds less than `amount`.
    pub fn spend(&mut self, amount: u32) -> (r: Result<(), GameError>)
        requires
            tokens_fit(old(self)@),
        ensures
            r is Ok <==> amount <= old(self)@.2,
            r is Ok ==> final(self)@ == spent(old(self)@, amount as nat),
            r is Err ==> r == Err::<(), GameError>(GameError::InsufficientPower) && final(self)@
                == old(self)@,
            total(final(self)@) == total(old(self)@),
    {
        if self.bowls[2] < amount {
            return Err(GameError::InsufficientPower);
        }
        self.bowls[0] = self.bowls[0] + amount;
        self.bowls[2] = self.bowls[2] - amount;
        Ok(())
    }

    /// Burns `amount` power: `2 * amount` tokens leave bowl two and `amount`
    /// of them reach bowl three; refused when bowl two holds fewer than `2 * amount`.
    pub fn burn(&mut self, amount: u32) -> (r: Result<(), GameError>)
        requires
            tokens_fit(old(self)@),
        ensures
            r is Ok <==> 2 * amount <= old(self)@.1,
            r is Ok ==> final(self)@ == burnt(old(self)@, amount as nat),
            r is Err ==> r == Err::<(), GameError>(GameError::InsufficientPower) && final(self)@
                == old(self)@,
            tokens_fit(final(self)@),
    {
        if (self.bowls[1] as u64) < 2 * (amount as u64) {
            return Err(GameError::InsufficientPower);
        }
        self.bowls[1] = self.bowls[1] - 2 * amount;
        self.bowls[2] = self.bowls[2] + amount;
        Ok(())
    }

    /// `2 * bowl1 + bowl2`: the most power that gains can advance.
    pub fn gain_limit(&self) -> (r: u32)
        requires
            limit_of(self@) <= u32::MAX,
        ensures
            r == limit_of(self@),
    {
        2 * self.bowls[0] + self.bowls[1]
    }

    /// The tokens in bowl `bowl`, counted from one.
    pub fn amount(&self, bowl: usize) -> (r: u32)
        requires
            1 <= bowl <= 3,
        ensures
            r == bowl_amount(self@, bowl as int),
    {
        self.bowls[bowl - 1]
    }
}

/// The power cost of one unit of each resource that power converts into.
pub const COINS_COST: u32 = 1;
pub const TOOLS_COST: u32 = 3;
pub const SCHOLARS_COST: u32 = 5;
pub const BOOKS_COST: u32 = 5;

/// What a conversion session holds: the bowls it started from, the working
/// bowls, and the books, scholars, tools and coins gained so far.
pub struct ConversionState {
    pub before: Bowls,
    pub after: Bowls,
    pub books: nat,
    pub scholars: nat,
    pub tools: nat,
    pub coins: nat,
}

/// The invariant of a session. Burning keeps `after.2 + after.1 / 2`, and
/// converting lowers `after.2` by at least the units gained, so the gains never
/// exceed what the starting bowls could pay for.
pub open spec fn session_ok(s: ConversionState) -> bool {
    &&& tokens_fit(s.before)
    &&& tokens_fit(s.after)
    &&& 2 * (s.books + s.scholars + s.tools + s.coins) + 2 * s.after.2 + s.after.1 <= 2
        * s.before.2 + s.before.1
}

/// A power conversion in progress, started from a faction's bowls.
pub struct PowerConversion {
    state_before: PowerBowls,
    state_after: PowerBowls,
    books_gained: Books,
    scholars_gained: Scholars,
    tools_gained: Tools,
    coins_gained: Coins,
}

impl View for PowerConversion {
    type V = ConversionState;

    closed spec fn view(&self) -> ConversionState {
        ConversionState {
            before: self.state_before@,
            after: self.state_after@,
            books: self.books_gained.0 as nat,
            scholars: self.scholars_gained.0 as nat,
            tools: self.tools_gained.0 as nat,
            coins: self.coins_gained.0 as nat,
        }
    }
}

impl PowerConversion {
    /// Spends `unit_cost * units` power from the working bowls; on success
    /// the result is `units`, which the caller adds to one of the gains.
    fn pay(&mut self, unit_cost: u32, units: u32) -> (r: Result<(), GameError>)
        requires
            session_ok(old(self)@),
            1 <= unit_cost <= 5,
        ensures
            r is Ok <==> unit_cost * units <= old(self)@.after.2,
            r is Ok ==> final(self)@ == (ConversionState {
                after: spent(old(self)@.after, (unit_cost * units) as nat),
                ..old(self)@
            }),
            r is Err ==> r == Err::<(), GameError>(GameError::InsufficientPower) && final(self)@
                == old(self)@,
    {
        proof {
            assert(unit_cost * units <= 5 * u32::MAX) by (nonlinear_arith)
                requires
                    unit_cost <= 5,
                    units <= u32::MAX,
            ;
        }
        if (self.state_after.bowls[2] as u64) < (unit_cost as u64) * (units as u64) {
            return Err(GameError::InsufficientPower);
        }
        self.state_after.spend(unit_cost * units)
    }

    /// Converts power into `amount` coins at one power each.
    pub fn convert_to_coins(&mut self, amount: Coins) -> (r: Result<(), GameError>)
        requires
            session_ok(old(self)@),
        ensures
            session_ok(final(self)@),
            r is Ok <==> amount.0 <= old(self)@.after.2,
            r is Ok ==> final(self)@ == (ConversionState {
                after: spent(old(self)@.after, amount.0 as nat),
                coins: old(self)@.coins + amount.0 as nat,
                ..old(self)@
            }),
            r is Err ==> r == Err::<(), GameError>(GameError::InsufficientPower) && final(self)@
                == old(self)@,
    {
        self.pay(COINS_COST, amount.0)?;
        self.coins_gained = Coins(self.coins_gained.0 + amount.0);
        Ok(())
    }

    /// Converts power into `amount` tools at three power each.
    pub fn convert_to_tools(&mut self, amount: Tools) -> (r: Result<(), GameError>)
        requires
            session_ok(old(self)@),
        ensures
            session_ok(final(self)@),
            r is Ok <==> 3 * amount.0 <= old(self)@.after.2,
            r is Ok ==> final(self)@ == (ConversionState {
                after: spent(old(self)@.after, (3 * amount.0) as nat),
                tools: old(self)@.tools + amount.0 as nat,
                ..old(self)@
            }),
            r is Err ==> r == Err::<(), GameError>(GameError::InsufficientPower) && final(self)@
                == old(self)@,
    {
        self.pay(TOOLS_COST, amount.0)?;
        self.tools_gained = Tools(self.tools_gained.0 + amount.0);
        Ok(())
    }

    /// Converts power into `amount` scholars at five power each.
    pub fn convert_to_scholars(&mut self, amount: Scholars) -> (r: Result<(), GameError>)
        requires
            session_ok(old(self)@),
        ensures
            session_ok(final(self)@),
            r is Ok <==> 5 * amount.0 <= old(self)@.after.2,
            r is Ok ==> final(self)@ == (ConversionState {
                after: spent(old(self)@.after, (5 * amount.0) as nat),
                scholars: old(self)@.scholars + amount.0 as nat,
                ..old(self)@
            }),
            r is Err ==> r == Err::<(), GameError>(GameError::InsufficientPower) && final(self)@
                == old(self)@,
    {
        self.pay(SCHOLARS_COST, amount.0)?;
        self.scholars_gained = Scholars(self.scholars_gained.0 + amount.0);
        Ok(())
    }

    /// Converts power into `amount` books at five power each.
    pub fn convert_to_books(&mut self, amount: Books) -> (r: Result<(), GameError>)
        requires
            session_ok(old(self)@),
        ensures
            session_ok(final(self)@),
            r is Ok <==> 5 * amount.0 <= old(self)@.after.2,
            r is Ok ==> final(self)@ == (ConversionState {
                after: spent(old(self)@.after, (5 * amount.0) as nat),
                books: old(self)@.books + amount.0 as nat,
                ..old(self)@
            }),
            r is Err ==> r == Err::<(), GameError>(GameError::InsufficientPower) && final(self)@
                == old(self)@,
    {
        self.pay(BOOKS_COST, amount.0)?;
        self.books_gained = Books(self.books_gained.0 + amount.0);
        Ok(())
    }

    /// Burns `amount` power in the working bowls.
    pub fn burn_power(&mut self, amount: u32) -> (r: Result<(), GameError>)
        requires
            session_ok(old(self)@),
        ensures
            session_ok(final(self)@),
            r is Ok <==> 2 * amount <= old(self)@.after.1,
            r is Ok ==> final(self)@ == (ConversionState {
                after: burnt(old(self)@.after, amount as nat),
                ..old(self)@
            }),
            r is Err ==> r == Err::<(), GameError>(GameError::InsufficientPower) && final(self)@
                == old(self)@,
    {
        self.state_after.burn(amount)
    }
}

/// Starts a conversion session from `bowls`, with nothing gained yet.
pub fn start_conversion(bowls: PowerBowls) -> (r: PowerConversion)
    requires
        tokens_fit(bowls@),
    ensures
        r@ == (ConversionState {
            before: bowls@,
            after: bowls@,
            books: 0,
            scholars: 0,
            tools: 0,
            coins: 0,
        }),
        session_ok(r@),
{
    PowerConversion {
        state_before: bowls,
        state_after: bowls,
        books_gained: Books(0),
        scholars_gained: Scholars(0),
        tools_gained: Tools(0),
        coins_gained: Coins(0),
    }
}

/// Ends a session by keeping its work: the working bowls and the books,
/// scholars, tools and coins gained, for the caller to add to the faction.
pub fn finish_conversion(conv: PowerConversion) -> (r: (PowerBowls, Books, Scholars, Tools, Coins))
    ensures
        r.0@ == conv@.after,
        r.1.0 == conv@.books,
        r.2.0 == conv@.scholars,
        r.3.0 == conv@.tools,
        r.4.0 == conv@.coins,
{
    (conv.state_after, conv.books_gained, conv.scholars_gained, conv.tools_gained, conv.coins_gained)
}

/// Ends a session by discarding its work: the bowls it started from.
pub fn abort_conversion(conv: PowerConversion) -> (r: PowerBowls)
    ensures
        r@ == conv@.before,
{
    conv.state_before
}

/// Gaining never lowers the tokens in bowls two and three, and no bowl goes
/// below zero.
pub proof fn lemma_gain_monotone(v: Bowls, a: nat)
    ensures
        gained(v, a).1 + gained(v, a).2 >= v.1 + v.2,
        v.0 - first_leg(v, a) >= 0,
        v.1 + first_leg(v, a) - second_leg(v, a) >= 0,
{
}

/// `limit_of` is the largest amount that a gain advances in full: a gain of
/// `a` advances `a` steps exactly when `a <= limit_of(v)`, and otherwise it
/// advances `limit_of(v)` steps.
pub proof fn lemma_gain_limit(v: Bowls, a: nat)
    ensures
        (gain_moved(v, a) == a) <==> a <= limit_of(v),
        a > limit_of(v) ==> gain_moved(v, a) == limit_of(v),
{
}

/// A successful spend keeps the tokens of all three bowls, and only bowls
/// one and three change.
pub proof fn lemma_spend_conserves(v: Bowls, a: nat)
    requires
        a <= v.2,
    ensures
        total(spent(v, a)) == total(v),
        spent(v, a).1 == v.1,
{
}

} // verus!
