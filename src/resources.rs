use vstd::prelude::*;

verus! {

/// A number of tools.
#[derive(Clone, Copy, Debug, PartialEq, Eq, Structural)]
pub struct Tools(pub u32);

/// A number of coins.
#[derive(Clone, Copy, Debug, PartialEq, Eq, Structural)]
pub struct Coins(pub u32);

/// A number of scholars.
#[derive(Clone, Copy, Debug, PartialEq, Eq, Structural)]
pub struct Scholars(pub u32);

/// A number of books.
#[derive(Clone, Copy, Debug, PartialEq, Eq, Structural)]
pub struct Books(pub u32);

/// A number of power tokens.
#[derive(Clone, Copy, Debug, PartialEq, Eq, Structural)]
pub struct Power(pub u32);

/// A quantity of one resource kind, built from a plain count.
pub trait Resource: Sized + Copy {
    spec fn count(&self) -> nat;

    fn from(val: u32) -> (r: Self)
        ensures
            r.count() == val,
    ;
}

impl Resource for Tools {
    open spec fn count(&self) -> nat {
        self.0 as nat
    }

    fn from(val: u32) -> (r: Self) {
        Tools(val)
    }
}

impl Resource for Coins {
    open spec fn count(&self) -> nat {
        self.0 as nat
    }

    fn from(val: u32) -> (r: Self) {
        Coins(val)
    }
}

impl Resource for Scholars {
    open spec fn count(&self) -> nat {
        self.0 as nat
    }

    fn from(val: u32) -> (r: Self) {
        Scholars(val)
    }
}

impl Resource for Books {
    open spec fn count(&self) -> nat {
        self.0 as nat
    }

    fn from(val: u32) -> (r: Self) {
        Books(val)
    }
}

impl Resource for Power {
    open spec fn count(&self) -> nat {
        self.0 as nat
    }

    fn from(val: u32) -> (r: Self) {
        Power(val)
    }
}

/// A bag that holds a quantity of every resource kind.
#[derive(Clone, Copy, Debug, PartialEq, Eq, Structural)]
pub struct Resources {
    pub tools: u32,
    pub coins: u32,
    pub scholars: u32,
    pub books: u32,
    pub power: u32,
}

/// The pointwise sum of two bags, over the integers.
pub open spec fn bag_sum(a: Resources, b: Resources) -> (int, int, int, int, int) {
    (
        a.tools + b.tools,
        a.coins + b.coins,
        a.scholars + b.scholars,
        a.books + b.books,
        a.power + b.power,
    )
}

/// The quantities of a bag as integers.
pub open spec fn bag_of(a: Resources) -> (int, int, int, int, int) {
    (a.tools as int, a.coins as int, a.scholars as int, a.books as int, a.power as int)
}

/// Whether the pointwise sum of two bags fits every quantity in a `u32`.
pub open spec fn sum_fits(a: Resources, b: Resources) -> bool {
    &&& a.tools + b.tools <= u32::MAX
    &&& a.coins + b.coins <= u32::MAX
    &&& a.scholars + b.scholars <= u32::MAX
    &&& a.books + b.books <= u32::MAX
    &&& a.power + b.power <= u32::MAX
}

/// Whether `b` holds at most what `a` holds, kind by kind.
pub open spec fn bag_le(b: Resources, a: Resources) -> bool {
    &&& b.tools <= a.tools
    &&& b.coins <= a.coins
    &&& b.scholars <= a.scholars
    &&& b.books <= a.books
    &&& b.power <= a.power
}

impl Resources {
    /// The empty bag.
    pub fn none() -> (r: Resources)
        ensures
            bag_of(r) == (0int, 0int, 0int, 0int, 0int),
    {
        Resources { tools: 0, coins: 0, scholars: 0, books: 0, power: 0 }
    }

    /// A bag with only tools.
    pub fn from_tools(t: Tools) -> (r: Resources)
        ensures
            r == (Resources { tools: t.0, coins: 0, scholars: 0, books: 0, power: 0 }),
    {
        Resources { tools: t.0, coins: 0, scholars: 0, books: 0, power: 0 }
    }

    /// A bag with only coins.
    pub fn from_coins(c: Coins) -> (r: Resources)
        ensures
            r == (Resources { tools: 0, coins: c.0, scholars: 0, books: 0, power: 0 }),
    {
        Resources { tools: 0, coins: c.0, scholars: 0, books: 0, power: 0 }
    }

    /// A bag with only scholars.
    pub fn from_scholars(s: Scholars) -> (r: Resources)
        ensures
            r == (Resources { tools: 0, coins: 0, scholars: s.0, books: 0, power: 0 }),
    {
        Resources { tools: 0, coins: 0, scholars: s.0, books: 0, power: 0 }
    }

    /// A bag with only books.
    pub fn from_books(b: Books) -> (r: Resources)
        ensures
            r == (Resources { tools: 0, coins: 0, scholars: 0, books: b.0, power: 0 }),
    {
        Resources { tools: 0, coins: 0, scholars: 0, books: b.0, power: 0 }
    }

    /// A bag with only power.
    pub fn from_power(p: Power) -> (r: Resources)
        ensures
            r == (Resources { tools: 0, coins: 0, scholars: 0, books: 0, power: p.0 }),
    {
        Resources { tools: 0, coins: 0, scholars: 0, books: 0, power: p.0 }
    }

    /// The pointwise sum of two bags.
    pub fn plus(&self, other: &Resources) -> (r: Resources)
        requires
            sum_fits(*self, *other),
        ensures
            bag_of(r) == bag_sum(*self, *other),
    {
        Resources {
            tools: self.tools + other.tools,
            coins: self.coins + other.coins,
            scholars: self.scholars + other.scholars,
            books: self.books + other.books,
            power: self.power + other.power,
        }
    }

    /// The pointwise difference of two bags; `other` must not hold more
    /// of any kind than `self` does.
    pub fn minus(&self, other: &Resources) -> (r: Resources)
        requires
            bag_le(*other, *self),
        ensures
            r.tools == self.tools - other.tools,
            r.coins == self.coins - other.coins,
            r.scholars == self.scholars - other.scholars,
            r.books == self.books - other.books,
            r.power == self.power - other.power,
    {
        Resources {
            tools: self.tools - other.tools,
            coins: self.coins - other.coins,
            scholars: self.scholars - other.scholars,
            books: self.books - other.books,
            power: self.power - other.power,
        }
    }
}

} // verus!
