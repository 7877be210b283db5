//! Hit points ([`Health`]) and changes of hit points ([`Damage`]).

use vstd::prelude::*;
use vstd::std_specs::ops::{AddSpecImpl, SubSpecImpl};
use crate::numerals::{decimal, to_decimal};

verus! {

/// The health of the player or of an enemy: a level of hit points.
#[derive(Debug, PartialEq, Eq, PartialOrd, Ord, Hash, Clone, Copy, Structural)]
pub struct Health(usize);

/// A change in [`Health`]. It is unsigned: whether it harms or heals depends
/// on the operation that applies it.
#[derive(Debug, PartialEq, Eq, PartialOrd, Ord, Hash, Clone, Copy, Structural)]
pub struct Damage(usize);

impl View for Health {
    type V = nat;

    closed spec fn view(&self) -> nat {
        self.0 as nat
    }
}

impl View for Damage {
    type V = nat;

    closed spec fn view(&self) -> nat {
        self.0 as nat
    }
}

/// What is left of `health` hit points after `damage` is taken: never below
/// zero.
pub open spec fn after_damage(health: nat, damage: nat) -> nat {
    if damage >= health {
        0
    } else {
        (health - damage) as nat
    }
}

/// By how much `amount` raises a health of `current` whose ceiling is `max`.
pub open spec fn heal_increase(current: nat, amount: nat, max: nat) -> nat {
    if amount <= max - current {
        amount
    } else {
        (max - current) as nat
    }
}

impl Health {
    /// Creates a [`Health`] from a number of hit points.
    pub fn new(health: usize) -> (r: Self)
        ensures
            r@ == health,
    {
        Self(health)
    }

    /// Whether the health is zero: the combatant has lost.
    pub fn is_0(self) -> (r: bool)
        ensures
            r == (self@ == 0),
    {
        self.0 == 0
    }

    /// Raises the health by `heal_by`, but not above `max`, and returns by
    /// how much it rose.
    pub fn heal_to_max(&mut self, heal_by: Damage, max: Self) -> (increase: Damage)
        requires
            old(self)@ <= max@,
        ensures
            increase@ == heal_increase(old(self)@, heal_by@, max@),
            final(self)@ == old(self)@ + increase@,
            final(self)@ <= max@,
            increase@ <= heal_by@,
    {
        let room = max.0 - self.0;
        let diff = if heal_by.0 <= room { heal_by.0 } else { room };
        self.0 = self.0 + diff;
        Damage(diff)
    }

    /// The number of hit points.
    pub fn as_usize(self) -> (r: usize)
        ensures
            r == self@,
    {
        self.0
    }

    /// The plain decimal numeral of the hit points.
    pub fn to_string(&self) -> (r: String)
        ensures
            r@ == decimal(self@),
    {
        to_decimal(self.0)
    }
}

impl Damage {
    /// Creates a [`Damage`] from a change in hit points.
    pub fn new(health: usize) -> (r: Self)
        ensures
            r@ == health,
    {
        Self(health)
    }

    /// The size of the change in hit points.
    pub fn as_usize(self) -> (r: usize)
        ensures
            r == self@,
    {
        self.0
    }

    /// The plain decimal numeral of the change.
    pub fn to_string(&self) -> (r: String)
        ensures
            r@ == decimal(self@),
    {
        to_decimal(self.0)
    }
}

impl core::ops::Sub<Damage> for Health {
    type Output = Health;

    /// Takes `rhs` hit points away, stopping at zero.
    fn sub(self, rhs: Damage) -> (r: Health)
        ensures
            r@ == after_damage(self@, rhs@),
            rhs@ >= self@ ==> r@ == 0,
    {
        Health(self.0.saturating_sub(rhs.0))
    }
}

impl SubSpecImpl<Damage> for Health {
    open spec fn obeys_sub_spec() -> bool {
        true
    }

    open spec fn sub_req(self, rhs: Damage) -> bool {
        true
    }

    closed spec fn sub_spec(self, rhs: Damage) -> Health {
        Health(after_damage(self@, rhs@) as usize)
    }
}

impl core::ops::Add<Damage> for Health {
    type Output = Health;

    /// Adds `rhs` hit points. No ceiling is applied here: see
    /// [`Health::heal_to_max`].
    fn add(self, rhs: Damage) -> (r: Health)
        ensures
            r@ == self@ + rhs@,
    {
        Health(self.0 + rhs.0)
    }
}

impl AddSpecImpl<Damage> for Health {
    open spec fn obeys_add_spec() -> bool {
        true
    }

    open spec fn add_req(self, rhs: Damage) -> bool {
        self@ + rhs@ <= usize::MAX
    }

    closed spec fn add_spec(self, rhs: Damage) -> Health {
        Health((self@ + rhs@) as usize)
    }
}

impl core::ops::Sub<Health> for Health {
    type Output = Damage;

    /// The change that leads from `rhs` up to `self`.
    fn sub(self, rhs: Health) -> (r: Damage)
        ensures
            r@ == self@ - rhs@,
    {
        Damage(self.0 - rhs.0)
    }
}

impl SubSpecImpl<Health> for Health {
    open spec fn obeys_sub_spec() -> bool {
        true
    }

    open spec fn sub_req(self, rhs: Health) -> bool {
        rhs@ <= self@
    }

    closed spec fn sub_spec(self, rhs: Health) -> Damage {
        Damage((self@ - rhs@) as usize)
    }
}

impl core::ops::SubAssign<Damage> for Health {
    /// Takes `rhs` hit points away, stopping at zero.
    fn sub_assign(&mut self, rhs: Damage)
        ensures
            final(self)@ == after_damage(old(self)@, rhs@),
            rhs@ >= old(self)@ ==> final(self)@ == 0,
    {
        self.0 = self.0.saturating_sub(rhs.0);
    }
}

impl core::ops::AddAssign<Damage> for Health {
    /// Adds `rhs` hit points, with no ceiling.
    fn add_assign(&mut self, rhs: Damage)
        requires
            old(self)@ + rhs@ <= usize::MAX,
        ensures
            final(self)@ == old(self)@ + rhs@,
    {
        self.0 = self.0 + rhs.0;
    }
}

} // verus!
