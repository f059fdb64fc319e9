//! Battery state values: charger mode and state of charge.

use vstd::prelude::*;

verus! {

/// Indicates the state of the charger of a battery.
#[derive(Copy, Clone, Eq, PartialEq, Structural, Debug)]
pub enum ChargerState {
    /// No power source is connected, therefore the battery is discharging.
    Discharging,
    /// A power source is connected, therefore the battery is charging.
    Charging,
    /// A power source is connected, but the battery is fully charged.
    Full,
}

/// Indicates a level of charge of a battery.
///
/// The raw level occupies the full `u8` range; the percentage form is a
/// truncating rescaling of it, so only the raw level round-trips exactly.
#[derive(Copy, Clone, Eq, PartialEq, Structural, Debug)]
pub struct StateOfCharge {
    level: u8,
}

/// The raw level that a charge percentage scales to, truncated.
pub open spec fn level_of_percentage(percentage: int) -> int {
    percentage * 255 / 100
}

/// The charge percentage that a raw level scales to, truncated.
pub open spec fn percentage_of_level(level: int) -> int {
    level * 100 / 255
}

impl StateOfCharge {
    /// The raw level held by this value.
    pub closed spec fn spec_level(&self) -> u8 {
        self.level
    }

    /// The charge value holding a given raw level.
    pub closed spec fn spec_from_level(level: u8) -> StateOfCharge {
        StateOfCharge { level }
    }

    /// Create an instance from a percentage (0..=100).
    pub fn from_percentage(percentage: u8) -> (r: Self)
        requires
            percentage <= 100,
        ensures
            r.spec_level() == level_of_percentage(percentage as int),
    {
        proof {
            vstd::arithmetic::div_mod::lemma_div_is_ordered(
                percentage * 255,
                25500,
                100,
            );
        }
        let percentage = percentage as u32;
        let level = percentage * 255 / 100;
        Self::from_level(level as u8)
    }

    /// Create an instance from a raw level (0..=255).
    pub fn from_level(level: u8) -> (r: Self)
        ensures
            r == Self::spec_from_level(level),
            r.spec_level() == level,
    {
        Self { level }
    }

    /// Get the raw level (0..=255).
    pub fn level(&self) -> (r: u8)
        ensures
            r == self.spec_level(),
    {
        self.level
    }

    /// Get the percentage (0..=100).
    pub fn percentage(&self) -> (r: u8)
        ensures
            r == percentage_of_level(self.spec_level() as int),
    {
        proof {
            vstd::arithmetic::div_mod::lemma_div_is_ordered(
                self.level * 100,
                25500,
                255,
            );
        }
        let level = self.level as u32;
        let percentage = level * 100 / 255;
        percentage as u8
    }
}

/// A raw level round-trips exactly: building a charge value from a level
/// and reading the level back yields the same level.
pub proof fn lemma_level_round_trip(level: u8)
    ensures
        StateOfCharge::spec_from_level(level).spec_level() == level,
{
}

/// Converting a percentage to a raw level and back is lossy, but the error
/// is bounded by integer-division truncation: the percentage read back is
/// never above the input percentage and at most one below it.
pub proof fn lemma_percentage_round_trip(percentage: u8)
    requires
        percentage <= 100,
    ensures
        percentage_of_level(level_of_percentage(percentage as int)) <= percentage,
        percentage_of_level(level_of_percentage(percentage as int)) >= percentage - 1,
{
    let p = percentage as int;
    let l = level_of_percentage(p);
    assert(p * 255 == 100 * l + (p * 255) % 100) by {
        vstd::arithmetic::div_mod::lemma_fundamental_div_mod(p * 255, 100);
    }
    let rem = (p * 255) % 100;
    assert(0 <= rem < 100);
    assert(l * 100 == p * 255 - rem);
    if rem == 0 {
        assert(l * 100 == p * 255 + 0);
        vstd::arithmetic::div_mod::lemma_fundamental_div_mod_converse_div(l * 100, 255, p, 0);
    } else {
        assert(l * 100 == (p - 1) * 255 + (255 - rem));
        vstd::arithmetic::div_mod::lemma_fundamental_div_mod_converse_div(
            l * 100,
            255,
            p - 1,
            255 - rem,
        );
    }
}

} // verus!
