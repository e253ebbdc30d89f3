//! The cities that the crawler watches. Record equivalence never crosses a
//! city boundary, so the city is part of every record's identity.

use vstd::prelude::*;

verus! {

/// A city that listing pages are polled for.
#[derive(Clone, Copy, Debug, PartialEq, Eq, Structural)]
pub enum City {
    Lindenberg,
    Munich,
    Wuerzburg,
    Augsburg,
    Kempten,
}

impl City {
    /// The city's name as it appears in the published payload.
    pub open spec fn name_spec(self) -> Seq<char> {
        match self {
            City::Lindenberg => "Lindenberg"@,
            City::Munich => "Munich"@,
            City::Wuerzburg => "Wuerzburg"@,
            City::Augsburg => "Augsburg"@,
            City::Kempten => "Kempten"@,
        }
    }

    /// Returns the city's payload name.
    pub fn name(&self) -> (r: &'static str)
        ensures
            r@ == self.name_spec(),
    {
        match self {
            City::Lindenberg => "Lindenberg",
            City::Munich => "Munich",
            City::Wuerzburg => "Wuerzburg",
            City::Augsburg => "Augsburg",
            City::Kempten => "Kempten",
        }
    }
}

} // verus!
