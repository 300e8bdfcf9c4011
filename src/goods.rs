use vstd::prelude::*;

verus! {

/// The six commodities that can be traded.
#[derive(Debug, Clone, Copy, PartialEq, Eq, Hash, Structural)]
pub enum Drug {
    Cocaine,
    Heroin,
    Acid,
    Weed,
    Speed,
    Ludes,
}

/// Number of commodities.
pub const DRUG_COUNT: usize = 6;

/// Position of each commodity in `Drug::all()`, in market tables and in holdings.
pub open spec fn drug_index(d: Drug) -> int {
    match d {
        Drug::Cocaine => 0,
        Drug::Heroin => 1,
        Drug::Acid => 2,
        Drug::Weed => 3,
        Drug::Speed => 4,
        Drug::Ludes => 5,
    }
}

pub open spec fn drug_name(d: Drug) -> Seq<char> {
    match d {
        Drug::Cocaine => "Cocaine"@,
        Drug::Heroin => "Heroin"@,
        Drug::Acid => "Acid"@,
        Drug::Weed => "Weed"@,
        Drug::Speed => "Speed"@,
        Drug::Ludes => "Ludes"@,
    }
}

pub open spec fn all_drugs() -> Seq<Drug> {
    seq![Drug::Cocaine, Drug::Heroin, Drug::Acid, Drug::Weed, Drug::Speed, Drug::Ludes]
}

impl Drug {
    /// Every commodity, in the order used by price tables and holdings.
    pub fn all() -> (r: Vec<Drug>)
        ensures
            r@ == all_drugs(),
    {
        vec![Drug::Cocaine, Drug::Heroin, Drug::Acid, Drug::Weed, Drug::Speed, Drug::Ludes]
    }

    /// Display name of the commodity.
    pub fn name(&self) -> (r: &'static str)
        ensures
            r@ == drug_name(*self),
    {
        match self {
            Drug::Cocaine => "Cocaine",
            Drug::Heroin => "Heroin",
            Drug::Acid => "Acid",
            Drug::Weed => "Weed",
            Drug::Speed => "Speed",
            Drug::Ludes => "Ludes",
        }
    }

    /// Position of the commodity in `Drug::all()`.
    pub fn index(&self) -> (r: usize)
        ensures
            r as int == drug_index(*self),
    {
        match self {
            Drug::Cocaine => 0,
            Drug::Heroin => 1,
            Drug::Acid => 2,
            Drug::Weed => 3,
            Drug::Speed => 4,
            Drug::Ludes => 5,
        }
    }

    /// The commodity that a 1-based menu entry names, if any.
    pub fn from_menu(choice: usize) -> (r: Option<Drug>)
        ensures
            1 <= choice <= 6 ==> r == Some(all_drugs()[choice - 1]),
            !(1 <= choice <= 6) ==> r is None,
    {
        if choice == 0 {
            return None;
        }
        let all = Drug::all();
        if choice - 1 < all.len() {
            Some(all[choice - 1])
        } else {
            None
        }
    }
}

/// The three places the player can travel between.
#[derive(Debug, Clone, Copy, PartialEq, Eq, Hash, Structural)]
pub enum City {
    Manhattan,
    Bronx,
    Brooklyn,
}

pub open spec fn all_cities() -> Seq<City> {
    seq![City::Manhattan, City::Bronx, City::Brooklyn]
}

pub open spec fn city_name(c: City) -> Seq<char> {
    match c {
        City::Manhattan => "Manhattan"@,
        City::Bronx => "The Bronx"@,
        City::Brooklyn => "Brooklyn"@,
    }
}

impl City {
    /// Every destination, in menu order.
    pub fn all() -> (r: Vec<City>)
        ensures
            r@ == all_cities(),
    {
        vec![City::Manhattan, City::Bronx, City::Brooklyn]
    }

    /// Display name of the city.
    pub fn name(&self) -> (r: &'static str)
        ensures
            r@ == city_name(*self),
    {
        match self {
            City::Manhattan => "Manhattan",
            City::Bronx => "The Bronx",
            City::Brooklyn => "Brooklyn",
        }
    }

    /// The destination that a 1-based menu entry names, if any.
    pub fn from_menu(choice: usize) -> (r: Option<City>)
        ensures
            1 <= choice <= 3 ==> r == Some(all_cities()[choice - 1]),
            !(1 <= choice <= 3) ==> r is None,
    {
        if choice == 0 {
            return None;
        }
        let all = City::all();
        if choice - 1 < all.len() {
            Some(all[choice - 1])
        } else {
            None
        }
    }
}

} // verus!
