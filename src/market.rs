use crate::goods::{Drug, all_drugs, drug_index, DRUG_COUNT};
use crate::random::draw_between;
use vstd::prelude::*;

verus! {

/// Lowest price a commodity can be generated at.
pub open spec fn price_floor(d: Drug) -> int {
    match d {
        Drug::Cocaine => 1500,
        Drug::Heroin => 1000,
        Drug::Acid => 100,
        Drug::Weed => 90,
        Drug::Speed => 100,
        Drug::Ludes => 10,
    }
}

/// Highest price a commodity can be generated at.
pub open spec fn price_ceiling(d: Drug) -> int {
    match d {
        Drug::Cocaine => 30000,
        Drug::Heroin => 14000,
        Drug::Acid => 1000,
        Drug::Weed => 800,
        Drug::Speed => 2500,
        Drug::Ludes => 600,
    }
}

/// Direction of a news shock.
#[derive(Debug, Clone, Copy, PartialEq, Eq, Structural)]
pub enum Shock {
    Drop,
    Spike,
}

/// Smallest and largest percentage by which a shock moves a price.
pub open spec fn shock_min_percent(s: Shock) -> int {
    match s {
        Shock::Drop => 40,
        Shock::Spike => 50,
    }
}

pub open spec fn shock_max_percent(s: Shock) -> int {
    match s {
        Shock::Drop => 70,
        Shock::Spike => 120,
    }
}

/// A price after a shock of `percent` percent: scaled down or up, truncated,
/// and never below one.
pub open spec fn shocked(price: int, s: Shock, percent: int) -> int {
    let scaled = match s {
        Shock::Drop => price * (100 - percent) / 100,
        Shock::Spike => price * (100 + percent) / 100,
    };
    if scaled < 1 { 1 } else { scaled }
}

/// Headline announcing a shock to a commodity.
pub open spec fn headline(d: Drug, s: Shock) -> Seq<char> {
    match (d, s) {
        (Drug::Cocaine, Shock::Drop) => "Colombian cartel goes on vacation. Cocaine prices plummet!"@,
        (Drug::Cocaine, Shock::Spike) => "Wall Street bonus season! Cocaine prices skyrocket!"@,
        (Drug::Heroin, Shock::Drop) => "Yoga craze sweeps the city. Heroin prices crash!"@,
        (Drug::Heroin, Shock::Spike) => "Hipsters discover 'vintage' heroin. Prices soar!"@,
        (Drug::Acid, Shock::Drop) => "Bad trip at Burning Man. Acid prices tank!"@,
        (Drug::Acid, Shock::Spike) => "Psychedelic parade! Acid prices go wild!"@,
        (Drug::Weed, Shock::Drop) => "Police raid local dispensary. Weed prices nosedive!"@,
        (Drug::Weed, Shock::Spike) => "The DrugCON meeting is held in NYC. Weed prices blaze up!"@,
        (Drug::Speed, Shock::Drop) => "Caffeine is back in style. Speed prices collapse!"@,
        (Drug::Speed, Shock::Spike) => "All-night coding hackathon! Speed prices explode!"@,
        (Drug::Ludes, Shock::Drop) => "Wolf of Wall Street arrested. Ludes prices drop!"@,
        (Drug::Ludes, Shock::Spike) => "Retro party! Ludes prices go through the roof!"@,
    }
}

/// The headline for every pair of commodity and direction; the table is complete.
pub fn news_headline(d: Drug, s: Shock) -> (r: &'static str)
    ensures
        r@ == headline(d, s),
{
    match (d, s) {
        (Drug::Cocaine, Shock::Drop) => "Colombian cartel goes on vacation. Cocaine prices plummet!",
        (Drug::Cocaine, Shock::Spike) => "Wall Street bonus season! Cocaine prices skyrocket!",
        (Drug::Heroin, Shock::Drop) => "Yoga craze sweeps the city. Heroin prices crash!",
        (Drug::Heroin, Shock::Spike) => "Hipsters discover 'vintage' heroin. Prices soar!",
        (Drug::Acid, Shock::Drop) => "Bad trip at Burning Man. Acid prices tank!",
        (Drug::Acid, Shock::Spike) => "Psychedelic parade! Acid prices go wild!",
        (Drug::Weed, Shock::Drop) => "Police raid local dispensary. Weed prices nosedive!",
        (Drug::Weed, Shock::Spike) => "The DrugCON meeting is held in NYC. Weed prices blaze up!",
        (Drug::Speed, Shock::Drop) => "Caffeine is back in style. Speed prices collapse!",
        (Drug::Speed, Shock::Spike) => "All-night coding hackathon! Speed prices explode!",
        (Drug::Ludes, Shock::Drop) => "Wolf of Wall Street arrested. Ludes prices drop!",
        (Drug::Ludes, Shock::Spike) => "Retro party! Ludes prices go through the roof!",
    }
}

/// The price that a shock of `percent` percent leaves.
pub fn shock_price(price: i64, s: Shock, percent: i64) -> (r: i64)
    requires
        price >= 1,
        shock_min_percent(s) <= percent <= shock_max_percent(s),
        shocked(price as int, s, percent as int) <= i64::MAX,
    ensures
        r == shocked(price as int, s, percent as int),
{
    let factor: i128 = match s {
        Shock::Drop => 100 - percent as i128,
        Shock::Spike => 100 + percent as i128,
    };
    assert(0 < price * factor <= i64::MAX * 220) by (nonlinear_arith)
        requires
            1 <= price <= i64::MAX,
            0 < factor <= 220,
    ;
    let scaled: i128 = price as i128 * factor / 100;
    if scaled < 1 {
        1
    } else {
        scaled as i64
    }
}

/// A drop never raises a price and never takes it below one; a spike never
/// lowers a price, and raises every price of at least two.
pub proof fn shock_moves_price(price: int, s: Shock, percent: int)
    requires
        price >= 1,
        shock_min_percent(s) <= percent <= shock_max_percent(s),
    ensures
        s == Shock::Drop ==> 1 <= shocked(price, s, percent) <= price,
        s == Shock::Spike ==> shocked(price, s, percent) >= price,
        s == Shock::Spike && price >= 2 ==> shocked(price, s, percent) > price,
{
    if s == Shock::Drop {
        assert(price * (100 - percent) / 100 <= price) by (nonlinear_arith)
            requires
                price >= 1,
                40 <= percent <= 70,
        ;
    } else {
        assert(price * (100 + percent) / 100 >= price) by (nonlinear_arith)
            requires
                price >= 1,
                50 <= percent <= 120,
        ;
        if price >= 2 {
            assert(price * (100 + percent) / 100 > price) by (nonlinear_arith)
                requires
                    price >= 2,
                    50 <= percent <= 120,
            ;
        }
    }
}

/// The day's unit prices, one per commodity in `Drug::all()` order.
#[derive(Debug, Clone, PartialEq, Eq)]
pub struct Market {
    pub prices: Vec<i64>,
}

impl Market {
    /// One price per commodity, every price at least one.
    pub open spec fn wf(&self) -> bool {
        &&& self.prices@.len() == DRUG_COUNT
        &&& forall|i: int| 0 <= i < DRUG_COUNT ==> self.prices@[i] >= 1
    }

    pub open spec fn price_of(&self, d: Drug) -> int {
        self.prices@[drug_index(d)] as int
    }

    /// Every price lies in the range its commodity is generated in.
    pub open spec fn in_generated_ranges(&self) -> bool {
        forall|d: Drug| price_floor(d) <= #[trigger] self.price_of(d) <= price_ceiling(d)
    }

    /// Every price can take the largest spike and still fit in an `i64`.
    pub open spec fn can_spike(&self) -> bool {
        forall|d: Drug| #[trigger] self.price_of(d) * 220 / 100 <= i64::MAX
    }

    /// Current unit price of a commodity.
    pub fn price(&self, d: Drug) -> (r: i64)
        requires
            self.wf(),
        ensures
            r == self.price_of(d),
            r >= 1,
    {
        self.prices[d.index()]
    }

    /// Moves one commodity's price by a shock of `percent` percent and returns
    /// the headline that announces it; the other prices stay as they were.
    pub fn apply_shock(&mut self, d: Drug, s: Shock, percent: i64) -> (r: &'static str)
        requires
            old(self).wf(),
            shock_min_percent(s) <= percent <= shock_max_percent(s),
            shocked(old(self).price_of(d), s, percent as int) <= i64::MAX,
        ensures
            final(self).wf(),
            final(self).prices@ == old(self).prices@.update(
                drug_index(d),
                shocked(old(self).price_of(d), s, percent as int) as i64,
            ),
            r@ == headline(d, s),
    {
        let i = d.index();
        let new_price = shock_price(self.prices[i], s, percent);
        self.prices.set(i, new_price);
        news_headline(d, s)
    }

    /// Draws a fresh price for every commodity, each uniformly from its own range.
    pub fn generate_prices(rng: &mut rand::rngs::StdRng) -> (r: Market)
        ensures
            r.wf(),
            r.in_generated_ranges(),
    {
        let all = Drug::all();
        let mut prices: Vec<i64> = Vec::new();
        let mut i: usize = 0;
        while i < all.len()
            invariant
                all@ == all_drugs(),
                i <= all@.len(),
                prices@.len() == i,
                forall|j: int|
                    0 <= j < i ==> price_floor(all_drugs()[j]) <= #[trigger] prices@[j]
                        <= price_ceiling(all_drugs()[j]),
            decreases all@.len() - i,
        {
            let price = match all[i] {
                Drug::Cocaine => draw_between(rng, 1500, 30000),
                Drug::Heroin => draw_between(rng, 1000, 14000),
                Drug::Acid => draw_between(rng, 100, 1000),
                Drug::Weed => draw_between(rng, 90, 800),
                Drug::Speed => draw_between(rng, 100, 2500),
                Drug::Ludes => draw_between(rng, 10, 600),
            };
            prices.push(price);
            i += 1;
        }
        let r = Market { prices };
        assert forall|d: Drug| price_floor(d) <= #[trigger] r.price_of(d) <= price_ceiling(d) by {
            assert(all_drugs()[drug_index(d)] == d);
        }
        r
    }
}

} // verus!
