use crate::combat::Adversary;
use crate::goods::{City, Drug, drug_index};
use crate::loan::{accrue_interest, accrued, interest_on};
use crate::market::{Market, Shock, headline, price_ceiling, price_floor, shocked, shock_max_percent, shock_min_percent};
use crate::player::{Player, TradeError, lemma_total_bounds, lemma_total_update, total, LOAN_AMOUNT, MAX_HEALTH, START_CASH, START_SPACE, START_WEAPONS, zeros};
use crate::random::{draw_between, draw_chance, seeded_rng};
use vstd::prelude::*;

verus! {

/// Days in a game.
pub const START_DAYS: i64 = 30;

/// A news shock that moved one commodity's price.
#[derive(Debug, Clone, Copy, PartialEq, Eq)]
pub struct NewsFlash {
    pub drug: Drug,
    pub shock: Shock,
    /// How far the price moved, in percent of the old price.
    pub percent: i64,
    pub old_price: i64,
    pub new_price: i64,
    pub headline: &'static str,
}

/// What happened when a day began.
#[derive(Debug, Clone, Copy)]
pub struct DayReport {
    /// Interest added to the debt.
    pub interest: i64,
    /// The news shock of the day, if one came.
    pub news: Option<NewsFlash>,
    /// Who confronts the player, if anyone; the fight is run through
    /// `Game::fight_event`.
    pub encounter: Option<Adversary>,
}

/// A whole game: the player, the day's market, and the random stream that
/// drives prices, events and fights.
pub struct Game {
    pub player: Player,
    pub market: Market,
    pub rng: rand::rngs::StdRng,
}

/// What a news flash reports agrees with the market it changed.
pub open spec fn flash_applied(before: Market, after: Market, f: NewsFlash) -> bool {
    &&& f.old_price == before.price_of(f.drug)
    &&& shock_min_percent(f.shock) <= f.percent <= shock_max_percent(f.shock)
    &&& f.new_price == shocked(f.old_price as int, f.shock, f.percent as int)
    &&& after.prices@ == before.prices@.update(drug_index(f.drug), f.new_price)
    &&& f.headline@ == headline(f.drug, f.shock)
}

/// A day began between `before` and `after`: the day counter moved on by one,
/// interest was charged, prices were drawn afresh and at most one of them was
/// then shocked. Nothing else about the player changed.
pub open spec fn day_advanced(before: Player, after: Game, r: DayReport) -> bool {
    &&& after.player == (Player {
        day: (before.day + 1) as i64,
        debt: accrued(before.debt as int) as i64,
        ..before
    })
    &&& r.interest == interest_on(before.debt as int)
    &&& match r.news {
        None => after.market.in_generated_ranges(),
        Some(f) => {
            &&& price_floor(f.drug) <= f.old_price <= price_ceiling(f.drug)
            &&& f.new_price == after.market.price_of(f.drug)
            &&& f.new_price == shocked(f.old_price as int, f.shock, f.percent as int)
            &&& shock_min_percent(f.shock) <= f.percent <= shock_max_percent(f.shock)
            &&& f.headline@ == headline(f.drug, f.shock)
            &&& forall|d: Drug|
                d != f.drug ==> price_floor(d) <= #[trigger] after.market.price_of(d)
                    <= price_ceiling(d)
        },
    }
}

/// Score for the cash at the end: one point per 5,000 of cash, rounded to
/// the nearest point (halves away from zero), at most 100.
pub open spec fn score_for(cash: int) -> int {
    let rounded = if cash >= 0 {
        (cash + 2500) / 5000
    } else {
        -((-cash + 2500) / 5000)
    };
    if rounded > 100 { 100 } else { rounded }
}

/// Prices of the two black-market items on one visit.
#[derive(Debug, Clone, Copy, PartialEq, Eq, Structural)]
pub struct ShopOffer {
    /// Price of a larger trench coat.
    pub coat_price: i64,
    /// Price of a weapon.
    pub weapon_price: i64,
}

/// Most units of a commodity that the player can afford and carry.
pub open spec fn max_units_of(p: Player, m: Market, d: Drug) -> int {
    let by_cash = p.cash as int / m.price_of(d);
    let by_space = p.trenchcoat_space - total(p.inventory@);
    if by_cash < by_space { by_cash } else { by_space }
}

impl Game {
    pub open spec fn wf(&self) -> bool {
        self.player.wf() && self.market.wf()
    }

    /// Starts a game: a new player and a fresh market, with the random
    /// stream fixed by `seed`.
    pub fn new(seed: u64) -> (r: Game)
        ensures
            r.wf(),
            r.player.cash == START_CASH,
            r.player.debt == LOAN_AMOUNT,
            r.player.health == MAX_HEALTH,
            r.player.trenchcoat_space == START_SPACE,
            r.player.inventory@ == zeros(6),
            r.player.weapons == START_WEAPONS,
            r.player.day == 1,
            r.player.city == City::Manhattan,
            r.market.in_generated_ranges(),
    {
        let mut rng = seeded_rng(seed);
        let market = Market::generate_prices(&mut rng);
        Game { player: Player::new(), market, rng }
    }

    /// Begins the next day: the day counter moves on, prices are drawn
    /// afresh, interest is charged on the debt, and then a news shock and an
    /// encounter may each come.
    pub fn next_day(&mut self) -> (r: DayReport)
        requires
            old(self).wf(),
            old(self).player.day < i64::MAX,
            accrued(old(self).player.debt as int) <= i64::MAX,
        ensures
            final(self).wf(),
            day_advanced(old(self).player, *final(self), r),
    {
        self.player.day = self.player.day + 1;
        self.market = Market::generate_prices(&mut self.rng);
        let (debt, interest) = accrue_interest(self.player.debt);
        self.player.debt = debt;
        proof {
            assert forall|d: Drug| #[trigger] self.market.price_of(d) * 220 / 100 <= i64::MAX by {
                assert(self.market.price_of(d) <= 30000);
            }
        }
        let ghost generated = self.market;
        let news = self.random_news_flash();
        let encounter = self.random_fight_event();
        proof {
            if let Some(f) = news {
                assert forall|d: Drug| d != f.drug implies price_floor(d) <= #[trigger] self.market.price_of(d)
                    <= price_ceiling(d) by {
                    assert(generated.price_of(d) == self.market.price_of(d));
                }
            }
        }
        DayReport { interest, news, encounter }
    }

    /// Moves the player to `city`; the journey takes a day.
    pub fn travel(&mut self, city: City) -> (r: DayReport)
        requires
            old(self).wf(),
            old(self).player.day < i64::MAX,
            accrued(old(self).player.debt as int) <= i64::MAX,
        ensures
            final(self).wf(),
            day_advanced((Player { city, ..old(self).player }), *final(self), r),
    {
        self.player.city = city;
        self.next_day()
    }

    /// With a chance of three in ten, shocks the price of a commodity picked
    /// uniformly: a drop of 40 to 70 percent or a spike of 50 to 120 percent,
    /// each direction as likely.
    pub fn random_news_flash(&mut self) -> (r: Option<NewsFlash>)
        requires
            old(self).wf(),
            old(self).market.can_spike(),
        ensures
            final(self).wf(),
            final(self).player == old(self).player,
            match r {
                None => final(self).market == old(self).market,
                Some(f) => flash_applied(old(self).market, final(self).market, f),
            },
    {
        if !draw_chance(&mut self.rng, 3, 10) {
            return None;
        }
        let all = Drug::all();
        let pick = draw_between(&mut self.rng, 0, 5);
        let drug = all[pick as usize];
        let event = draw_between(&mut self.rng, 0, 1);
        let shock = if event == 0 {
            Shock::Drop
        } else {
            Shock::Spike
        };
        let percent = match shock {
            Shock::Drop => draw_between(&mut self.rng, 40, 70),
            Shock::Spike => draw_between(&mut self.rng, 50, 120),
        };
        let old_price = self.market.price(drug);
        assert(shocked(old_price as int, shock, percent as int) <= i64::MAX) by {
            let p = old_price as int;
            assert(p * 220 / 100 <= i64::MAX);
            assert(p * (100 - percent) / 100 <= p * 220 / 100) by (nonlinear_arith)
                requires
                    p >= 1,
                    40 <= percent <= 120,
            ;
            assert(p * (100 + percent) / 100 <= p * 220 / 100) by (nonlinear_arith)
                requires
                    p >= 1,
                    40 <= percent <= 120,
            ;
        }
        let headline = self.market.apply_shock(drug, shock, percent);
        let new_price = self.market.price(drug);
        Some(NewsFlash { drug, shock, percent, old_price, new_price, headline })
    }

    /// Most units of `d` that the player can afford and carry now.
    pub fn max_units(&self, d: Drug) -> (r: i64)
        requires
            self.wf(),
        ensures
            r == max_units_of(self.player, self.market, d),
            r >= 0,
    {
        let by_cash = self.player.cash / self.market.price(d);
        proof {
            crate::player::lemma_total_nonneg(self.player.inventory@);
        }
        let by_space = self.player.trenchcoat_space - self.player.total_drugs();
        if by_cash < by_space {
            by_cash
        } else {
            by_space
        }
    }

    /// Buys `qty` units of `d` at today's price. The quantity must be
    /// positive and no more than what the cash and the free space allow.
    pub fn buy(&mut self, d: Drug, qty: i64) -> (r: Result<(), TradeError>)
        requires
            old(self).wf(),
        ensures
            final(self).wf(),
            final(self).market == old(self).market,
            qty <= 0 ==> r == Err::<(), TradeError>(TradeError::InvalidInput),
            qty > 0 && qty > max_units_of(old(self).player, old(self).market, d) ==> r == Err::<
                (),
                TradeError,
            >(TradeError::OverLimit),
            r is Ok <==> 0 < qty <= max_units_of(old(self).player, old(self).market, d),
            r is Err ==> final(self).player == old(self).player,
            r is Ok ==> final(self).player == (Player {
                cash: (old(self).player.cash - old(self).market.price_of(d) * qty) as i64,
                inventory: final(self).player.inventory,
                ..old(self).player
            }) && final(self).player.inventory@ == old(self).player.inventory@.update(
                drug_index(d),
                (old(self).player.held(d) + qty) as i64,
            ),
            total(final(self).player.inventory@) <= final(self).player.trenchcoat_space,
    {
        let max_units = self.max_units(d);
        if qty <= 0 {
            return Err(TradeError::InvalidInput);
        }
        if qty > max_units {
            return Err(TradeError::OverLimit);
        }
        let price = self.market.price(d);
        let i = d.index();
        proof {
            let cash = self.player.cash as int;
            assert(price * qty <= cash) by (nonlinear_arith)
                requires
                    0 < qty <= cash / (price as int),
                    price >= 1,
                    cash >= 0,
            ;
            lemma_total_bounds(self.player.inventory@, i as int);
            lemma_total_update(self.player.inventory@, i as int, (self.player.inventory@[i as int] + qty) as i64);
        }
        let cost = price * qty;
        self.player.cash = self.player.cash - cost;
        let held = self.player.inventory[i];
        self.player.inventory.set(i, held + qty);
        Ok(())
    }

    /// Sells `qty` units of `d` at today's price. The quantity may be zero
    /// and must not exceed what the player holds.
    pub fn sell(&mut self, d: Drug, qty: i64) -> (r: Result<(), TradeError>)
        requires
            old(self).wf(),
            old(self).player.cash + old(self).market.price_of(d) * old(self).player.held(d)
                <= i64::MAX,
        ensures
            final(self).wf(),
            final(self).market == old(self).market,
            qty < 0 ==> r == Err::<(), TradeError>(TradeError::InvalidInput),
            qty > old(self).player.held(d) ==> r == Err::<(), TradeError>(
                TradeError::InsufficientStock,
            ),
            r is Ok <==> 0 <= qty <= old(self).player.held(d),
            r is Err ==> final(self).player == old(self).player,
            r is Ok ==> final(self).player == (Player {
                cash: (old(self).player.cash + old(self).market.price_of(d) * qty) as i64,
                inventory: final(self).player.inventory,
                ..old(self).player
            }) && final(self).player.inventory@ == old(self).player.inventory@.update(
                drug_index(d),
                (old(self).player.held(d) - qty) as i64,
            ),
            total(final(self).player.inventory@) <= final(self).player.trenchcoat_space,
    {
        let i = d.index();
        let held = self.player.inventory[i];
        if qty < 0 {
            return Err(TradeError::InvalidInput);
        }
        if qty > held {
            return Err(TradeError::InsufficientStock);
        }
        let price = self.market.price(d);
        proof {
            let cash = self.player.cash as int;
            assert(price * qty <= price * held) by (nonlinear_arith)
                requires
                    0 <= qty <= held,
                    price >= 1,
            ;
            lemma_total_update(self.player.inventory@, i as int, (held - qty) as i64);
        }
        self.player.cash = self.player.cash + price * qty;
        self.player.inventory.set(i, held - qty);
        Ok(())
    }

    /// Visits the black market: a price for a larger trench coat and one for
    /// a weapon, each drawn from 1,000 to 4,000. Buying goes through
    /// `Player::purchase`.
    pub fn shop_around(&mut self) -> (r: ShopOffer)
        ensures
            1000 <= r.coat_price <= 4000,
            1000 <= r.weapon_price <= 4000,
            final(self).player == old(self).player,
            final(self).market == old(self).market,
    {
        let coat_price = draw_between(&mut self.rng, 1000, 4000);
        let weapon_price = draw_between(&mut self.rng, 1000, 4000);
        ShopOffer { coat_price, weapon_price }
    }

    /// The game ends after the last day, when the player's health is gone,
    /// or when the debt has grown past twice the loan.
    pub fn is_game_over(&self) -> (r: bool)
        ensures
            r == (self.player.day > START_DAYS || self.player.health <= 0 || self.player.debt > 2
                * LOAN_AMOUNT),
    {
        self.player.day > START_DAYS || self.player.health <= 0 || self.player.debt > 2 * LOAN_AMOUNT
    }

    /// Final score for the player's cash, out of 100.
    pub fn final_score(&self) -> (r: i64)
        ensures
            r == score_for(self.player.cash as int),
    {
        let cash = self.player.cash as i128;
        let rounded: i128 = if cash >= 0 {
            (cash + 2500) / 5000
        } else {
            -((-cash + 2500) / 5000)
        };
        if rounded > 100 {
            100
        } else {
            rounded as i64
        }
    }

    /// With a chance of two in ten, someone picks a fight: the cops or rival
    /// dealers, each as likely.
    pub fn random_fight_event(&mut self) -> (r: Option<Adversary>)
        ensures
            final(self).player == old(self).player,
            final(self).market == old(self).market,
    {
        if draw_chance(&mut self.rng, 2, 10) {
            if draw_chance(&mut self.rng, 1, 2) {
                Some(Adversary::Cops)
            } else {
                Some(Adversary::RivalDealers)
            }
        } else {
            None
        }
    }
}

} // verus!
