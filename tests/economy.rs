use drugwars::goods::{City, Drug};
use drugwars::loan::accrue_interest;
use drugwars::market::{news_headline, shock_price, Market, Shock};
use rand::rngs::StdRng;
use rand::SeedableRng;

fn range_of(d: Drug) -> (i64, i64) {
    match d {
        Drug::Cocaine => (1500, 30000),
        Drug::Heroin => (1000, 14000),
        Drug::Acid => (100, 1000),
        Drug::Weed => (90, 800),
        Drug::Speed => (100, 2500),
        Drug::Ludes => (10, 600),
    }
}

#[test]
fn generated_prices_stay_in_range() {
    let mut rng = StdRng::seed_from_u64(7);
    for _ in 0..10_000 {
        let m = Market::generate_prices(&mut rng);
        assert_eq!(m.prices.len(), 6);
        for d in Drug::all() {
            let (lo, hi) = range_of(d);
            let p = m.price(d);
            assert!(lo <= p && p <= hi, "{:?} priced {}", d, p);
        }
    }
}

#[test]
fn generated_prices_vary() {
    let mut rng = StdRng::seed_from_u64(11);
    let mut seen = std::collections::HashSet::new();
    for _ in 0..200 {
        let m = Market::generate_prices(&mut rng);
        seen.insert(m.price(Drug::Cocaine));
    }
    assert!(seen.len() > 50);
    assert!(seen.iter().any(|&p| p != 1500));
}

#[test]
fn drop_shock_lowers_but_keeps_at_least_one() {
    for price in [1i64, 2, 3, 10, 99, 100, 1234, 30000] {
        for pct in 40..=70 {
            let p = shock_price(price, Shock::Drop, pct);
            assert!(p >= 1 && p <= price);
        }
    }
    assert_eq!(shock_price(1000, Shock::Drop, 40), 600);
    assert_eq!(shock_price(1000, Shock::Drop, 70), 300);
    assert_eq!(shock_price(1, Shock::Drop, 70), 1);
    assert_eq!(shock_price(10, Shock::Drop, 70), 3);
}

#[test]
fn spike_shock_raises() {
    for price in [1i64, 2, 3, 10, 99, 100, 1234, 30000] {
        for pct in 50..=120 {
            let p = shock_price(price, Shock::Spike, pct);
            assert!(p >= price);
            if price >= 2 {
                assert!(p > price);
            }
        }
    }
    assert_eq!(shock_price(1000, Shock::Spike, 50), 1500);
    assert_eq!(shock_price(1000, Shock::Spike, 120), 2200);
    assert_eq!(shock_price(30000, Shock::Spike, 120), 66000);
}

#[test]
fn apply_shock_moves_one_price() {
    let mut m = Market { prices: vec![2000, 3000, 400, 500, 600, 70] };
    let line = m.apply_shock(Drug::Weed, Shock::Drop, 50);
    assert_eq!(m.prices, vec![2000, 3000, 400, 250, 600, 70]);
    assert_eq!(line, "Police raid local dispensary. Weed prices nosedive!");
    let line = m.apply_shock(Drug::Cocaine, Shock::Spike, 100);
    assert_eq!(m.prices, vec![4000, 3000, 400, 250, 600, 70]);
    assert_eq!(line, "Wall Street bonus season! Cocaine prices skyrocket!");
}

#[test]
fn every_shock_has_its_own_headline() {
    let mut lines = std::collections::HashSet::new();
    for d in Drug::all() {
        for s in [Shock::Drop, Shock::Spike] {
            let l = news_headline(d, s);
            assert!(!l.starts_with("Strange news"));
            lines.insert(l);
        }
    }
    assert_eq!(lines.len(), 12);
}

#[test]
fn interest_on_a_thousand() {
    assert_eq!(accrue_interest(1000), (1150, 150));
}

#[test]
fn interest_rounds_up_and_skips_no_debt() {
    assert_eq!(accrue_interest(5000), (5750, 750));
    assert_eq!(accrue_interest(1), (2, 1));
    assert_eq!(accrue_interest(101), (117, 16));
    assert_eq!(accrue_interest(0), (0, 0));
    assert_eq!(accrue_interest(-40), (-40, 0));
}

#[test]
fn interest_is_monotonic() {
    let mut last = accrue_interest(0).0;
    for d in 1..3000 {
        let (next, interest) = accrue_interest(d);
        assert!(next >= last);
        assert_eq!(next, d + interest);
        last = next;
    }
}

#[test]
fn commodity_names_and_menu() {
    let names: Vec<&str> = Drug::all().iter().map(|d| d.name()).collect();
    assert_eq!(names, vec!["Cocaine", "Heroin", "Acid", "Weed", "Speed", "Ludes"]);
    assert_eq!(Drug::from_menu(1), Some(Drug::Cocaine));
    assert_eq!(Drug::from_menu(6), Some(Drug::Ludes));
    assert_eq!(Drug::from_menu(0), None);
    assert_eq!(Drug::from_menu(7), None);
    assert_eq!(Drug::Speed.index(), 4);
}

#[test]
fn city_names_and_menu() {
    let names: Vec<&str> = City::all().iter().map(|c| c.name()).collect();
    assert_eq!(names, vec!["Manhattan", "The Bronx", "Brooklyn"]);
    assert_eq!(City::from_menu(2), Some(City::Bronx));
    assert_eq!(City::from_menu(0), None);
    assert_eq!(City::from_menu(4), None);
}
