use drugwars::banner::show_banner;
use drugwars::combat::{wound, Adversary, Choice, Fight, FightStart, RoundResult};
use drugwars::game::{Game, START_DAYS};
use drugwars::goods::{City, Drug};
use drugwars::player::{Player, TradeError, Upgrade};

fn flat_market_game(cash: i64, price: i64) -> Game {
    let mut g = Game::new(1);
    g.player.cash = cash;
    g.market.prices = vec![price; 6];
    g
}

#[test]
fn new_player_starts_fresh() {
    let p = Player::new();
    assert_eq!(p.cash, 2000);
    assert_eq!(p.debt, 5000);
    assert_eq!(p.health, 10);
    assert_eq!(p.trenchcoat_space, 100);
    assert_eq!(p.inventory, vec![0; 6]);
    assert_eq!(p.weapons, 30);
    assert_eq!(p.day, 1);
    assert_eq!(p.city, City::Manhattan);
    assert_eq!(p.total_drugs(), 0);
}

#[test]
fn one_day_of_interest_in_a_session() {
    let mut g = Game::new(42);
    assert_eq!(g.player.debt, 5000);
    let report = g.next_day();
    assert_eq!(g.player.debt, 5750);
    assert_eq!(report.interest, 750);
    assert_eq!(g.player.day, 2);
}

#[test]
fn travel_moves_and_advances_a_day() {
    let mut g = Game::new(3);
    g.travel(City::Brooklyn);
    assert_eq!(g.player.city, City::Brooklyn);
    assert_eq!(g.player.day, 2);
    assert_eq!(g.player.debt, 5750);
}

#[test]
fn buy_within_limits_then_over_cash_limit() {
    let mut g = flat_market_game(1000, 100);
    assert_eq!(g.max_units(Drug::Acid), 10);
    assert_eq!(g.buy(Drug::Acid, 5), Ok(()));
    assert_eq!(g.player.cash, 500);
    assert_eq!(g.player.inventory[Drug::Acid.index()], 5);

    let mut g = flat_market_game(1000, 100);
    let before_player = g.player.clone();
    let before_market = g.market.clone();
    assert_eq!(g.buy(Drug::Acid, 11), Err(TradeError::OverLimit));
    assert_eq!(g.player, before_player);
    assert_eq!(g.market, before_market);
}

#[test]
fn buy_limited_by_space_and_bad_quantities() {
    let mut g = flat_market_game(1_000_000, 10);
    g.player.inventory[0] = 95;
    assert_eq!(g.max_units(Drug::Heroin), 5);
    let before = g.player.clone();
    assert_eq!(g.buy(Drug::Heroin, 6), Err(TradeError::OverLimit));
    assert_eq!(g.buy(Drug::Heroin, 0), Err(TradeError::InvalidInput));
    assert_eq!(g.buy(Drug::Heroin, -3), Err(TradeError::InvalidInput));
    assert_eq!(g.player, before);
    assert_eq!(g.buy(Drug::Heroin, 5), Ok(()));
    assert_eq!(g.player.total_drugs(), 100);
    assert_eq!(g.player.cash, 1_000_000 - 50);
}

#[test]
fn sell_rules() {
    let mut g = flat_market_game(0, 250);
    g.player.inventory[3] = 4;
    let before = g.player.clone();
    assert_eq!(g.sell(Drug::Weed, 5), Err(TradeError::InsufficientStock));
    assert_eq!(g.sell(Drug::Weed, -1), Err(TradeError::InvalidInput));
    assert_eq!(g.player, before);
    assert_eq!(g.sell(Drug::Weed, 0), Ok(()));
    assert_eq!(g.player, before);
    assert_eq!(g.sell(Drug::Weed, 3), Ok(()));
    assert_eq!(g.player.cash, 750);
    assert_eq!(g.player.inventory[3], 1);
}

#[test]
fn holdings_never_exceed_space() {
    let mut g = flat_market_game(50_000, 7);
    let mut step: i64 = 0;
    for round in 0..500 {
        let d = Drug::all()[round % 6];
        step = (step * 31 + 17) % 41;
        let _ = if round % 3 == 0 { g.sell(d, step % 13) } else { g.buy(d, step) };
        assert!(g.player.total_drugs() <= g.player.trenchcoat_space);
    }
}

#[test]
fn repay_rules() {
    let mut p = Player::new();
    assert_eq!(p.repay(-5), Err(TradeError::InvalidInput));
    assert_eq!(p.repay(2001), Err(TradeError::InsufficientFunds));
    assert_eq!(p.repay(0), Ok(()));
    assert_eq!((p.cash, p.debt), (2000, 5000));
    assert_eq!(p.repay(1500), Ok(()));
    assert_eq!((p.cash, p.debt), (500, 3500));
    p.cash = 10_000;
    assert_eq!(p.repay(3501), Err(TradeError::OverLimit));
    assert_eq!(p.repay(3500), Ok(()));
    assert_eq!((p.cash, p.debt), (6500, 0));
    assert_eq!(p.repay(1), Err(TradeError::NoDebtOwed));
}

#[test]
fn black_market_purchases() {
    let mut g = Game::new(9);
    let offer = g.shop_around();
    assert!((1000..=4000).contains(&offer.coat_price));
    assert!((1000..=4000).contains(&offer.weapon_price));
    let mut p = Player::new();
    assert_eq!(p.purchase(Upgrade::Coat, 1500), Ok(()));
    assert_eq!((p.cash, p.trenchcoat_space), (500, 150));
    assert_eq!(p.purchase(Upgrade::Weapon, 501), Err(TradeError::InsufficientFunds));
    assert_eq!(p.purchase(Upgrade::Weapon, 500), Ok(()));
    assert_eq!((p.cash, p.weapons), (0, 31));
}

#[test]
fn weaponless_player_always_runs() {
    for seed in 0..200 {
        let mut g = Game::new(seed);
        g.player.weapons = 0;
        let adversary = if seed % 2 == 0 { Adversary::Cops } else { Adversary::RivalDealers };
        match g.fight_event(adversary) {
            FightStart::Fled { damage } => {
                assert!(damage == 0 || (2..=5).contains(&damage));
                assert_eq!(g.player.health, 10 - damage);
            }
            FightStart::Engaged(_) => panic!("a weaponless player fought"),
        }
    }
}

#[test]
fn armed_player_fights_until_the_end() {
    for seed in 0..100 {
        let mut g = Game::new(seed);
        let mut fight = match g.fight_event(Adversary::Cops) {
            FightStart::Engaged(f) => f,
            FightStart::Fled { .. } => panic!("an armed player ran"),
        };
        assert_eq!(fight, Fight { adversary: Adversary::Cops, enemy_health: 15, round: 1, escaped: false });
        let cash = g.player.cash;
        while !fight.is_over(&g.player) {
            let _ = g.taunt(&fight);
            match g.fight_round(&mut fight, Choice::Fight) {
                RoundResult::Won { dealt, loot } => {
                    assert!((3..=7).contains(&dealt));
                    assert!((2000..=10000).contains(&loot) && loot % 2 == 0);
                    assert_eq!(g.player.cash, cash + loot);
                }
                RoundResult::Traded { dealt, taken } => {
                    assert!((3..=7).contains(&dealt));
                    assert!((2..=10).contains(&taken) && taken % 2 == 0);
                }
                other => panic!("unexpected {:?}", other),
            }
        }
        assert!(fight.enemy_health <= 0 || g.player.health == 0);
    }
}

#[test]
fn fleeing_and_hesitating() {
    let mut g = Game::new(5);
    let mut fight = Fight { adversary: Adversary::RivalDealers, enemy_health: 10, round: 1, escaped: false };
    assert_eq!(g.fight_round(&mut fight, Choice::Hesitate), RoundResult::Hesitated);
    assert_eq!(fight.round, 2);
    assert_eq!(g.player.health, 10);
    loop {
        let health = g.player.health;
        match g.fight_round(&mut fight, Choice::Flee) {
            RoundResult::Escaped => {
                assert!(fight.escaped);
                break;
            }
            RoundResult::Stumbled { taken } => {
                assert!((2..=6).contains(&taken));
                assert_eq!(g.player.health, wound(health, taken));
                if fight.is_over(&g.player) {
                    break;
                }
            }
            other => panic!("unexpected {:?}", other),
        }
    }
}

#[test]
fn wounds_stop_at_zero() {
    assert_eq!(wound(10, 3), 7);
    assert_eq!(wound(4, 6), 0);
}

#[test]
fn game_over_conditions() {
    let mut g = Game::new(0);
    assert!(!g.is_game_over());
    g.player.day = START_DAYS + 1;
    assert!(g.is_game_over());
    g.player.day = START_DAYS;
    assert!(!g.is_game_over());
    g.player.health = 0;
    assert!(g.is_game_over());
    g.player.health = 1;
    g.player.debt = 10_001;
    assert!(g.is_game_over());
    g.player.debt = 10_000;
    assert!(!g.is_game_over());
}

#[test]
fn score_formula() {
    let mut g = Game::new(0);
    for (cash, score) in [(2_000_000, 100), (0, 0), (500_000, 100), (250_000, 50), (2_499, 0), (2_500, 1), (7_499, 1)] {
        g.player.cash = cash;
        assert_eq!(g.final_score(), score, "cash {}", cash);
    }
}

#[test]
fn seeded_sessions_replay() {
    let mut a = Game::new(77);
    let mut b = Game::new(77);
    for _ in 0..10 {
        let ra = a.next_day();
        let rb = b.next_day();
        assert_eq!(ra.news, rb.news);
        assert_eq!(ra.encounter, rb.encounter);
        assert_eq!(a.market, b.market);
    }
}

#[test]
fn banner_is_the_title_art() {
    let b = show_banner();
    assert!(b.contains("██████╗"));
    assert!(b.lines().count() > 10);
}
