use crate::game::Game;
use crate::player::{Player, MAX_HEALTH};
use crate::random::{draw_between, draw_chance};
use vstd::prelude::*;

verus! {

/// Who can pick a fight with the player.
#[derive(Debug, Clone, Copy, PartialEq, Eq, Structural)]
pub enum Adversary {
    Cops,
    RivalDealers,
}

/// Health the adversary starts a fight with.
pub open spec fn strength_of(a: Adversary) -> int {
    match a {
        Adversary::Cops => 15,
        Adversary::RivalDealers => 10,
    }
}

/// How many of them there are; it scales their blows and the loot.
pub open spec fn count_of(a: Adversary) -> int {
    match a {
        Adversary::Cops => 2,
        Adversary::RivalDealers => 1,
    }
}

pub open spec fn label_of(a: Adversary) -> Seq<char> {
    match a {
        Adversary::Cops => "Cops"@,
        Adversary::RivalDealers => "Rival Dealers"@,
    }
}

pub open spec fn taunt_count(a: Adversary) -> nat {
    match a {
        Adversary::Cops => 20,
        Adversary::RivalDealers => 18,
    }
}

impl Adversary {
    /// Display name.
    pub fn label(&self) -> (r: &'static str)
        ensures
            r@ == label_of(*self),
    {
        match self {
            Adversary::Cops => "Cops",
            Adversary::RivalDealers => "Rival Dealers",
        }
    }

    /// Health at the start of a fight.
    pub fn strength(&self) -> (r: i64)
        ensures
            r == strength_of(*self),
    {
        match self {
            Adversary::Cops => 15,
            Adversary::RivalDealers => 10,
        }
    }

    /// Number of attackers.
    pub fn count(&self) -> (r: i64)
        ensures
            r == count_of(*self),
    {
        match self {
            Adversary::Cops => 2,
            Adversary::RivalDealers => 1,
        }
    }

    /// Lines that may be shown during a fight; they change nothing.
    pub fn taunts(&self) -> (r: Vec<&'static str>)
        ensures
            r@.len() == taunt_count(*self),
    {
        match self {
            Adversary::Cops => vec![
                "\t A deputy drops his donut and draws his gun, only to trip on the sidewalk and face-plant.",
                "\t A deputy drops his donut and draws his gun!",
                "\t A deputy gets his badge stuck in a tree: 'This is not how I envisioned my career.'",
                "\t A patrol car screeches to a halt: 'We have a situation... of epic proportions!'",
                "\t A police officer tries to intimidate the suspect by using a fake mustache, but ends up looking ridiculous instead.",
                "\t A rookie cop accidentally arrests a man who looks just like him, leading to an awkward exchange.",
                "\t An officer claims to have 'expertly' handcuffed the suspect, only for them to easily slip out of the cuffs.",
                "\t An officer gets stuck in the doorway of the suspect's car and has to be pulled out by two other officers.",
                "\t Officer Bob mistakes a bag of chips for a stash of drugs and starts searching it with a magnifying glass.",
                "\t Officer Hardass yells: 'Freeze, scumbag! But first, let me check my clipboard...'",
                "\t Officer Hardass yells: 'Freeze, scumbag!'",
                "\t Officer Johnson says: 'I've got you surrounded, suspect... on the other side of this building.'",
                "\t Officer Jones shouts: 'I'm not searching you, I'm just... um... admiring your vehicle!'",
                "\t Officer Smith barks into the mic: 'What's this? A warrant? No, no, no! I was just, uh, conducting research!'",
                "\t The police car gets stuck in the parking lot due to the officer's ineptitude at parallel parking.",
                "\t The police chief yells: 'Code 55: Code 55! That means we're out of donuts.'",
                "\t The police radio blares: 'Suspect is armed and fabulous! Can we also order a box of donuts?'",
                "\t The police radio blares: 'Suspect is armed and fabulous!'",
                "\t The police radio crackles: 'All units, we have a report of suspicious activity... like someone eating an entire pizza by themselves.'",
                "\t The police sirens are so loud that they shatter the suspect's sunglasses.",
            ],
            Adversary::RivalDealers => vec![
                "\t A rival yells: 'This is our block now!'",
                "\t Someone throws a bag of oregano at you!",
                "\t A dealer shouts: 'You call that product?'",
                "\t Looks like someone's supply ran out... of dignity!",
                "\t I see you're still peddling the same old trash, dude.",
                "\t You must have misspelled ' failure' on your storefront sign!",
                "\t I heard your product is so bad, it needs its own hazmat suit!",
                "\t Looks like you left the competition to me... and my amazing deals!",
                "\t Your operation looks like a 3rd-grader's art project gone wrong",
                "\t Is that a 'Closed' sign or just a prayer?",
                "\t I'm starting a betting pool on how long it takes for you to get shut down.",
                "\t You know what they say: 'you can't buy happiness, but I heard they're selling it cheap at your store'",
                "\t It looks like someone's trying out for the role of ' failed entrepreneur'... nice try!",
                "\t Your reputation is so shot, I think it's still in rehab",
                "\t Looks like you took the phrase 'on the rocks' too literally",
                "\t I heard your product is so old, it's been known to be used as bookends",
                "\t You must have hired a team of experts... at losing",
                "\t This block? I think it's still on rent. You're just squatting",
            ],
        }
    }
}

/// Health left after a blow of `damage`; it never goes below zero.
pub open spec fn wounded(health: int, damage: int) -> int {
    if health - damage < 0 { 0 } else { health - damage }
}

/// Applies a blow to a health value.
pub fn wound(health: i64, damage: i64) -> (r: i64)
    requires
        health >= 0,
        damage >= 0,
    ensures
        r == wounded(health as int, damage as int),
{
    if health - damage < 0 {
        0
    } else {
        health - damage
    }
}

/// A fight under way.
#[derive(Debug, Clone, Copy, PartialEq, Eq, Structural)]
pub struct Fight {
    pub adversary: Adversary,
    /// What remains of the adversary's health.
    pub enemy_health: i64,
    /// Number of the round about to be played, from one.
    pub round: i64,
    /// The player got away.
    pub escaped: bool,
}

pub open spec fn fight_over(f: Fight, p: Player) -> bool {
    f.escaped || f.enemy_health <= 0 || p.health <= 0
}

impl Fight {
    /// The fight has ended: the player got away, the adversary is beaten, or
    /// the player is.
    pub fn is_over(&self, player: &Player) -> (r: bool)
        ensures
            r == fight_over(*self, *player),
    {
        self.escaped || self.enemy_health <= 0 || player.health <= 0
    }
}

/// What the player does in a round.
#[derive(Debug, Clone, Copy, PartialEq, Eq, Structural)]
pub enum Choice {
    Fight,
    Flee,
    /// Anything else: the round passes.
    Hesitate,
}

/// How a confrontation opens.
#[derive(Debug, Clone, Copy, PartialEq, Eq, Structural)]
pub enum FightStart {
    /// Without a weapon the player runs at once; `damage` is what the escape
    /// cost (zero when unharmed). Nothing more happens.
    Fled { damage: i64 },
    /// The player stands and fights.
    Engaged(Fight),
}

/// What a round did.
#[derive(Debug, Clone, Copy, PartialEq, Eq, Structural)]
pub enum RoundResult {
    /// The player's attack beat the adversary; `loot` was added to the cash.
    Won { dealt: i64, loot: i64 },
    /// The player hit, and the adversary, still standing, hit back.
    Traded { dealt: i64, taken: i64 },
    /// The player got away.
    Escaped,
    /// The escape failed and cost `taken` health.
    Stumbled { taken: i64 },
    /// Nothing happened.
    Hesitated,
}

impl Game {
    /// Opens a confrontation. A player without weapons runs at once: with a
    /// chance of one in two unharmed, else losing 2 to 5 health. Otherwise the
    /// fight starts at round one against the adversary's full health.
    pub fn fight_event(&mut self, adversary: Adversary) -> (r: FightStart)
        requires
            old(self).wf(),
        ensures
            final(self).wf(),
            final(self).market == old(self).market,
            r is Fled <==> old(self).player.weapons == 0,
            r matches FightStart::Fled { damage } ==> {
                &&& damage == 0 || 2 <= damage <= 5
                &&& final(self).player == (Player {
                    health: wounded(old(self).player.health as int, damage as int) as i64,
                    ..old(self).player
                })
            },
            r matches FightStart::Engaged(f) ==> {
                &&& f == (Fight {
                    adversary,
                    enemy_health: strength_of(adversary) as i64,
                    round: 1,
                    escaped: false,
                })
                &&& final(self).player == old(self).player
            },
    {
        if self.player.weapons == 0 {
            if draw_chance(&mut self.rng, 1, 2) {
                let damage = draw_between(&mut self.rng, 2, 5);
                self.player.health = wound(self.player.health, damage);
                FightStart::Fled { damage }
            } else {
                FightStart::Fled { damage: 0 }
            }
        } else {
            FightStart::Engaged(
                Fight { adversary, enemy_health: adversary.strength(), round: 1, escaped: false },
            )
        }
    }

    /// With a chance of one in two, picks one of the adversary's lines to show
    /// at the start of a round.
    pub fn taunt(&mut self, fight: &Fight) -> (r: Option<&'static str>)
        ensures
            final(self).player == old(self).player,
            final(self).market == old(self).market,
    {
        if draw_chance(&mut self.rng, 1, 2) {
            let lines = fight.adversary.taunts();
            let pick = draw_between(&mut self.rng, 0, lines.len() as i64 - 1);
            Some(lines[pick as usize])
        } else {
            None
        }
    }

    /// Plays one round of a fight that is not over.
    ///
    /// Fighting deals 3 to 7 damage; if that beats the adversary the player
    /// loots 1,000 to 5,000 per attacker, else each attacker hits back for 1
    /// to 5. Fleeing works with a chance of one in two, and otherwise costs 2
    /// to 6 health. Hesitating does nothing. Unless the player won or got
    /// away, the round counter moves on.
    pub fn fight_round(&mut self, fight: &mut Fight, choice: Choice) -> (r: RoundResult)
        requires
            old(self).wf(),
            !fight_over(*old(fight), old(self).player),
            old(fight).round < i64::MAX,
            old(self).player.cash <= i64::MAX - 5000 * count_of(old(fight).adversary),
        ensures
            final(self).wf(),
            final(self).market == old(self).market,
            choice == Choice::Fight ==> r is Won || r is Traded,
            choice == Choice::Flee ==> r is Escaped || r is Stumbled,
            choice == Choice::Hesitate ==> r is Hesitated,
            r matches RoundResult::Won { dealt, loot } ==> {
                let n = count_of(old(fight).adversary);
                &&& 3 <= dealt <= 7
                &&& old(fight).enemy_health - dealt <= 0
                &&& *final(fight) == (Fight {
                    enemy_health: (old(fight).enemy_health - dealt) as i64,
                    ..*old(fight)
                })
                &&& 1000 * n <= loot <= 5000 * n
                &&& loot as int % n == 0
                &&& final(self).player == (Player {
                    cash: (old(self).player.cash + loot) as i64,
                    ..old(self).player
                })
            },
            r matches RoundResult::Traded { dealt, taken } ==> {
                let n = count_of(old(fight).adversary);
                &&& 3 <= dealt <= 7
                &&& old(fight).enemy_health - dealt > 0
                &&& *final(fight) == (Fight {
                    enemy_health: (old(fight).enemy_health - dealt) as i64,
                    round: (old(fight).round + 1) as i64,
                    ..*old(fight)
                })
                &&& n <= taken <= 5 * n
                &&& taken as int % n == 0
                &&& final(self).player == (Player {
                    health: wounded(old(self).player.health as int, taken as int) as i64,
                    ..old(self).player
                })
            },
            r is Escaped ==> {
                &&& *final(fight) == (Fight { escaped: true, ..*old(fight) })
                &&& final(self).player == old(self).player
            },
            r matches RoundResult::Stumbled { taken } ==> {
                &&& 2 <= taken <= 6
                &&& *final(fight) == (Fight { round: (old(fight).round + 1) as i64, ..*old(fight) })
                &&& final(self).player == (Player {
                    health: wounded(old(self).player.health as int, taken as int) as i64,
                    ..old(self).player
                })
            },
            r is Hesitated ==> {
                &&& *final(fight) == (Fight { round: (old(fight).round + 1) as i64, ..*old(fight) })
                &&& final(self).player == old(self).player
            },
    {
        let n = fight.adversary.count();
        match choice {
            Choice::Fight => {
                let dealt = draw_between(&mut self.rng, 3, 7);
                fight.enemy_health = fight.enemy_health - dealt;
                if fight.enemy_health <= 0 {
                    let loot = draw_between(&mut self.rng, 1000, 5000) * n;
                    self.player.cash = self.player.cash + loot;
                    RoundResult::Won { dealt, loot }
                } else {
                    let taken = draw_between(&mut self.rng, 1, 5) * n;
                    self.player.health = wound(self.player.health, taken);
                    fight.round = fight.round + 1;
                    RoundResult::Traded { dealt, taken }
                }
            },
            Choice::Flee => {
                if draw_chance(&mut self.rng, 1, 2) {
                    fight.escaped = true;
                    RoundResult::Escaped
                } else {
                    let taken = draw_between(&mut self.rng, 2, 6);
                    self.player.health = wound(self.player.health, taken);
                    fight.round = fight.round + 1;
                    RoundResult::Stumbled { taken }
                }
            },
            Choice::Hesitate => {
                fight.round = fight.round + 1;
                RoundResult::Hesitated
            },
        }
    }
}

} // verus!
