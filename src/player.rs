use crate::goods::{City, Drug, drug_index, DRUG_COUNT};
use vstd::prelude::*;

verus! {

/// Cash the player starts with.
pub const START_CASH: i64 = 2000;
/// Units the starting trench coat holds.
pub const START_SPACE: i64 = 100;
/// Weapons the player starts with.
pub const START_WEAPONS: i64 = 30;
/// What the loan shark lends at the start.
pub const LOAN_AMOUNT: i64 = 5000;
/// Full health.
pub const MAX_HEALTH: i64 = 10;
/// Space that a larger trench coat adds.
pub const COAT_SPACE: i64 = 50;

/// Why a transaction was turned down. A rejected transaction changes nothing.
#[derive(Debug, Clone, Copy, PartialEq, Eq, Structural)]
pub enum TradeError {
    /// A quantity or amount outside what the action takes (negative, or zero where a unit is needed).
    InvalidInput,
    /// The player cannot pay for it.
    InsufficientFunds,
    /// The player does not hold that many units.
    InsufficientStock,
    /// More than the computed maximum: units to buy, or a repayment above the debt.
    OverLimit,
    /// A repayment while nothing is owed.
    NoDebtOwed,
}

/// An item of the black market.
#[derive(Debug, Clone, Copy, PartialEq, Eq, Structural)]
pub enum Upgrade {
    /// A larger trench coat: more carrying space.
    Coat,
    /// One more weapon.
    Weapon,
}

/// `n` zero quantities.
pub open spec fn zeros(n: nat) -> Seq<i64> {
    Seq::new(n, |_i: int| 0i64)
}

/// Sum of a sequence of quantities.
pub open spec fn total(s: Seq<i64>) -> int
    decreases s.len(),
{
    if s.len() == 0 {
        0
    } else {
        total(s.drop_last()) + s.last()
    }
}

/// Changing one entry changes the sum by the difference.
pub proof fn lemma_total_update(s: Seq<i64>, i: int, v: i64)
    requires
        0 <= i < s.len(),
    ensures
        total(s.update(i, v)) == total(s) - s[i] + v,
    decreases s.len(),
{
    let t = s.update(i, v);
    if i == s.len() - 1 {
        assert(t.drop_last() =~= s.drop_last());
    } else {
        lemma_total_update(s.drop_last(), i, v);
        assert(t.drop_last() =~= s.drop_last().update(i, v));
    }
}

/// A sum of non-negative entries is at least each entry.
pub proof fn lemma_total_bounds(s: Seq<i64>, i: int)
    requires
        0 <= i < s.len(),
        forall|j: int| 0 <= j < s.len() ==> s[j] >= 0,
    ensures
        s[i] <= total(s),
        total(s) >= 0,
    decreases s.len(),
{
    lemma_total_nonneg(s.drop_last());
    if i < s.len() - 1 {
        lemma_total_bounds(s.drop_last(), i);
    }
}

pub proof fn lemma_total_nonneg(s: Seq<i64>)
    requires
        forall|j: int| 0 <= j < s.len() ==> s[j] >= 0,
    ensures
        total(s) >= 0,
    decreases s.len(),
{
    if s.len() > 0 {
        lemma_total_nonneg(s.drop_last());
    }
}

/// The player's state.
#[derive(Debug, Clone, PartialEq, Eq)]
pub struct Player {
    pub cash: i64,
    pub debt: i64,
    pub health: i64,
    /// Most units of all commodities together that the player can carry.
    pub trenchcoat_space: i64,
    /// Units held of each commodity, in `Drug::all()` order.
    pub inventory: Vec<i64>,
    pub weapons: i64,
    pub day: i64,
    pub city: City,
}

impl Player {
    /// Holdings cover every commodity, are never negative and never exceed
    /// the carrying space; health stays within its bounds; cash, debt and
    /// weapons are never negative.
    pub open spec fn wf(&self) -> bool {
        &&& self.inventory@.len() == DRUG_COUNT
        &&& forall|i: int| 0 <= i < DRUG_COUNT ==> #[trigger] self.inventory@[i] >= 0
        &&& total(self.inventory@) <= self.trenchcoat_space
        &&& 0 <= self.health <= MAX_HEALTH
        &&& self.cash >= 0
        &&& self.debt >= 0
        &&& self.weapons >= 0
        &&& self.day >= 1
    }

    pub open spec fn held(&self, d: Drug) -> int {
        self.inventory@[drug_index(d)] as int
    }

    /// A new player in Manhattan on day one, with the starting cash, loan,
    /// space, weapons, full health and nothing held.
    pub fn new() -> (r: Player)
        ensures
            r.wf(),
            r.cash == START_CASH,
            r.debt == LOAN_AMOUNT,
            r.health == MAX_HEALTH,
            r.trenchcoat_space == START_SPACE,
            r.inventory@ == zeros(6),
            r.weapons == START_WEAPONS,
            r.day == 1,
            r.city == City::Manhattan,
    {
        let mut inventory: Vec<i64> = Vec::new();
        let mut i: usize = 0;
        while i < DRUG_COUNT
            invariant
                i <= DRUG_COUNT,
                inventory@ == zeros(i as nat),
            decreases DRUG_COUNT - i,
        {
            inventory.push(0);
            i += 1;
            assert(inventory@ =~= zeros(i as nat));
        }
        proof {
            lemma_total_zero(6);
        }
        Player {
            cash: START_CASH,
            debt: LOAN_AMOUNT,
            health: MAX_HEALTH,
            trenchcoat_space: START_SPACE,
            inventory,
            weapons: START_WEAPONS,
            day: 1,
            city: City::Manhattan,
        }
    }

    /// Pays `amount` off the debt from cash. Zero is accepted and changes
    /// nothing; a negative amount, one above the cash, or one above the debt
    /// is rejected.
    pub fn repay(&mut self, amount: i64) -> (r: Result<(), TradeError>)
        requires
            old(self).wf(),
        ensures
            final(self).wf(),
            amount < 0 ==> r == Err::<(), TradeError>(TradeError::InvalidInput),
            0 <= amount && amount > old(self).cash ==> r == Err::<(), TradeError>(
                TradeError::InsufficientFunds,
            ),
            0 <= amount <= old(self).cash && amount > old(self).debt && old(self).debt == 0
                ==> r == Err::<(), TradeError>(TradeError::NoDebtOwed),
            0 <= amount <= old(self).cash && amount > old(self).debt && old(self).debt > 0
                ==> r == Err::<(), TradeError>(TradeError::OverLimit),
            0 <= amount <= old(self).cash && amount <= old(self).debt ==> r is Ok,
            r is Err ==> *final(self) == *old(self),
            r is Ok ==> *final(self) == (Player {
                cash: (old(self).cash - amount) as i64,
                debt: (old(self).debt - amount) as i64,
                ..*old(self)
            }),
    {
        if amount < 0 {
            Err(TradeError::InvalidInput)
        } else if amount == 0 {
            Ok(())
        } else if amount > self.cash {
            Err(TradeError::InsufficientFunds)
        } else if amount > self.debt {
            if self.debt == 0 {
                Err(TradeError::NoDebtOwed)
            } else {
                Err(TradeError::OverLimit)
            }
        } else {
            self.cash = self.cash - amount;
            self.debt = self.debt - amount;
            Ok(())
        }
    }

    /// Buys a black-market item at `price`, if the cash covers it.
    pub fn purchase(&mut self, item: Upgrade, price: i64) -> (r: Result<(), TradeError>)
        requires
            old(self).wf(),
            price >= 0,
            item == Upgrade::Coat ==> old(self).trenchcoat_space <= i64::MAX - COAT_SPACE,
            item == Upgrade::Weapon ==> old(self).weapons < i64::MAX,
        ensures
            final(self).wf(),
            r is Err <==> old(self).cash < price,
            r is Err ==> r == Err::<(), TradeError>(TradeError::InsufficientFunds)
                && *final(self) == *old(self),
            r is Ok && item == Upgrade::Coat ==> *final(self) == (Player {
                cash: (old(self).cash - price) as i64,
                trenchcoat_space: (old(self).trenchcoat_space + COAT_SPACE) as i64,
                ..*old(self)
            }),
            r is Ok && item == Upgrade::Weapon ==> *final(self) == (Player {
                cash: (old(self).cash - price) as i64,
                weapons: (old(self).weapons + 1) as i64,
                ..*old(self)
            }),
    {
        if self.cash < price {
            return Err(TradeError::InsufficientFunds);
        }
        self.cash = self.cash - price;
        match item {
            Upgrade::Coat => {
                self.trenchcoat_space = self.trenchcoat_space + COAT_SPACE;
            },
            Upgrade::Weapon => {
                self.weapons = self.weapons + 1;
            },
        }
        Ok(())
    }

    /// Units held of all commodities together.
    pub fn total_drugs(&self) -> (r: i64)
        requires
            self.wf(),
        ensures
            r == total(self.inventory@),
    {
        let mut sum: i64 = 0;
        let mut i: usize = 0;
        while i < self.inventory.len()
            invariant
                self.wf(),
                i <= self.inventory@.len(),
                sum == total(self.inventory@.take(i as int)),
            decreases self.inventory@.len() - i,
        {
            proof {
                assert(self.inventory@.take(i + 1).drop_last() =~= self.inventory@.take(i as int));
                lemma_total_prefix(self.inventory@, i + 1);
            }
            sum = sum + self.inventory[i];
            i += 1;
        }
        assert(self.inventory@.take(i as int) =~= self.inventory@);
        sum
    }
}

proof fn lemma_total_zero(n: nat)
    ensures
        total(zeros(n)) == 0,
    decreases n,
{
    if n > 0 {
        assert(zeros(n).drop_last() =~= zeros((n - 1) as nat));
        lemma_total_zero((n - 1) as nat);
    }
}

/// A prefix of non-negative entries sums to no more than the whole.
proof fn lemma_total_prefix(s: Seq<i64>, k: int)
    requires
        0 <= k <= s.len(),
        forall|j: int| 0 <= j < s.len() ==> s[j] >= 0,
    ensures
        0 <= total(s.take(k)) <= total(s),
    decreases s.len() - k,
{
    if k == s.len() {
        assert(s.take(k) =~= s);
        lemma_total_nonneg(s);
    } else {
        lemma_total_prefix(s, k + 1);
        assert(s.take(k + 1).drop_last() =~= s.take(k));
        lemma_total_nonneg(s.take(k));
    }
}

} // verus!
