use vstd::prelude::*;

use crate::task::TaskType;

verus! {

/// A full need, in hundredths of a point.
pub const FULL: i64 = 10000;

/// What each need loses per tick, in hundredths of a point.
pub const DECAY: i64 = 5;

/// What a beneficial tile restores per visit, in hundredths of a point.
pub const BENEFIT: i64 = 100;

/// Satiety, hydration and vitality, as mathematical integers.
pub type Levels = (int, int, int);

pub open spec fn min_of(a: int, b: int) -> int {
    if a <= b { a } else { b }
}

/// One tick of decay: every need drops by `DECAY`; if any of them is then
/// negative, vitality is forced to zero.
pub open spec fn decayed(v: Levels) -> Levels {
    let s = v.0 - DECAY;
    let t = v.1 - DECAY;
    let h = v.2 - DECAY;
    if s < 0 || t < 0 || h < 0 { (s, t, 0) } else { (s, t, h) }
}

/// Every need capped at `FULL`; nothing is raised.
pub open spec fn capped(v: Levels) -> Levels {
    (min_of(v.0, FULL as int), min_of(v.1, FULL as int), min_of(v.2, FULL as int))
}

/// The mean of the three needs, rounded down.
pub open spec fn average_of(v: Levels) -> int {
    (v.0 + v.1 + v.2) / 3
}

pub open spec fn lowest_of(v: Levels) -> int {
    min_of(v.0, min_of(v.1, v.2))
}

/// The need to see to first: satiety against hydration decides between
/// eating and drinking, and either loses to vitality unless strictly lower.
pub open spec fn most_depleted(v: Levels) -> TaskType {
    if v.0 < v.1 {
        if v.0 < v.2 { TaskType::Eat } else { TaskType::Regenerate }
    } else {
        if v.1 < v.2 { TaskType::Drink } else { TaskType::Regenerate }
    }
}

/// An agent's three needs, in hundredths of a point: satiety, hydration, vitality.
#[derive(Copy, Clone, Debug, PartialEq, Eq, Structural)]
pub struct AgentData {
    pub saturation: i64,
    pub thirst: i64,
    pub health: i64,
}

impl AgentData {
    pub open spec fn levels(self) -> Levels {
        (self.saturation as int, self.thirst as int, self.health as int)
    }

    /// Every need is at most `FULL`.
    pub open spec fn capped_at_full(self) -> bool {
        self.saturation <= FULL && self.thirst <= FULL && self.health <= FULL
    }

    /// One more tick of decay cannot leave the range of `i64`.
    pub open spec fn can_decay(self) -> bool {
        self.saturation >= i64::MIN + DECAY && self.thirst >= i64::MIN + DECAY
            && self.health >= i64::MIN + DECAY
    }

    /// The mean of the three needs, rounded down.
    pub fn average(&self) -> (r: i64)
        ensures
            r == average_of(self.levels()),
    {
        let sum: i128 = self.saturation as i128 + self.thirst as i128 + self.health as i128;
        if sum >= 0 {
            proof {
                vstd::arithmetic::div_mod::lemma_fundamental_div_mod(sum as int, 3);
            }
            (sum / 3) as i64
        } else {
            let n: i128 = -sum;
            let q: i128 = (n + 2) / 3;
            proof {
                vstd::arithmetic::div_mod::lemma_fundamental_div_mod((n + 2) as int, 3);
                vstd::arithmetic::div_mod::lemma_fundamental_div_mod_converse(
                    sum as int,
                    3,
                    -q as int,
                    sum + q * 3,
                );
            }
            (-q) as i64
        }
    }

    /// Lets every need decay by one tick.
    pub fn tick(&mut self)
        requires
            old(self).can_decay(),
        ensures
            final(self).levels() == decayed(old(self).levels()),
    {
        self.saturation = self.saturation - DECAY;
        self.thirst = self.thirst - DECAY;
        self.health = self.health - DECAY;
        if self.saturation < 0 || self.thirst < 0 || self.health < 0 {
            self.health = 0;
        }
    }

    /// Caps every need at `FULL`.
    pub fn normalize(&mut self)
        ensures
            final(self).levels() == capped(old(self).levels()),
            final(self).capped_at_full(),
    {
        if self.saturation > FULL {
            self.saturation = FULL;
        }
        if self.thirst > FULL {
            self.thirst = FULL;
        }
        if self.health > FULL {
            self.health = FULL;
        }
    }

    /// The lowest of the three needs.
    pub fn lowest(&self) -> (r: i64)
        ensures
            r == lowest_of(self.levels()),
    {
        let inner = if self.thirst <= self.health { self.thirst } else { self.health };
        if self.saturation <= inner { self.saturation } else { inner }
    }

    /// The kind of task that serves the most depleted need.
    pub fn get_lowest_value_task(&self) -> (r: TaskType)
        ensures
            r == most_depleted(self.levels()),
    {
        if self.saturation < self.thirst {
            if self.saturation < self.health {
                TaskType::Eat
            } else {
                TaskType::Regenerate
            }
        } else {
            if self.thirst < self.health {
                TaskType::Drink
            } else {
                TaskType::Regenerate
            }
        }
    }
}

impl Default for AgentData {
    /// Every need full.
    fn default() -> (r: AgentData)
        ensures
            r.saturation == FULL && r.thirst == FULL && r.health == FULL,
    {
        AgentData { saturation: FULL, thirst: FULL, health: FULL }
    }
}

/// `n` ticks of decay, with nothing restored in between.
pub open spec fn decayed_times(v: Levels, n: nat) -> Levels
    decreases n,
{
    if n == 0 {
        v
    } else {
        decayed(decayed_times(v, (n - 1) as nat))
    }
}

/// After a tick and a normalization, no need is above `FULL`.
pub proof fn lemma_tick_normalize_capped(v: Levels)
    ensures
        capped(decayed(v)).0 <= FULL,
        capped(decayed(v)).1 <= FULL,
        capped(decayed(v)).2 <= FULL,
{
}

proof fn lemma_full_decay_shape(n: nat)
    ensures
        decayed_times((FULL as int, FULL as int, FULL as int), n) == (if DECAY * n <= FULL {
            (FULL - DECAY * n, FULL - DECAY * n, FULL - DECAY * n)
        } else {
            (FULL - DECAY * n, FULL - DECAY * n, 0)
        }),
    decreases n,
{
    if n > 0 {
        lemma_full_decay_shape((n - 1) as nat);
    }
}

/// Starting from full needs and ticking with nothing restored, the average
/// strictly falls at every tick, and once satiety or hydration has fallen
/// below zero, vitality is zero.
pub proof fn lemma_full_needs_run_down(n: nat)
    ensures
        average_of(decayed_times((FULL as int, FULL as int, FULL as int), n + 1)) < average_of(
            decayed_times((FULL as int, FULL as int, FULL as int), n),
        ),
        decayed_times((FULL as int, FULL as int, FULL as int), n).0 < 0 || decayed_times(
            (FULL as int, FULL as int, FULL as int),
            n,
        ).1 < 0 ==> decayed_times((FULL as int, FULL as int, FULL as int), n).2 == 0,
{
    lemma_full_decay_shape(n);
    lemma_full_decay_shape(n + 1);
}

/// With three distinct needs, the most depleted one is the strictly lowest:
/// exactly one of eating, drinking and regenerating is chosen.
pub proof fn lemma_most_depleted_distinct(v: Levels)
    requires
        v.0 != v.1,
        v.1 != v.2,
        v.0 != v.2,
    ensures
        most_depleted(v) == TaskType::Eat <==> v.0 < v.1 && v.0 < v.2,
        most_depleted(v) == TaskType::Drink <==> v.1 < v.0 && v.1 < v.2,
        most_depleted(v) == TaskType::Regenerate <==> v.2 < v.0 && v.2 < v.1,
        most_depleted(v) == TaskType::Eat || most_depleted(v) == TaskType::Drink
            || most_depleted(v) == TaskType::Regenerate,
{
}

} // verus!
