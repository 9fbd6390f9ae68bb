use vstd::prelude::*;

verus! {

/// What a creature is doing.
#[derive(Clone, Copy, Debug, PartialEq, Eq, Structural)]
pub enum CreatureState {
    Awake,
    Asleep,
    Dead,
    Eating,
}

/// The threshold readings taken after a tick's physiology has advanced.
#[derive(Clone, Copy, Debug, PartialEq, Eq, Structural)]
pub struct TickSignals {
    /// Energy or health has fallen below zero.
    pub depleted: bool,
    /// Sleepiness is above its maximum.
    pub overtired: bool,
    /// Hunger is below one.
    pub fed: bool,
}

/// The state after one tick. Death comes first and is final; otherwise an
/// overtired creature falls asleep, whatever it was doing; otherwise an
/// eating creature that is fed wakes up; otherwise nothing changes.
pub open spec fn next_state(state: CreatureState, s: TickSignals) -> CreatureState {
    if state == CreatureState::Dead || s.depleted {
        CreatureState::Dead
    } else if s.overtired {
        CreatureState::Asleep
    } else if state == CreatureState::Eating && s.fed {
        CreatureState::Awake
    } else {
        state
    }
}

/// The state after a run of ticks, the first tick first.
pub open spec fn run_ticks(state: CreatureState, ticks: Seq<TickSignals>) -> CreatureState
    decreases ticks.len(),
{
    if ticks.len() == 0 {
        state
    } else {
        run_ticks(next_state(state, ticks[0]), ticks.drop_first())
    }
}

impl CreatureState {
    /// The state after a tick with the given readings.
    pub fn next(self, s: TickSignals) -> (r: CreatureState)
        ensures
            r == next_state(self, s),
    {
        match self {
            CreatureState::Dead => CreatureState::Dead,
            _ => {
                if s.depleted {
                    CreatureState::Dead
                } else if s.overtired {
                    CreatureState::Asleep
                } else if s.fed && matches!(self, CreatureState::Eating) {
                    CreatureState::Awake
                } else {
                    self
                }
            },
        }
    }

    /// Whether the creature recovers sleepiness during the tick that ended
    /// in this state.
    pub fn is_recovering(&self) -> (r: bool)
        ensures
            r <==> *self == CreatureState::Asleep,
    {
        matches!(self, CreatureState::Asleep)
    }

    pub fn is_dead(&self) -> (r: bool)
        ensures
            r <==> *self == CreatureState::Dead,
    {
        matches!(self, CreatureState::Dead)
    }
}

/// A dead creature stays dead, whatever the readings of later ticks.
pub proof fn lemma_dead_is_final(ticks: Seq<TickSignals>)
    ensures
        run_ticks(CreatureState::Dead, ticks) == CreatureState::Dead,
    decreases ticks.len(),
{
    if ticks.len() > 0 {
        lemma_dead_is_final(ticks.drop_first());
    }
}

/// A creature whose readings show depletion on some tick is dead after that
/// tick and after every later one, from any starting state.
pub proof fn lemma_depletion_kills(state: CreatureState, ticks: Seq<TickSignals>, k: int)
    requires
        0 <= k < ticks.len(),
        ticks[k].depleted,
    ensures
        forall|j: int| k < j <= ticks.len() ==> #[trigger] run_ticks(state, ticks.take(j)) == CreatureState::Dead,
    decreases ticks.len(),
{
    assert forall|j: int| k < j <= ticks.len() implies #[trigger] run_ticks(state, ticks.take(j))
        == CreatureState::Dead by {
        let pre = ticks.take(j);
        assert(pre[0] == ticks[0]);
        assert(pre.drop_first() =~= ticks.drop_first().take(j - 1));
        assert(run_ticks(state, pre) == run_ticks(next_state(state, ticks[0]), ticks.drop_first().take(j - 1)));
        if k == 0 {
            lemma_dead_is_final(ticks.drop_first().take(j - 1));
        } else {
            lemma_depletion_kills(next_state(state, ticks[0]), ticks.drop_first(), k - 1);
            assert(run_ticks(next_state(state, ticks[0]), ticks.drop_first().take(j - 1)) == CreatureState::Dead);
        }
    }
}

} // verus!
