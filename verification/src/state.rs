//! Page states, and the relay that turns a stream of them into the one
//! outcome that page construction waits for.

use vstd::prelude::*;

verus! {

/// A state that the engine reports for a page. Only two of them end the wait
/// for the first load; every other state is `Other`.
#[derive(Debug, Clone, Copy, PartialEq, Eq, Structural)]
pub enum PageState {
    /// The page has loaded.
    Load,
    /// The page failed to load.
    LoadError,
    /// Any state that says nothing about the outcome of the load.
    Other,
}

impl PageState {
    /// What a state settles: `Some(true)` for a load, `Some(false)` for a
    /// failed load, `None` for a state that settles nothing.
    pub open spec fn verdict(self) -> Option<bool> {
        match self {
            PageState::Load => Some(true),
            PageState::LoadError => Some(false),
            PageState::Other => None,
        }
    }

    #[verifier::when_used_as_spec(verdict)]
    pub fn outcome(self) -> (r: Option<bool>)
        ensures
            r == self.verdict(),
    {
        match self {
            PageState::Load => Some(true),
            PageState::LoadError => Some(false),
            PageState::Other => None,
        }
    }
}

/// The verdict of the first state in `states` that has one.
pub open spec fn first_terminal(states: Seq<PageState>) -> Option<bool>
    decreases states.len(),
{
    if states.len() == 0 {
        None
    } else if states[0].verdict() is Some {
        states[0].verdict()
    } else {
        first_terminal(states.drop_first())
    }
}

/// What a relay sends when it reads `state`: the verdict of the state, if
/// the relay still holds its one-shot sender, and nothing otherwise.
pub open spec fn sends(pending: bool, state: PageState) -> Option<bool> {
    if pending {
        state.verdict()
    } else {
        None
    }
}

/// Whether a relay still holds its one-shot sender after it has read `state`.
pub open spec fn stays_pending(pending: bool, state: PageState) -> bool {
    pending && state.verdict() is None
}

/// Everything a relay sends while it reads `states`, in order, given whether
/// it holds its one-shot sender at the start.
pub open spec fn relayed(pending: bool, states: Seq<PageState>) -> Seq<bool>
    decreases states.len(),
{
    if states.len() == 0 {
        Seq::empty()
    } else {
        let rest = relayed(stays_pending(pending, states[0]), states.drop_first());
        match sends(pending, states[0]) {
            Some(loaded) => seq![loaded] + rest,
            None => rest,
        }
    }
}

/// The relay between a page's state events and the constructor that waits for
/// the first load to end. It holds a one-shot sender until it has used it.
pub struct Relay {
    pending: bool,
}

impl Relay {
    /// Whether the one-shot sender is still unused.
    pub closed spec fn pending(&self) -> bool {
        self.pending
    }

    /// A relay that has sent nothing yet.
    pub fn new() -> (relay: Relay)
        ensures
            relay.pending(),
    {
        Relay { pending: true }
    }

    #[verifier::when_used_as_spec(pending)]
    pub fn is_pending(&self) -> (pending: bool)
        ensures
            pending == self.pending(),
    {
        self.pending
    }

    /// Takes one state event and says what to send to the waiting
    /// constructor, if anything: the verdict of the state, the first time a
    /// state has one, and nothing ever after.
    pub fn on_state(&mut self, state: PageState) -> (sent: Option<bool>)
        ensures
            sent == sends(old(self).pending(), state),
            final(self).pending() == stays_pending(old(self).pending(), state),
    {
        if !self.pending {
            return None;
        }
        let verdict = state.outcome();
        if verdict.is_some() {
            self.pending = false;
        }
        verdict
    }
}

/// A relay that has used its sender sends nothing more, whatever it reads.
pub proof fn lemma_relay_spent(states: Seq<PageState>)
    ensures
        relayed(false, states) == Seq::<bool>::empty(),
    decreases states.len(),
{
    if states.len() > 0 {
        lemma_relay_spent(states.drop_first());
    }
}

/// Over any stream of states a fresh relay sends at most once, and what it
/// sends is the verdict of the first state that has one.
pub proof fn lemma_relay_sends_first_terminal(states: Seq<PageState>)
    ensures
        relayed(true, states) == match first_terminal(states) {
            Some(loaded) => seq![loaded],
            None => Seq::<bool>::empty(),
        },
    decreases states.len(),
{
    if states.len() > 0 {
        if states[0].verdict() is Some {
            lemma_relay_spent(states.drop_first());
        } else {
            lemma_relay_sends_first_terminal(states.drop_first());
        }
    }
}

/// States without a verdict that come before a stream change nothing about
/// its first verdict.
pub proof fn lemma_leading_states_ignored(before: Seq<PageState>, rest: Seq<PageState>)
    requires
        forall|i: int| 0 <= i < before.len() ==> (#[trigger] before[i]).verdict() is None,
    ensures
        first_terminal(before + rest) == first_terminal(rest),
    decreases before.len(),
{
    if before.len() == 0 {
        assert(before + rest =~= rest);
    } else {
        assert((before + rest).drop_first() =~= before.drop_first() + rest);
        lemma_leading_states_ignored(before.drop_first(), rest);
    }
}

/// The state at `i` is the first in `states` that has a verdict.
pub open spec fn first_verdict_at(states: Seq<PageState>, i: int) -> bool {
    &&& 0 <= i < states.len()
    &&& states[i].verdict() is Some
    &&& forall|j: int| 0 <= j < i ==> (#[trigger] states[j]).verdict() is None
}

/// There is no first verdict exactly when no state has one; where there is
/// one, it belongs to the first state that has a verdict.
pub proof fn lemma_first_terminal_position(states: Seq<PageState>)
    ensures
        first_terminal(states) is None <==> forall|i: int|
            0 <= i < states.len() ==> (#[trigger] states[i]).verdict() is None,
        first_terminal(states) is Some ==> exists|i: int| #[trigger]
            first_verdict_at(states, i) && states[i].verdict() == first_terminal(states),
    decreases states.len(),
{
    if states.len() > 0 {
        let tail = states.drop_first();
        lemma_first_terminal_position(tail);
        if states[0].verdict() is Some {
            assert(first_verdict_at(states, 0));
        } else if first_terminal(tail) is Some {
            let k = choose|i: int| #[trigger]
                first_verdict_at(tail, i) && tail[i].verdict() == first_terminal(tail);
            assert(states[k + 1] == tail[k]);
            assert forall|j: int| 0 <= j < k + 1 implies (#[trigger] states[j]).verdict()
                is None by {
                if j > 0 {
                    assert(states[j] == tail[j - 1]);
                }
            }
            assert(first_verdict_at(states, k + 1));
        } else {
            assert forall|i: int| 0 <= i < states.len() implies (#[trigger] states[i]).verdict()
                is None by {
                if i > 0 {
                    assert(states[i] == tail[i - 1]);
                }
            }
        }
    }
}

/// The first state that has a verdict gives the first verdict.
pub proof fn lemma_first_terminal_at(states: Seq<PageState>, i: int)
    requires
        first_verdict_at(states, i),
    ensures
        first_terminal(states) == states[i].verdict(),
    decreases i,
{
    if i > 0 {
        let tail = states.drop_first();
        assert(states[0].verdict() is None);
        assert(tail[i - 1] == states[i]);
        assert forall|j: int| 0 <= j < i - 1 implies (#[trigger] tail[j]).verdict() is None by {
            assert(tail[j] == states[j + 1]);
        }
        lemma_first_terminal_at(tail, i - 1);
    }
}

/// Runs a fresh relay over a whole stream of states, up to the point where
/// the stream closes, and returns what the waiting constructor receives:
/// the first verdict, or `None` where the stream closed before any.
pub fn first_outcome(states: &[PageState]) -> (outcome: Option<bool>)
    ensures
        outcome == first_terminal(states@),
        relayed(true, states@) == match outcome {
            Some(loaded) => seq![loaded],
            None => Seq::<bool>::empty(),
        },
{
    proof {
        lemma_relay_sends_first_terminal(states@);
    }
    let mut relay = Relay::new();
    let mut outcome: Option<bool> = None;
    let mut i: usize = 0;
    assert(states@.skip(0) =~= states@);
    while i < states.len()
        invariant
            0 <= i <= states.len(),
            relay.pending() == (outcome is None),
            first_terminal(states@) == if outcome is Some {
                outcome
            } else {
                first_terminal(states@.skip(i as int))
            },
        decreases states.len() - i,
    {
        let ghost rest = states@.skip(i as int);
        assert(rest.len() > 0 && rest[0] == states@[i as int]);
        assert(rest.drop_first() =~= states@.skip(i + 1));
        let sent = relay.on_state(states[i]);
        if sent.is_some() {
            outcome = sent;
        }
        i += 1;
    }
    outcome
}

} // verus!
