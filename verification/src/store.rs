use vstd::prelude::*;

verus! {

/// A state-transition request: the only two commands the store accepts.
/// It carries no payload and no identity.
#[derive(Clone, Copy, Debug, PartialEq, Eq, Structural)]
pub enum Action {
    Increment,
    Decrement,
}

/// The effect of one action on a counter value, over unbounded integers.
pub open spec fn apply_action(value: int, action: Action) -> int {
    match action {
        Action::Increment => value + 1,
        Action::Decrement => value - 1,
    }
}

/// The effect of a sequence of actions, applied left to right.
pub open spec fn apply_actions(value: int, actions: Seq<Action>) -> int
    decreases actions.len(),
{
    if actions.len() == 0 {
        value
    } else {
        apply_actions(apply_action(value, actions[0]), actions.skip(1))
    }
}

/// How many increments a sequence of actions holds.
pub open spec fn num_increments(actions: Seq<Action>) -> int
    decreases actions.len(),
{
    if actions.len() == 0 {
        0
    } else {
        (if actions[0] is Increment {
            1int
        } else {
            0int
        }) + num_increments(actions.skip(1))
    }
}

/// How many decrements a sequence of actions holds.
pub open spec fn num_decrements(actions: Seq<Action>) -> int
    decreases actions.len(),
{
    if actions.len() == 0 {
        0
    } else {
        (if actions[0] is Decrement {
            1int
        } else {
            0int
        }) + num_decrements(actions.skip(1))
    }
}

/// The sequence that repeats one action `n` times.
pub open spec fn repeated(action: Action, n: nat) -> Seq<Action> {
    Seq::new(n, |i: int| action)
}

/// Applying a sequence of actions adds one per increment and subtracts one
/// per decrement: the outcome depends only on how many of each the sequence
/// holds, never on their order, so no interleaving of dispatches can lose an
/// update.
pub proof fn lemma_apply_actions_counts(value: int, actions: Seq<Action>)
    ensures
        apply_actions(value, actions) == value + num_increments(actions) - num_decrements(actions),
    decreases actions.len(),
{
    if actions.len() > 0 {
        lemma_apply_actions_counts(apply_action(value, actions[0]), actions.skip(1));
    }
}

proof fn lemma_counts_of_concat(s1: Seq<Action>, s2: Seq<Action>)
    ensures
        num_increments(s1 + s2) == num_increments(s1) + num_increments(s2),
        num_decrements(s1 + s2) == num_decrements(s1) + num_decrements(s2),
    decreases s1.len(),
{
    if s1.len() == 0 {
        assert(s1 + s2 =~= s2);
    } else {
        assert((s1 + s2).skip(1) =~= s1.skip(1) + s2);
        lemma_counts_of_concat(s1.skip(1), s2);
    }
}

proof fn lemma_counts_of_repeated(action: Action, n: nat)
    ensures
        num_increments(repeated(action, n)) == if action is Increment {
            n as int
        } else {
            0
        },
        num_decrements(repeated(action, n)) == if action is Decrement {
            n as int
        } else {
            0
        },
    decreases n,
{
    if n > 0 {
        assert(repeated(action, n).skip(1) =~= repeated(action, (n - 1) as nat));
        lemma_counts_of_repeated(action, (n - 1) as nat);
    }
}

/// `n` increments followed by `m` decrements, applied to a fresh counter,
/// leave it at exactly `n - m`.
pub proof fn lemma_increments_then_decrements(n: nat, m: nat)
    ensures
        apply_actions(0, repeated(Action::Increment, n) + repeated(Action::Decrement, m)) == n
            - m,
{
    let s = repeated(Action::Increment, n) + repeated(Action::Decrement, m);
    lemma_apply_actions_counts(0, s);
    lemma_counts_of_concat(repeated(Action::Increment, n), repeated(Action::Decrement, m));
    lemma_counts_of_repeated(Action::Increment, n);
    lemma_counts_of_repeated(Action::Decrement, m);
}

/// Owns the counter: the single piece of state in the system, created once
/// at startup with value zero and mutated only through `update`.
pub struct Store {
    pub count: i32,
}

impl Store {
    /// A fresh store holds the value zero.
    pub fn new() -> (s: Store)
        ensures
            s.count == 0,
    {
        Store { count: 0 }
    }

    /// Applies one action in place: an increment adds one, a decrement
    /// subtracts one. The counter must stay within `i32`; the caller rules
    /// overflow out, so the library neither wraps nor saturates.
    pub fn update(&mut self, action: Action)
        requires
            action is Increment ==> old(self).count < i32::MAX,
            action is Decrement ==> old(self).count > i32::MIN,
        ensures
            final(self).count == apply_action(old(self).count as int, action),
    {
        match action {
            Action::Increment => self.count = self.count + 1,
            Action::Decrement => self.count = self.count - 1,
        }
    }
}

} // verus!
