//! The decisions of the interaction loop. The loop itself fetches, paints
//! and reads keys; after each of these it hands the session what happened
//! and does what the session answers.
//!
//! A session starts by asking for one refresh. Once the first refresh has
//! come, it asks for the screen to be drawn and for input to be awaited, over
//! and over, until the quit key is read; then it asks for the terminal to be
//! released. A first refresh that fails asks for the release at once. After
//! the release it asks for nothing more.

use crate::coin::Coin;
use crate::screen::QUIT_KEY;
use vstd::prelude::*;

verus! {

/// How long the loop waits for a key after each drawing, in milliseconds.
pub const POLL_MILLIS: u64 = 100;

/// Where a session stands.
#[derive(PartialEq, Eq, Structural, Clone, Copy, Debug)]
pub enum Phase {
    /// Waiting for the first refresh.
    Initializing,
    /// Showing the records and awaiting keys.
    Running,
    /// The terminal has been released; nothing more is done.
    Terminating,
}

/// What went wrong outside the session.
#[derive(PartialEq, Eq, Structural, Clone, Copy, Debug)]
pub enum Failure {
    /// The request for quotes did not complete.
    Transport,
    /// The response was not a well-formed set of quotes.
    Parse,
    /// The terminal could not be set up or restored.
    Terminal,
}

/// How a session ends.
#[derive(PartialEq, Eq, Structural, Clone, Copy, Debug)]
pub enum Outcome {
    /// The quit key was read.
    Quit,
    /// The first refresh failed.
    Failed(Failure),
}

/// What happened since the session last answered.
pub enum Event {
    /// A refresh produced these records.
    Refreshed(Vec<Coin>),
    /// A refresh failed.
    RefreshFailed(Failure),
    /// The wait for input ended without a key press.
    Idle,
    /// A key was pressed.
    Key(char),
}

/// What the loop is to do next.
#[derive(PartialEq, Eq, Structural, Clone, Copy, Debug)]
pub enum Action {
    /// Fetch the quotes and report the result.
    Refresh,
    /// Paint the current records, then wait for input for `POLL_MILLIS`.
    Draw,
    /// Release the terminal and end with this outcome.
    Release(Outcome),
    /// Nothing: the session is over.
    Stop,
}

/// The state of the interaction loop: its phase and the records on show.
pub struct Session {
    pub phase: Phase,
    pub coins: Vec<Coin>,
}

/// Whether the event is a press of the quit key.
pub open spec fn is_quit(e: Event) -> bool {
    e is Key && e->Key_0 == QUIT_KEY
}

/// The phase after `e` arrives in phase `p`.
pub open spec fn next_phase(p: Phase, e: Event) -> Phase {
    match p {
        Phase::Initializing => match e {
            Event::Refreshed(_) => Phase::Running,
            Event::RefreshFailed(_) => Phase::Terminating,
            _ => Phase::Initializing,
        },
        Phase::Running => if is_quit(e) {
            Phase::Terminating
        } else {
            Phase::Running
        },
        Phase::Terminating => Phase::Terminating,
    }
}

/// What the loop is asked to do when `e` arrives in phase `p`.
pub open spec fn action_of(p: Phase, e: Event) -> Action {
    match p {
        Phase::Initializing => match e {
            Event::Refreshed(_) => Action::Draw,
            Event::RefreshFailed(f) => Action::Release(Outcome::Failed(f)),
            _ => Action::Refresh,
        },
        Phase::Running => if is_quit(e) {
            Action::Release(Outcome::Quit)
        } else {
            Action::Draw
        },
        Phase::Terminating => Action::Stop,
    }
}

/// The records on show after `e` arrives in phase `p`: a successful refresh
/// replaces them whole; anything else keeps them.
pub open spec fn coins_after(p: Phase, e: Event, coins: Seq<Coin>) -> Seq<Coin> {
    if p != Phase::Terminating && e is Refreshed {
        e->Refreshed_0@
    } else {
        coins
    }
}

/// The phase reached from `p` after the events, in order.
pub open spec fn final_phase(p: Phase, events: Seq<Event>) -> Phase
    decreases events.len(),
{
    if events.len() == 0 {
        p
    } else {
        final_phase(next_phase(p, events[0]), events.drop_first())
    }
}

/// How many times the loop is asked to draw, from `p`, as the events arrive.
pub open spec fn draws(p: Phase, events: Seq<Event>) -> nat
    decreases events.len(),
{
    if events.len() == 0 {
        0
    } else {
        (if action_of(p, events[0]) == Action::Draw { 1nat } else { 0nat }) + draws(
            next_phase(p, events[0]),
            events.drop_first(),
        )
    }
}

/// How many times the loop is asked to release the terminal, from `p`, as
/// the events arrive.
pub open spec fn releases(p: Phase, events: Seq<Event>) -> nat
    decreases events.len(),
{
    if events.len() == 0 {
        0
    } else {
        (if action_of(p, events[0]) is Release { 1nat } else { 0nat }) + releases(
            next_phase(p, events[0]),
            events.drop_first(),
        )
    }
}

/// Once terminated, a session asks for nothing more: no drawing and no
/// release, whatever arrives.
pub proof fn lemma_terminated_is_silent(events: Seq<Event>)
    ensures
        draws(Phase::Terminating, events) == 0,
        releases(Phase::Terminating, events) == 0,
        final_phase(Phase::Terminating, events) == Phase::Terminating,
    decreases events.len(),
{
    if events.len() > 0 {
        lemma_terminated_is_silent(events.drop_first());
    }
}

/// The terminal is released exactly once on every path that ends the
/// session, and never on one that does not: from any phase short of
/// termination, the events ask for one release if they end the session and
/// for none otherwise.
pub proof fn lemma_release_once(p: Phase, events: Seq<Event>)
    requires
        p != Phase::Terminating,
    ensures
        releases(p, events) == (if final_phase(p, events) == Phase::Terminating { 1nat } else { 0nat }),
    decreases events.len(),
{
    if events.len() > 0 {
        let q = next_phase(p, events[0]);
        if q == Phase::Terminating {
            lemma_terminated_is_silent(events.drop_first());
        } else {
            lemma_release_once(q, events.drop_first());
        }
    }
}

/// A first refresh that fails ends the session before anything is drawn,
/// with the terminal released once and the failure as the outcome.
pub proof fn lemma_startup_failure(f: Failure, rest: Seq<Event>)
    ensures
        action_of(Phase::Initializing, Event::RefreshFailed(f)) == Action::Release(
            Outcome::Failed(f),
        ),
        draws(Phase::Initializing, seq![Event::RefreshFailed(f)] + rest) == 0,
        releases(Phase::Initializing, seq![Event::RefreshFailed(f)] + rest) == 1,
{
    let events = seq![Event::RefreshFailed(f)] + rest;
    assert(events.drop_first() =~= rest);
    lemma_terminated_is_silent(rest);
}

/// While running, inputs whose first press of the quit key comes at
/// position `n` (counting from one) are answered by `n - 1` drawings and one
/// release, whatever follows them.
pub proof fn lemma_running_until_quit(inputs: Seq<Event>, n: nat)
    requires
        1 <= n <= inputs.len(),
        is_quit(inputs[n - 1]),
        forall|i: int| 0 <= i < n - 1 ==> !is_quit(#[trigger] inputs[i]),
    ensures
        draws(Phase::Running, inputs) == n - 1,
        releases(Phase::Running, inputs) == 1,
    decreases n,
{
    let rest = inputs.drop_first();
    if n == 1 {
        lemma_terminated_is_silent(rest);
    } else {
        assert forall|i: int| 0 <= i < n - 2 implies !is_quit(#[trigger] rest[i]) by {
            assert(rest[i] == inputs[i + 1]);
        }
        assert(!is_quit(inputs[0]));
        lemma_running_until_quit(rest, (n - 1) as nat);
    }
}

/// After a first refresh, scripted inputs whose first press of the quit key
/// comes at position `n` (counting from one) make the loop draw exactly `n`
/// times and release the terminal exactly once.
pub proof fn lemma_quit_at(coins: Vec<Coin>, inputs: Seq<Event>, n: nat)
    requires
        1 <= n <= inputs.len(),
        is_quit(inputs[n - 1]),
        forall|i: int| 0 <= i < n - 1 ==> !is_quit(#[trigger] inputs[i]),
    ensures
        draws(Phase::Initializing, seq![Event::Refreshed(coins)] + inputs) == n,
        releases(Phase::Initializing, seq![Event::Refreshed(coins)] + inputs) == 1,
        final_phase(Phase::Initializing, seq![Event::Refreshed(coins)] + inputs)
            == Phase::Terminating,
{
    let events = seq![Event::Refreshed(coins)] + inputs;
    assert(events.drop_first() =~= inputs);
    lemma_running_until_quit(inputs, n);
    lemma_release_once(Phase::Initializing, events);
}

impl Session {
    /// A session that waits for its first refresh, with no records.
    pub fn new() -> (r: Session)
        ensures
            r.phase == Phase::Initializing,
            r.coins@.len() == 0,
    {
        Session { phase: Phase::Initializing, coins: Vec::new() }
    }

    /// What the loop is to do first: fetch the quotes.
    pub fn start(&self) -> (r: Action)
        ensures
            self.phase == Phase::Initializing ==> r == Action::Refresh,
            self.phase == Phase::Running ==> r == Action::Draw,
            self.phase == Phase::Terminating ==> r == Action::Stop,
    {
        match self.phase {
            Phase::Initializing => Action::Refresh,
            Phase::Running => Action::Draw,
            Phase::Terminating => Action::Stop,
        }
    }

    /// The records on show.
    pub fn coins(&self) -> (r: &[Coin])
        ensures
            r@ == self.coins@,
    {
        self.coins.as_slice()
    }

    /// Takes in what happened and answers what the loop is to do next.
    pub fn handle(&mut self, e: Event) -> (r: Action)
        ensures
            r == action_of(old(self).phase, e),
            final(self).phase == next_phase(old(self).phase, e),
            final(self).coins@ == coins_after(old(self).phase, e, old(self).coins@),
    {
        match self.phase {
            Phase::Initializing => match e {
                Event::Refreshed(coins) => {
                    self.coins = coins;
                    self.phase = Phase::Running;
                    Action::Draw
                },
                Event::RefreshFailed(f) => {
                    self.phase = Phase::Terminating;
                    Action::Release(Outcome::Failed(f))
                },
                _ => Action::Refresh,
            },
            Phase::Running => match e {
                Event::Refreshed(coins) => {
                    self.coins = coins;
                    Action::Draw
                },
                Event::Key(c) => {
                    if c == QUIT_KEY {
                        self.phase = Phase::Terminating;
                        Action::Release(Outcome::Quit)
                    } else {
                        Action::Draw
                    }
                },
                _ => Action::Draw,
            },
            Phase::Terminating => Action::Stop,
        }
    }
}

} // verus!
