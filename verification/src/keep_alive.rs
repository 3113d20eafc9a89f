//! The keep-alive schedule of a user: greet, start the user, then greet once
//! a minute for as long as the session lives.
use vstd::prelude::*;

verus! {

/// One thing for the keep-alive loop to do.
#[derive(Clone, Copy, Debug, PartialEq, Eq, Structural)]
pub enum KeepAliveAction {
    /// Wait this many milliseconds.
    Sleep(u64),
    /// Send the greeting.
    SendHello,
    /// Send the start message with the user's code.
    SendInit,
}

/// Where the keep-alive loop stands.
#[derive(Clone, Copy, Debug, PartialEq, Eq, Structural)]
pub enum KeepAlivePhase {
    Start,
    FirstPause,
    Greeted,
    SecondPause,
    /// Started; `hello_next` tells whether the greeting is next (else a pause).
    Steady { hello_next: bool },
}

/// The action taken in a phase and the phase after it.
pub open spec fn keep_alive_step(p: KeepAlivePhase) -> (KeepAliveAction, KeepAlivePhase) {
    match p {
        KeepAlivePhase::Start => (KeepAliveAction::Sleep(1000), KeepAlivePhase::FirstPause),
        KeepAlivePhase::FirstPause => (KeepAliveAction::SendHello, KeepAlivePhase::Greeted),
        KeepAlivePhase::Greeted => (KeepAliveAction::Sleep(1000), KeepAlivePhase::SecondPause),
        KeepAlivePhase::SecondPause => (
            KeepAliveAction::SendInit,
            KeepAlivePhase::Steady { hello_next: false },
        ),
        KeepAlivePhase::Steady { hello_next } => if hello_next {
            (KeepAliveAction::SendHello, KeepAlivePhase::Steady { hello_next: false })
        } else {
            (KeepAliveAction::Sleep(60000), KeepAlivePhase::Steady { hello_next: true })
        },
    }
}

/// The `n`-th action (from 0) of the whole schedule: a one-second pause, the
/// greeting, a one-second pause, the start message, then a one-minute pause
/// and a greeting in turn, forever.
pub open spec fn scheduled(n: nat) -> KeepAliveAction {
    if n == 0 || n == 2 {
        KeepAliveAction::Sleep(1000)
    } else if n == 1 {
        KeepAliveAction::SendHello
    } else if n == 3 {
        KeepAliveAction::SendInit
    } else if (n - 4) % 2 == 0 {
        KeepAliveAction::Sleep(60000)
    } else {
        KeepAliveAction::SendHello
    }
}

/// The phase after `n` steps from the start.
pub open spec fn phase_after(n: nat) -> KeepAlivePhase
    decreases n,
{
    if n == 0 {
        KeepAlivePhase::Start
    } else {
        keep_alive_step(phase_after((n - 1) as nat)).1
    }
}

impl KeepAlivePhase {
    /// The action to take now and the phase after it.
    pub fn next(self) -> (r: (KeepAliveAction, KeepAlivePhase))
        ensures
            r == keep_alive_step(self),
    {
        match self {
            KeepAlivePhase::Start => (KeepAliveAction::Sleep(1000), KeepAlivePhase::FirstPause),
            KeepAlivePhase::FirstPause => (KeepAliveAction::SendHello, KeepAlivePhase::Greeted),
            KeepAlivePhase::Greeted => (KeepAliveAction::Sleep(1000), KeepAlivePhase::SecondPause),
            KeepAlivePhase::SecondPause => (
                KeepAliveAction::SendInit,
                KeepAlivePhase::Steady { hello_next: false },
            ),
            KeepAlivePhase::Steady { hello_next } => if hello_next {
                (KeepAliveAction::SendHello, KeepAlivePhase::Steady { hello_next: false })
            } else {
                (KeepAliveAction::Sleep(60000), KeepAlivePhase::Steady { hello_next: true })
            },
        }
    }
}

/// Stepping from the start, the `n`-th action is the `n`-th action of the
/// schedule, for every `n`.
pub proof fn lemma_follows_schedule(n: nat)
    ensures
        keep_alive_step(phase_after(n)).0 == scheduled(n),
        n >= 4 ==> phase_after(n) == (KeepAlivePhase::Steady { hello_next: (n - 4) % 2 == 1 }),
    decreases n,
{
    reveal_with_fuel(phase_after, 5);
    if n > 0 {
        lemma_follows_schedule((n - 1) as nat);
    }
}

} // verus!
