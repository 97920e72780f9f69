//! The start-up sequence of the bridge: which stage comes next, when the
//! worker loops may start, and when the handle may be given to the host.

use vstd::prelude::*;

verus! {

/// The stages of start-up, in the order in which they are taken.
#[derive(Clone, Copy, Debug, PartialEq, Eq, Structural)]
pub enum Stage {
    /// Obtain the credentials.
    Credentials,
    /// Open the authenticated session.
    Session,
    /// Construct the playback engine and its mixer.
    Player,
    /// Obtain the event stream of the playback engine.
    Events,
    /// Construct the remote-control object bound to the engine.
    Control,
    /// Start the dispatcher and the forwarder.
    Workers,
    /// Signal readiness to the caller.
    Signal,
}

/// How far start-up has come.
#[derive(Clone, Copy, Debug, PartialEq, Eq, Structural)]
pub enum Bootstrap {
    /// This stage is to be taken next.
    Pending(Stage),
    /// Every stage has succeeded.
    Ready,
    /// This stage failed; start-up was abandoned there.
    Failed(Stage),
}

impl Stage {
    /// The place of a stage in the sequence, counted from 0.
    pub open spec fn index(self) -> nat {
        match self {
            Stage::Credentials => 0,
            Stage::Session => 1,
            Stage::Player => 2,
            Stage::Events => 3,
            Stage::Control => 4,
            Stage::Workers => 5,
            Stage::Signal => 6,
        }
    }

    /// The stage that follows this one, if any.
    pub open spec fn following(self) -> Option<Stage> {
        match self {
            Stage::Credentials => Some(Stage::Session),
            Stage::Session => Some(Stage::Player),
            Stage::Player => Some(Stage::Events),
            Stage::Events => Some(Stage::Control),
            Stage::Control => Some(Stage::Workers),
            Stage::Workers => Some(Stage::Signal),
            Stage::Signal => None,
        }
    }

    /// The stage that follows this one, if any.
    pub fn next(self) -> (stage: Option<Stage>)
        ensures
            stage == self.following(),
    {
        match self {
            Stage::Credentials => Some(Stage::Session),
            Stage::Session => Some(Stage::Player),
            Stage::Player => Some(Stage::Events),
            Stage::Events => Some(Stage::Control),
            Stage::Control => Some(Stage::Workers),
            Stage::Workers => Some(Stage::Signal),
            Stage::Signal => None,
        }
    }
}

impl Bootstrap {
    /// Start-up after the pending stage has ended with the given outcome. A
    /// failure abandons start-up; nothing follows readiness or a failure.
    pub open spec fn after(self, succeeded: bool) -> Bootstrap {
        match self {
            Bootstrap::Pending(stage) => if !succeeded {
                Bootstrap::Failed(stage)
            } else {
                match stage.following() {
                    Some(next) => Bootstrap::Pending(next),
                    None => Bootstrap::Ready,
                }
            },
            done => done,
        }
    }

    /// Start-up after the stages have ended with `outcomes`, in order.
    pub open spec fn after_all(self, outcomes: Seq<bool>) -> Bootstrap
        decreases outcomes.len(),
    {
        if outcomes.len() == 0 {
            self
        } else {
            self.after(outcomes[0]).after_all(outcomes.skip(1))
        }
    }

    /// Whether the dispatcher and the forwarder have been started.
    pub open spec fn workers_started(self) -> bool {
        self == Bootstrap::Pending(Stage::Signal) || self == Bootstrap::Ready || self
            == Bootstrap::Failed(Stage::Signal)
    }

    /// Start-up with no stage taken yet.
    pub fn new() -> (start: Bootstrap)
        ensures
            start == Bootstrap::Pending(Stage::Credentials),
    {
        Bootstrap::Pending(Stage::Credentials)
    }

    /// Records the outcome of the pending stage.
    pub fn advance(self, succeeded: bool) -> (next: Bootstrap)
        ensures
            next == self.after(succeeded),
    {
        match self {
            Bootstrap::Pending(stage) => {
                if !succeeded {
                    Bootstrap::Failed(stage)
                } else {
                    match stage.next() {
                        Some(next) => Bootstrap::Pending(next),
                        None => Bootstrap::Ready,
                    }
                }
            },
            Bootstrap::Ready => Bootstrap::Ready,
            Bootstrap::Failed(stage) => Bootstrap::Failed(stage),
        }
    }

    /// Whether the dispatcher and the forwarder have been started.
    pub fn has_started_workers(&self) -> (started: bool)
        ensures
            started == self.workers_started(),
    {
        match self {
            Bootstrap::Pending(Stage::Signal) => true,
            Bootstrap::Ready => true,
            Bootstrap::Failed(Stage::Signal) => true,
            _ => false,
        }
    }

    /// Gives the handle to the host if, and only if, start-up is complete.
    pub fn expose<H>(self, handle: H) -> (exposed: Option<H>)
        ensures
            exposed == if self is Ready {
                Some(handle)
            } else {
                None::<H>
            },
    {
        match self {
            Bootstrap::Ready => Some(handle),
            _ => None,
        }
    }
}

/// Nothing follows a failure.
pub proof fn lemma_failure_is_final(stage: Stage, outcomes: Seq<bool>)
    ensures
        Bootstrap::Failed(stage).after_all(outcomes) == Bootstrap::Failed(stage),
    decreases outcomes.len(),
{
    if outcomes.len() > 0 {
        lemma_failure_is_final(stage, outcomes.skip(1));
    }
}

/// Where start-up stands at `from` and one of the stages still to come
/// fails, start-up ends as failed at that stage or an earlier one.
pub proof fn lemma_failure_abandons_start_up(from: Stage, outcomes: Seq<bool>, failure: int)
    requires
        0 <= failure < outcomes.len(),
        from.index() + failure < 7,
        !outcomes[failure],
    ensures
        Bootstrap::Pending(from).after_all(outcomes) matches Bootstrap::Failed(stage)
            && from.index() <= stage.index() <= from.index() + failure,
    decreases outcomes.len(),
{
    if !outcomes[0] {
        lemma_failure_is_final(from, outcomes.skip(1));
    } else {
        let next = from.following().unwrap();
        assert(outcomes.skip(1)[failure - 1] == outcomes[failure]);
        lemma_failure_abandons_start_up(next, outcomes.skip(1), failure - 1);
    }
}

/// A start-up in which any stage fails gives the host no handle. Where the
/// failure comes before the workers are started, they are never started.
pub proof fn lemma_failed_start_up_exposes_nothing(outcomes: Seq<bool>, failure: int)
    requires
        0 <= failure < outcomes.len(),
        failure < 7,
        !outcomes[failure],
    ensures
        Bootstrap::Pending(Stage::Credentials).after_all(outcomes) is Failed,
        failure <= 5 ==> !Bootstrap::Pending(Stage::Credentials).after_all(
            outcomes,
        ).workers_started(),
{
    lemma_failure_abandons_start_up(Stage::Credentials, outcomes, failure);
}

/// A start-up in which all seven stages succeed is ready, with its workers
/// started.
pub proof fn lemma_complete_start_up_is_ready(outcomes: Seq<bool>)
    requires
        outcomes.len() == 7,
        forall|i: int| 0 <= i < 7 ==> outcomes[i],
    ensures
        Bootstrap::Pending(Stage::Credentials).after_all(outcomes) == Bootstrap::Ready,
        Bootstrap::Ready.workers_started(),
{
    lemma_successes_lead_to_ready(Stage::Credentials, outcomes);
}

/// From any stage, success in it and in every later stage leads to readiness.
pub proof fn lemma_successes_lead_to_ready(from: Stage, outcomes: Seq<bool>)
    requires
        from.index() + outcomes.len() == 7,
        forall|i: int| 0 <= i < outcomes.len() ==> outcomes[i],
    ensures
        Bootstrap::Pending(from).after_all(outcomes) == Bootstrap::Ready,
    decreases outcomes.len(),
{
    let rest = outcomes.skip(1);
    assert(outcomes[0]);
    match from.following() {
        Some(next) => {
            assert forall|i: int| 0 <= i < rest.len() implies rest[i] by {
                assert(rest[i] == outcomes[i + 1]);
            }
            lemma_successes_lead_to_ready(next, rest);
        },
        None => {
            assert(rest.len() == 0);
            assert(Bootstrap::Ready.after_all(rest) == Bootstrap::Ready);
        },
    }
}

} // verus!
