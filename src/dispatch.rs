//! The decisions of one dispatch, as a state machine: the caller performs
//! each action it returns (authenticate, send, save a draft, write the
//! audit line) and hands back what came of it.
use vstd::prelude::*;
use crate::config::Config;
use crate::request::SendRequest;

verus! {

/// Why authentication failed.
#[derive(Debug, Clone, Copy, PartialEq, Eq, Structural)]
pub enum AuthError {
    /// No authenticator is available yet.
    NotImplemented,
}

/// Why the mail provider refused or could not be reached.
#[derive(Debug)]
pub struct TransportError {
    pub message: String,
}

/// Why a dispatch failed.
#[derive(Debug)]
pub enum DispatchError {
    Auth(AuthError),
    Transport(TransportError),
    /// The audit line could not be written.
    Io(String),
    /// An event came that the current step does not wait for.
    OutOfOrder,
}

/// Where a dispatch stands.
#[derive(Debug)]
pub enum Phase {
    Idle,
    Authenticating,
    Dispatching,
    Logging,
    Succeeded,
    Failed(DispatchError),
}

/// What came of the last action, or the start signal.
#[derive(Debug)]
pub enum Event {
    Begin,
    Authenticated(Result<(), AuthError>),
    Transported(Result<(), TransportError>),
    Recorded(Result<(), String>),
}

/// What the caller is to do next.
#[derive(Debug, Clone, Copy, PartialEq, Eq, Structural)]
pub enum Action {
    Authenticate,
    Send,
    CreateDraft,
    RecordAudit,
    /// The dispatch is over; its result is in the phase.
    Finish,
}

/// One dispatch of one request.
#[derive(Debug)]
pub struct Dispatch {
    pub is_draft: bool,
    pub log_enabled: bool,
    pub phase: Phase,
}

/// The phase and action after a failure.
pub open spec fn fail_with(d: Dispatch, e: DispatchError) -> (Dispatch, Action) {
    (Dispatch { phase: Phase::Failed(e), ..d }, Action::Finish)
}

/// One step of a dispatch: the next phase and the action to perform.
/// A draft is saved without authenticating and is not logged; a message is
/// sent only after authentication succeeds, and logged afterwards when
/// logging is on. A finished dispatch stays as it is.
pub open spec fn step(d: Dispatch, e: Event) -> (Dispatch, Action) {
    match d.phase {
        Phase::Idle => match e {
            Event::Begin => if d.is_draft {
                (Dispatch { phase: Phase::Dispatching, ..d }, Action::CreateDraft)
            } else {
                (Dispatch { phase: Phase::Authenticating, ..d }, Action::Authenticate)
            },
            _ => fail_with(d, DispatchError::OutOfOrder),
        },
        Phase::Authenticating => match e {
            Event::Authenticated(Ok(())) => (
                Dispatch { phase: Phase::Dispatching, ..d },
                Action::Send,
            ),
            Event::Authenticated(Err(a)) => fail_with(d, DispatchError::Auth(a)),
            _ => fail_with(d, DispatchError::OutOfOrder),
        },
        Phase::Dispatching => match e {
            Event::Transported(Ok(())) => if !d.is_draft && d.log_enabled {
                (Dispatch { phase: Phase::Logging, ..d }, Action::RecordAudit)
            } else {
                (Dispatch { phase: Phase::Succeeded, ..d }, Action::Finish)
            },
            Event::Transported(Err(t)) => fail_with(d, DispatchError::Transport(t)),
            _ => fail_with(d, DispatchError::OutOfOrder),
        },
        Phase::Logging => match e {
            Event::Recorded(Ok(())) => (Dispatch { phase: Phase::Succeeded, ..d }, Action::Finish),
            Event::Recorded(Err(m)) => fail_with(d, DispatchError::Io(m)),
            _ => fail_with(d, DispatchError::OutOfOrder),
        },
        Phase::Succeeded => (d, Action::Finish),
        Phase::Failed(_) => (d, Action::Finish),
    }
}

/// The dispatch after a run of events, and the actions returned on the way.
pub open spec fn run(d: Dispatch, events: Seq<Event>) -> (Dispatch, Seq<Action>)
    decreases events.len(),
{
    if events.len() == 0 {
        (d, Seq::empty())
    } else {
        let (d1, a) = step(d, events[0]);
        let (df, rest) = run(d1, events.drop_first());
        (df, seq![a] + rest)
    }
}

/// A dispatch that has not started.
pub open spec fn fresh(is_draft: bool, log_enabled: bool) -> Dispatch {
    Dispatch { is_draft, log_enabled, phase: Phase::Idle }
}

/// A draft dispatch never stands where authentication or logging happens.
pub open spec fn draft_inv(d: Dispatch) -> bool {
    &&& d.is_draft
    &&& !(d.phase is Authenticating)
    &&& !(d.phase is Logging)
}

proof fn lemma_draft_run(d: Dispatch, events: Seq<Event>)
    requires
        draft_inv(d),
    ensures
        draft_inv(run(d, events).0),
        forall|i: int|
            0 <= i < run(d, events).1.len() ==> {
                let a = #[trigger] run(d, events).1[i];
                a != Action::Authenticate && a != Action::Send && a != Action::RecordAudit
            },
    decreases events.len(),
{
    if events.len() > 0 {
        let (d1, a) = step(d, events[0]);
        lemma_draft_run(d1, events.drop_first());
        let rest = run(d1, events.drop_first()).1;
        assert forall|i: int| 0 <= i < run(d, events).1.len() implies {
            let a = #[trigger] run(d, events).1[i];
            a != Action::Authenticate && a != Action::Send && a != Action::RecordAudit
        } by {
            if i > 0 {
                assert(run(d, events).1[i] == rest[i - 1]);
            }
        }
    }
}

/// A draft is never authenticated, sent or logged, whatever events come;
/// and the first action once it begins is to save the draft.
pub proof fn lemma_draft_never_authenticates(log_enabled: bool, events: Seq<Event>)
    ensures
        step(fresh(true, log_enabled), Event::Begin).1 == Action::CreateDraft,
        forall|i: int|
            0 <= i < run(fresh(true, log_enabled), events).1.len() ==> {
                let a = #[trigger] run(fresh(true, log_enabled), events).1[i];
                a != Action::Authenticate && a != Action::Send && a != Action::RecordAudit
            },
{
    lemma_draft_run(fresh(true, log_enabled), events);
}

proof fn lemma_failed_stays(d: Dispatch, events: Seq<Event>)
    requires
        d.phase is Failed,
    ensures
        run(d, events).0 == d,
        forall|i: int| 0 <= i < run(d, events).1.len() ==> #[trigger] run(d, events).1[i] == Action::Finish,
    decreases events.len(),
{
    if events.len() > 0 {
        lemma_failed_stays(d, events.drop_first());
        let rest = run(d, events.drop_first()).1;
        assert forall|i: int| 0 <= i < run(d, events).1.len() implies #[trigger] run(d, events).1[i]
            == Action::Finish by {
            if i > 0 {
                assert(run(d, events).1[i] == rest[i - 1]);
            }
        }
    }
}

/// A message to send (not a draft), whose authentication fails as the
/// unimplemented authenticator makes it fail, ends failed with that error
/// whatever comes next, and its audit line is never written.
pub proof fn lemma_unauthenticated_send_fails(log_enabled: bool, rest: Seq<Event>)
    ensures
        ({
            let events = seq![Event::Begin, Event::Authenticated(authenticate_result())] + rest;
            let (df, actions) = run(fresh(false, log_enabled), events);
            &&& df.phase == Phase::Failed(DispatchError::Auth(AuthError::NotImplemented))
            &&& actions[0] == Action::Authenticate
            &&& forall|i: int| 0 <= i < actions.len() ==> #[trigger] actions[i] != Action::RecordAudit
        }),
{
    let events = seq![Event::Begin, Event::Authenticated(authenticate_result())] + rest;
    let d0 = fresh(false, log_enabled);
    let e1 = events.drop_first();
    assert(events[0] == Event::Begin);
    assert(e1 =~= seq![Event::Authenticated(authenticate_result())] + rest);
    assert(e1[0] == Event::Authenticated(authenticate_result()));
    assert(e1.drop_first() =~= rest);
    let (d1, a1) = step(d0, events[0]);
    let (d2, a2) = step(d1, e1[0]);
    assert(d2.phase == Phase::Failed(DispatchError::Auth(AuthError::NotImplemented)));
    lemma_failed_stays(d2, rest);
    assert(run(d1, e1).1 == seq![a2] + run(d2, rest).1);
    let actions = run(d0, events).1;
    assert(actions == seq![a1] + run(d1, e1).1);
    assert forall|i: int| 0 <= i < actions.len() implies #[trigger] actions[i] != Action::RecordAudit by {
        if i >= 2 {
            assert(actions[i] == run(d2, rest).1[i - 2]);
        }
    }
}

/// What the authenticator returns while none is implemented.
pub open spec fn authenticate_result() -> Result<(), AuthError> {
    Err(AuthError::NotImplemented)
}

/// Authenticates with the mail provider. No authenticator exists yet, so
/// this always fails.
pub fn authenticate() -> (r: Result<(), AuthError>)
    ensures
        r == authenticate_result(),
{
    Err(AuthError::NotImplemented)
}

impl Dispatch {
    /// A dispatch of `req` under `config`, not yet begun.
    pub fn start(req: &SendRequest, config: &Config) -> (r: Dispatch)
        ensures
            r == fresh(req.is_draft, config.log_sent_emails),
    {
        Dispatch { is_draft: req.is_draft, log_enabled: config.log_sent_emails, phase: Phase::Idle }
    }

    /// Whether the dispatch is over.
    pub fn is_finished(&self) -> (r: bool)
        ensures
            r == (self.phase is Succeeded || self.phase is Failed),
    {
        match self.phase {
            Phase::Succeeded => true,
            Phase::Failed(_) => true,
            _ => false,
        }
    }

    /// Takes in what came of the last action and returns the next one.
    pub fn handle(&mut self, e: Event) -> (a: Action)
        ensures
            (*final(self), a) == step(*old(self), e),
    {
        let failed = match (&self.phase, &e) {
            (Phase::Idle, Event::Begin) => false,
            (Phase::Authenticating, Event::Authenticated(_)) => false,
            (Phase::Dispatching, Event::Transported(_)) => false,
            (Phase::Logging, Event::Recorded(_)) => false,
            (Phase::Succeeded, _) => false,
            (Phase::Failed(_), _) => false,
            _ => true,
        };
        if failed {
            self.phase = Phase::Failed(DispatchError::OutOfOrder);
            return Action::Finish;
        }
        match e {
            Event::Begin => {
                if let Phase::Idle = self.phase {
                    if self.is_draft {
                        self.phase = Phase::Dispatching;
                        Action::CreateDraft
                    } else {
                        self.phase = Phase::Authenticating;
                        Action::Authenticate
                    }
                } else {
                    Action::Finish
                }
            },
            Event::Authenticated(res) => {
                if let Phase::Authenticating = self.phase {
                    match res {
                        Ok(()) => {
                            self.phase = Phase::Dispatching;
                            Action::Send
                        },
                        Err(a) => {
                            self.phase = Phase::Failed(DispatchError::Auth(a));
                            Action::Finish
                        },
                    }
                } else {
                    Action::Finish
                }
            },
            Event::Transported(res) => {
                if let Phase::Dispatching = self.phase {
                    match res {
                        Ok(()) => {
                            if !self.is_draft && self.log_enabled {
                                self.phase = Phase::Logging;
                                Action::RecordAudit
                            } else {
                                self.phase = Phase::Succeeded;
                                Action::Finish
                            }
                        },
                        Err(t) => {
                            self.phase = Phase::Failed(DispatchError::Transport(t));
                            Action::Finish
                        },
                    }
                } else {
                    Action::Finish
                }
            },
            Event::Recorded(res) => {
                if let Phase::Logging = self.phase {
                    match res {
                        Ok(()) => {
                            self.phase = Phase::Succeeded;
                            Action::Finish
                        },
                        Err(m) => {
                            self.phase = Phase::Failed(DispatchError::Io(m));
                            Action::Finish
                        },
                    }
                } else {
                    Action::Finish
                }
            },
        }
    }

    /// The result of a finished dispatch.
    pub fn into_result(self) -> (r: Result<(), DispatchError>)
        requires
            self.phase is Succeeded || self.phase is Failed,
        ensures
            self.phase is Succeeded ==> r is Ok,
            self.phase is Failed ==> r == Err::<(), DispatchError>(self.phase->Failed_0),
    {
        match self.phase {
            Phase::Failed(e) => Err(e),
            _ => Ok(()),
        }
    }
}

} // verus!
