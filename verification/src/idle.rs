//! The idle controller of a node: a state machine that lets at most one
//! inhibition be outstanding at the idle service, which itself sets no such
//! limit.
//!
//! The controller decides and the caller acts: each operation hands back the
//! call to make to the idle service, or the reason why none is to be made,
//! and the caller hands the service's answer to the matching `complete_`
//! function, without letting go of the controller in between.

use vstd::multiset::Multiset;
use vstd::prelude::*;
use crate::status::NodeStatus;

verus! {

/// The session that `lock` and `unlock` speak of.
pub const SESSION_ID: &'static str = "auto";

/// The application name under which an inhibition is asked for.
pub const APPLICATION_NAME: &'static str = "";

/// The reason that is given for an inhibition.
pub const INHIBIT_REASON: &'static str = "";

/// Whether an inhibition is outstanding, and under which cookie.
#[derive(Clone, Copy, Debug, PartialEq, Eq, Structural)]
pub enum InhibitState {
    NotInhibited,
    Inhibited(u32),
}

/// A call to the idle service.
#[derive(Clone, Copy, Debug, PartialEq, Eq, Structural)]
pub enum IdleCall {
    /// Lock the session [`SESSION_ID`].
    LockSession,
    /// Unlock the session [`SESSION_ID`].
    UnlockSession,
    /// Tell the service that the user was active.
    SimulateUserActivity,
    /// Ask for an inhibition, as [`APPLICATION_NAME`] and for
    /// [`INHIBIT_REASON`]; the service answers with a cookie.
    Inhibit,
    /// Release the inhibition that this cookie stands for.
    UnInhibit(u32),
}

/// Why an operation of the controller failed.
#[derive(Debug, PartialEq, Eq)]
pub enum IdleError {
    /// An inhibition is outstanding already.
    AlreadyInhibited,
    /// No inhibition is outstanding.
    NotInhibited,
    /// The idle service failed. The text says how.
    Service(String),
}

/// What an [`IdleError`] holds, as plain text.
pub enum IdleErrorView {
    AlreadyInhibited,
    NotInhibited,
    Service(Seq<char>),
}

impl View for IdleError {
    type V = IdleErrorView;

    open spec fn view(&self) -> IdleErrorView {
        match self {
            IdleError::AlreadyInhibited => IdleErrorView::AlreadyInhibited,
            IdleError::NotInhibited => IdleErrorView::NotInhibited,
            IdleError::Service(how) => IdleErrorView::Service(how@),
        }
    }
}

impl IdleError {
    /// The error in words.
    pub open spec fn message_text(self) -> Seq<char> {
        match self {
            IdleError::AlreadyInhibited => "Already inhibited"@,
            IdleError::NotInhibited => "Not inhibited"@,
            IdleError::Service(how) => how@,
        }
    }

    /// The error in words.
    pub fn message(&self) -> (words: String)
        ensures
            words@ == self.message_text(),
    {
        match self {
            IdleError::AlreadyInhibited => "Already inhibited".to_owned(),
            IdleError::NotInhibited => "Not inhibited".to_owned(),
            IdleError::Service(how) => how.clone(),
        }
    }
}

/// What the idle service answered, as plain text.
pub open spec fn answer<T>(reply: Result<T, String>) -> Result<T, Seq<char>> {
    match reply {
        Ok(value) => Ok(value),
        Err(how) => Err(how@),
    }
}

impl InhibitState {
    /// What `inhibit` decides in this state: the call for a cookie where none
    /// is held, else the error and no call.
    pub open spec fn inhibit(self) -> Result<IdleCall, IdleErrorView> {
        match self {
            InhibitState::NotInhibited => Ok(IdleCall::Inhibit),
            InhibitState::Inhibited(_) => Err(IdleErrorView::AlreadyInhibited),
        }
    }

    /// What `uninhibit` decides in this state: the release of the cookie that
    /// is held, else the error and no call.
    pub open spec fn uninhibit(self) -> Result<IdleCall, IdleErrorView> {
        match self {
            InhibitState::Inhibited(cookie) => Ok(IdleCall::UnInhibit(cookie)),
            InhibitState::NotInhibited => Err(IdleErrorView::NotInhibited),
        }
    }

    /// The state after the service answered a call for a cookie: the cookie
    /// is held if one was granted and none was held; else nothing changes.
    pub open spec fn after_inhibit(self, reply: Result<u32, Seq<char>>) -> InhibitState {
        match (self, reply) {
            (InhibitState::NotInhibited, Ok(cookie)) => InhibitState::Inhibited(cookie),
            _ => self,
        }
    }

    /// What `complete_inhibit` reports.
    pub open spec fn inhibit_result(self, reply: Result<u32, Seq<char>>) -> Result<
        (),
        IdleErrorView,
    > {
        match (self, reply) {
            (InhibitState::Inhibited(_), _) => Err(IdleErrorView::AlreadyInhibited),
            (InhibitState::NotInhibited, Ok(_)) => Ok(()),
            (InhibitState::NotInhibited, Err(how)) => Err(IdleErrorView::Service(how)),
        }
    }

    /// The state after the service answered a release: no cookie is held if
    /// the release succeeded; else nothing changes, and the cookie is kept
    /// for another attempt.
    pub open spec fn after_uninhibit(self, reply: Result<(), Seq<char>>) -> InhibitState {
        match (self, reply) {
            (InhibitState::Inhibited(_), Ok(_)) => InhibitState::NotInhibited,
            _ => self,
        }
    }

    /// What `complete_uninhibit` reports.
    pub open spec fn uninhibit_result(self, reply: Result<(), Seq<char>>) -> Result<
        (),
        IdleErrorView,
    > {
        match (self, reply) {
            (InhibitState::NotInhibited, _) => Err(IdleErrorView::NotInhibited),
            (InhibitState::Inhibited(_), Ok(_)) => Ok(()),
            (InhibitState::Inhibited(_), Err(how)) => Err(IdleErrorView::Service(how)),
        }
    }
}

/// What an operation reports, as plain text.
pub open spec fn report(done: Result<(), IdleError>) -> Result<(), IdleErrorView> {
    match done {
        Ok(_) => Ok(()),
        Err(error) => Err(error@),
    }
}

/// What an operation decided, as plain text.
pub open spec fn decision(decided: Result<IdleCall, IdleError>) -> Result<IdleCall, IdleErrorView> {
    match decided {
        Ok(call) => Ok(call),
        Err(error) => Err(error@),
    }
}

/// The controller of a node's idle state. It alone holds the cookie of the
/// inhibition that is outstanding.
#[derive(Debug)]
pub struct Idle {
    state: InhibitState,
}

impl View for Idle {
    type V = InhibitState;

    closed spec fn view(&self) -> InhibitState {
        self.state
    }
}

impl Idle {
    /// A controller in its first state: nothing is inhibited.
    pub fn new() -> (idle: Idle)
        ensures
            idle@ == InhibitState::NotInhibited,
    {
        Idle { state: InhibitState::NotInhibited }
    }

    /// Whether an inhibition is outstanding.
    pub fn is_inhibited(&self) -> (held: bool)
        ensures
            held == (self@ is Inhibited),
    {
        match self.state {
            InhibitState::Inhibited(_) => true,
            InhibitState::NotInhibited => false,
        }
    }

    /// The status that the node reports: what the idle service says of
    /// `active` and `active_time`, and whether an inhibition is outstanding.
    pub fn status(&self, active: bool, active_time: u32) -> (status: NodeStatus)
        ensures
            status == (NodeStatus { active, active_time, inhibited: self@ is Inhibited }),
    {
        NodeStatus { active, active_time, inhibited: self.is_inhibited() }
    }

    /// Locking the session: the call is made in every state.
    pub fn lock(&self) -> (call: IdleCall)
        ensures
            call == IdleCall::LockSession,
    {
        IdleCall::LockSession
    }

    /// Unlocking the session: the call is made in every state.
    pub fn unlock(&self) -> (call: IdleCall)
        ensures
            call == IdleCall::UnlockSession,
    {
        IdleCall::UnlockSession
    }

    /// Simulating user activity: the call is made in every state.
    pub fn simulate_user_activity(&self) -> (call: IdleCall)
        ensures
            call == IdleCall::SimulateUserActivity,
    {
        IdleCall::SimulateUserActivity
    }

    /// What the service's answer to `lock`, `unlock` or
    /// `simulate_user_activity` comes to: the operation fails exactly when
    /// the service did.
    pub fn complete(reply: Result<(), String>) -> (done: Result<(), IdleError>)
        ensures
            report(done) == match answer(reply) {
                Ok(_) => Ok::<(), IdleErrorView>(()),
                Err(how) => Err(IdleErrorView::Service(how)),
            },
    {
        match reply {
            Ok(_) => Ok(()),
            Err(how) => Err(IdleError::Service(how)),
        }
    }

    /// Inhibiting: the call for a cookie if nothing is inhibited. If an
    /// inhibition is outstanding, that is the error, and no call is made.
    pub fn inhibit(&self) -> (decided: Result<IdleCall, IdleError>)
        ensures
            decision(decided) == self@.inhibit(),
    {
        match self.state {
            InhibitState::NotInhibited => Ok(IdleCall::Inhibit),
            InhibitState::Inhibited(_) => Err(IdleError::AlreadyInhibited),
        }
    }

    /// Takes the service's answer to the call for a cookie. A cookie that was
    /// granted is held from now on. If the service failed, nothing is
    /// inhibited, and its failure is the error. If a cookie is held already,
    /// it stays, and that is the error.
    pub fn complete_inhibit(&mut self, reply: Result<u32, String>) -> (done: Result<(), IdleError>)
        ensures
            final(self)@ == old(self)@.after_inhibit(answer(reply)),
            report(done) == old(self)@.inhibit_result(answer(reply)),
    {
        match self.state {
            InhibitState::Inhibited(_) => Err(IdleError::AlreadyInhibited),
            InhibitState::NotInhibited => match reply {
                Ok(cookie) => {
                    self.state = InhibitState::Inhibited(cookie);
                    Ok(())
                },
                Err(how) => Err(IdleError::Service(how)),
            },
        }
    }

    /// Uninhibiting: the release of the cookie that is held. If nothing is
    /// inhibited, that is the error, and no call is made.
    pub fn uninhibit(&self) -> (decided: Result<IdleCall, IdleError>)
        ensures
            decision(decided) == self@.uninhibit(),
    {
        match self.state {
            InhibitState::Inhibited(cookie) => Ok(IdleCall::UnInhibit(cookie)),
            InhibitState::NotInhibited => Err(IdleError::NotInhibited),
        }
    }

    /// Takes the service's answer to the release. After a release that
    /// succeeded nothing is inhibited. If the service failed, the cookie
    /// stays for another attempt, and the failure is the error. If nothing
    /// was inhibited, that is the error.
    pub fn complete_uninhibit(&mut self, reply: Result<(), String>) -> (done: Result<(), IdleError>)
        ensures
            final(self)@ == old(self)@.after_uninhibit(answer(reply)),
            report(done) == old(self)@.uninhibit_result(answer(reply)),
    {
        match self.state {
            InhibitState::NotInhibited => Err(IdleError::NotInhibited),
            InhibitState::Inhibited(_) => match reply {
                Ok(_) => {
                    self.state = InhibitState::NotInhibited;
                    Ok(())
                },
                Err(how) => Err(IdleError::Service(how)),
            },
        }
    }
}

/// After an inhibition was granted, a second `inhibit` fails as already
/// inhibited and makes no call, and whatever is then handed to
/// `complete_inhibit`, the cookie that is held stays the same.
pub proof fn law_second_inhibit_fails(cookie: u32, reply: Result<u32, Seq<char>>)
    ensures
        ({
            let held = InhibitState::NotInhibited.after_inhibit(Ok(cookie));
            &&& InhibitState::NotInhibited.inhibit() == Ok::<IdleCall, IdleErrorView>(
                IdleCall::Inhibit,
            )
            &&& held == InhibitState::Inhibited(cookie)
            &&& held.inhibit() == Err::<IdleCall, IdleErrorView>(IdleErrorView::AlreadyInhibited)
            &&& held.inhibit_result(reply) == Err::<(), IdleErrorView>(
                IdleErrorView::AlreadyInhibited,
            )
            &&& held.after_inhibit(reply) == held
        }),
{
}

/// On a controller that never inhibited, `uninhibit` fails as not inhibited
/// and makes no call.
pub proof fn law_uninhibit_when_fresh()
    ensures
        InhibitState::NotInhibited.uninhibit() == Err::<IdleCall, IdleErrorView>(
            IdleErrorView::NotInhibited,
        ),
{
}

/// After `inhibit` and an `uninhibit` that both succeeded, a second
/// `uninhibit` fails as not inhibited.
pub proof fn law_second_uninhibit_fails(cookie: u32)
    ensures
        ({
            let held = InhibitState::NotInhibited.after_inhibit(Ok(cookie));
            let released = held.after_uninhibit(Ok(()));
            &&& held.uninhibit() == Ok::<IdleCall, IdleErrorView>(IdleCall::UnInhibit(cookie))
            &&& held.uninhibit_result(Ok(())) == Ok::<(), IdleErrorView>(())
            &&& released == InhibitState::NotInhibited
            &&& released.uninhibit() == Err::<IdleCall, IdleErrorView>(IdleErrorView::NotInhibited)
        }),
{
}

/// A release that failed loses nothing: the same cookie is held, and the
/// next `uninhibit` releases it again.
pub proof fn law_failed_release_keeps_cookie(cookie: u32, how: Seq<char>)
    ensures
        ({
            let held = InhibitState::Inhibited(cookie);
            let after = held.after_uninhibit(Err(how));
            &&& after == held
            &&& held.uninhibit_result(Err(how)) == Err::<(), IdleErrorView>(
                IdleErrorView::Service(how),
            )
            &&& after.uninhibit() == Ok::<IdleCall, IdleErrorView>(IdleCall::UnInhibit(cookie))
        }),
{
}

/// One request to the controller, with the answer that the idle service
/// gives if the controller decides to call it.
pub enum Round {
    Inhibit(Result<u32, Seq<char>>),
    Uninhibit(Result<(), Seq<char>>),
}

/// The inhibitions that the state accounts for: the one whose cookie is
/// held, if one is.
pub open spec fn accounted(state: InhibitState) -> Multiset<u32> {
    match state {
        InhibitState::NotInhibited => Multiset::empty(),
        InhibitState::Inhibited(cookie) => Multiset::singleton(cookie),
    }
}

/// The state of the controller, and the inhibitions that are outstanding at
/// the idle service, after one more round. The service is called only if
/// the controller decides so; it holds one more inhibition after it granted
/// a cookie, and one less after it released one.
pub open spec fn after_round(state: InhibitState, outstanding: Multiset<u32>, round: Round) -> (
    InhibitState,
    Multiset<u32>,
) {
    match round {
        Round::Inhibit(reply) => match (state.inhibit(), reply) {
            (Ok(_), Ok(cookie)) => (state.after_inhibit(reply), outstanding.insert(cookie)),
            (Ok(_), Err(_)) => (state.after_inhibit(reply), outstanding),
            (Err(_), _) => (state, outstanding),
        },
        Round::Uninhibit(reply) => match (state.uninhibit(), reply) {
            (Ok(IdleCall::UnInhibit(cookie)), Ok(_)) => (
                state.after_uninhibit(reply),
                outstanding.remove(cookie),
            ),
            (Ok(_), _) => (state.after_uninhibit(reply), outstanding),
            (Err(_), _) => (state, outstanding),
        },
    }
}

/// The state of a controller that started fresh, and the inhibitions that
/// are outstanding at the idle service, after `rounds`.
pub open spec fn after_rounds(rounds: Seq<Round>) -> (InhibitState, Multiset<u32>)
    decreases rounds.len(),
{
    if rounds.len() == 0 {
        (InhibitState::NotInhibited, Multiset::empty())
    } else {
        let (state, outstanding) = after_rounds(rounds.drop_last());
        after_round(state, outstanding, rounds.last())
    }
}

/// Whatever is asked of the controller, in whatever order, and whatever the
/// idle service answers: the inhibitions that are outstanding at the service
/// are those that the controller accounts for, so there is never more than
/// one.
pub proof fn law_at_most_one_outstanding(rounds: Seq<Round>)
    ensures
        after_rounds(rounds).1 == accounted(after_rounds(rounds).0),
        after_rounds(rounds).1.len() <= 1,
    decreases rounds.len(),
{
    if rounds.len() > 0 {
        law_at_most_one_outstanding(rounds.drop_last());
        let (state, outstanding) = after_rounds(rounds.drop_last());
        match rounds.last() {
            Round::Inhibit(reply) => {
                if state is NotInhibited && reply is Ok {
                    assert(outstanding.insert(reply->Ok_0) =~= Multiset::singleton(reply->Ok_0));
                }
            },
            Round::Uninhibit(reply) => {
                if state is Inhibited && reply is Ok {
                    assert(outstanding.remove(state->Inhibited_0) =~= Multiset::empty());
                }
            },
        }
    }
}

} // verus!
