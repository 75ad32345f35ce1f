//! Refreshes and order mutations as steps. Each step is pure computation on
//! the session; the caller performs the gateway call that the returned action
//! names, without holding the session, and hands the answer back as an event.
use vstd::prelude::*;

use crate::error::SessionError;
use crate::order::{Order, OrderRequest};
use crate::session::{Page, Resource, SessionView, Snapshot, State};
use crate::snapshot::{Balances, Position};
use crate::status::OrderStatus;
use tradier::types::AccountNumber;

verus! {

/// What a workflow was started for.
#[derive(Clone, Debug)]
pub enum Operation {
    /// Fetch one resource and commit it.
    Refresh(Resource),
    /// Cancel the order with this id, then refresh the orders.
    Cancel(u64),
    /// Submit this order, then show and refresh the orders.
    Place(OrderRequest),
}

/// Where a workflow stands: what answer it waits for.
#[derive(Clone, Copy, Debug, PartialEq, Eq, Structural)]
pub enum Stage {
    /// The account, before a cancel or a submission.
    ResolveForMutation,
    /// The broker's answer to a cancel or a submission.
    AwaitAck,
    /// The account, before the fetch.
    ResolveForFetch,
    /// The fetched resource.
    AwaitFetch,
    /// Nothing: the workflow is over.
    Done,
}

/// A gateway call for the caller to make.
pub enum Action {
    /// Fetch the profile and resolve its account with `resolve_account`.
    FetchProfile,
    FetchBalances(AccountNumber),
    FetchPositions(AccountNumber),
    /// Fetch the account's orders as the broker lists them by default.
    FetchOrders(AccountNumber),
    CancelOrder(AccountNumber, u64),
    PlaceOrder(AccountNumber, OrderRequest),
    /// No call: the workflow is over.
    Finished,
}

/// The answer to an action. A failure carries the gateway's own words.
pub enum Event {
    /// What `resolve_account` made of the fetched profile.
    Account(Result<AccountNumber, SessionError>),
    Balances(Result<Balances, String>),
    Positions(Result<Vec<Position>, String>),
    Orders(Result<Vec<Order>, String>),
    Acknowledged(Result<(), String>),
}

/// The resource that a workflow fetches at its end.
pub open spec fn target(op: Operation) -> Resource {
    match op {
        Operation::Refresh(r) => r,
        _ => Resource::Orders,
    }
}

/// The text that a failure to resolve the account leaves in the session.
pub open spec fn profile_text() -> Seq<char> {
    "no account is available in the profile"@
}

/// The snapshot a fetch answer delivers for `r`, if it is an answer for `r`
/// and it succeeded.
pub open spec fn fetched(r: Resource, e: Event) -> Option<Snapshot> {
    match (r, e) {
        (Resource::Balances, Event::Balances(Ok(b))) => Some(Snapshot::Balances(b)),
        (Resource::Positions, Event::Positions(Ok(p))) => Some(Snapshot::Positions(p)),
        (Resource::Orders, Event::Orders(Ok(o))) => Some(Snapshot::Orders(o)),
        _ => None,
    }
}

/// The gateway's words, if `e` is a failed answer for `r`.
pub open spec fn fetch_failure(r: Resource, e: Event) -> Option<Seq<char>> {
    match (r, e) {
        (Resource::Balances, Event::Balances(Err(m))) => Some(m@),
        (Resource::Positions, Event::Positions(Err(m))) => Some(m@),
        (Resource::Orders, Event::Orders(Err(m))) => Some(m@),
        _ => None,
    }
}

/// The stage after event `e` arrives in stage `stage`. A cancel or a
/// submission is always followed by a refresh, whatever its outcome; an
/// answer that does not fit the stage ends the workflow.
pub open spec fn stage_after(stage: Stage, e: Event) -> Stage {
    match (stage, e) {
        (Stage::ResolveForMutation, Event::Account(Ok(_))) => Stage::AwaitAck,
        (Stage::ResolveForMutation, Event::Account(Err(_))) => Stage::ResolveForFetch,
        (Stage::AwaitAck, Event::Acknowledged(_)) => Stage::ResolveForFetch,
        (Stage::ResolveForFetch, Event::Account(Ok(_))) => Stage::AwaitFetch,
        _ => Stage::Done,
    }
}

/// The session once a mutation is over: a submission shows the orders and
/// lets the next submission start.
pub open spec fn after_mutation(op: Operation, v: SessionView) -> SessionView {
    if op is Place {
        SessionView { page: Page::Orders, submitting: false, ..v }
    } else {
        v
    }
}

/// The failure workflow `op` records after event `e` arrives in stage `stage`,
/// given the failure `before` it had recorded: a failed resolution records
/// its error, a failed mutation or fetch records a gateway error, anything
/// else keeps what was recorded.
pub open spec fn failure_after(
    op: Operation,
    stage: Stage,
    e: Event,
    before: Option<SessionError>,
) -> Option<SessionError> {
    match (stage, e) {
        (Stage::ResolveForMutation, Event::Account(Err(x))) => Some(x),
        (Stage::ResolveForFetch, Event::Account(Err(x))) => Some(x),
        (Stage::AwaitAck, Event::Acknowledged(Err(_))) => Some(SessionError::GatewayError),
        (Stage::AwaitFetch, _) => if fetch_failure(target(op), e) is Some {
            Some(SessionError::GatewayError)
        } else {
            before
        },
        _ => before,
    }
}

/// The session after event `e` arrives in stage `stage` of workflow `op`,
/// which has recorded the failure `failure` so far. Only a successful fetch
/// of the target touches a snapshot, and it replaces it whole; every failure
/// leaves the snapshots as they were. A failure stays on display until a
/// later failure replaces it: the refresh that follows a failed mutation
/// does not clear it.
pub open spec fn session_after(
    op: Operation,
    stage: Stage,
    failure: Option<SessionError>,
    v: SessionView,
    e: Event,
) -> SessionView {
    match (stage, e) {
        (Stage::ResolveForMutation, Event::Account(Err(_))) => after_mutation(op, v).with_text(
            profile_text(),
        ),
        (Stage::AwaitAck, Event::Acknowledged(Ok(_))) => after_mutation(op, v).with_text(
            Seq::empty(),
        ),
        (Stage::AwaitAck, Event::Acknowledged(Err(m))) => after_mutation(op, v).with_text(m@),
        (Stage::ResolveForFetch, Event::Account(Err(_))) => v.with_text(profile_text()),
        (Stage::AwaitFetch, _) => match fetched(target(op), e) {
            Some(snap) => if failure is Some {
                v.install(snap).with_text(v.debug_text)
            } else {
                v.install(snap)
            },
            None => match fetch_failure(target(op), e) {
                Some(m) => v.with_text(m),
                None => v,
            },
        },
        _ => v,
    }
}

/// The action that stage `stage` of workflow `op` asks for, given the
/// account just resolved where the stage follows a resolution.
pub open spec fn action_for(op: Operation, stage: Stage, account: Option<AccountNumber>, a: Action) -> bool {
    match stage {
        Stage::ResolveForMutation => a is FetchProfile,
        Stage::ResolveForFetch => a is FetchProfile,
        Stage::AwaitAck => match (op, account) {
            (Operation::Cancel(id), Some(n)) => a == Action::CancelOrder(n, id),
            (Operation::Place(req), Some(n)) => a == Action::PlaceOrder(n, req),
            _ => false,
        },
        Stage::AwaitFetch => match (target(op), account) {
            (Resource::Balances, Some(n)) => a == Action::FetchBalances(n),
            (Resource::Positions, Some(n)) => a == Action::FetchPositions(n),
            (Resource::Orders, Some(n)) => a == Action::FetchOrders(n),
            _ => false,
        },
        Stage::Done => a is Finished,
    }
}

/// The account an event resolved, if it resolved one.
pub open spec fn resolved(e: Event) -> Option<AccountNumber> {
    match e {
        Event::Account(Ok(n)) => Some(n),
        _ => None,
    }
}

/// One refresh or order mutation in progress.
pub struct Flow {
    op: Operation,
    stage: Stage,
    failure: Option<SessionError>,
}

impl Flow {
    /// A refresh never waits on a mutation.
    #[verifier::type_invariant]
    spec fn consistent(self) -> bool {
        self.op is Refresh ==> self.stage != Stage::ResolveForMutation && self.stage
            != Stage::AwaitAck
    }

    pub closed spec fn operation(&self) -> Operation {
        self.op
    }

    pub closed spec fn current(&self) -> Stage {
        self.stage
    }

    pub closed spec fn recorded(&self) -> Option<SessionError> {
        self.failure
    }

    /// A workflow for `op`, with the action it starts with: every workflow
    /// starts by resolving the account.
    pub fn start(op: Operation) -> (r: (Flow, Action))
        ensures
            r.0.operation() == op,
            r.0.current() == (if op is Refresh {
                Stage::ResolveForFetch
            } else {
                Stage::ResolveForMutation
            }),
            r.0.recorded() is None,
            r.1 is FetchProfile,
    {
        let stage = match &op {
            Operation::Refresh(_) => Stage::ResolveForFetch,
            _ => Stage::ResolveForMutation,
        };
        (Flow { op, stage, failure: None }, Action::FetchProfile)
    }

    /// The latest failure of this workflow, if any: its outcome once it is
    /// over.
    pub fn failure(&self) -> (r: Option<SessionError>)
        ensures
            r == self.recorded(),
    {
        self.failure
    }

    /// Whether the workflow is over.
    pub fn is_done(&self) -> (r: bool)
        ensures
            r == (self.current() == Stage::Done),
    {
        self.stage == Stage::Done
    }

    /// The resource this workflow fetches at its end.
    pub fn target(&self) -> (r: Resource)
        ensures
            r == target(self.operation()),
    {
        match &self.op {
            Operation::Refresh(r) => *r,
            _ => Resource::Orders,
        }
    }

    /// Ends a mutation: a submission switches to the orders page and ends
    /// the submission in flight.
    fn finish_mutation(&self, state: &mut State)
        ensures
            final(state)@ == after_mutation(self.operation(), old(state)@),
    {
        if let Operation::Place(_) = &self.op {
            state.end_submission();
        }
    }

    /// Commits a fetched snapshot. After a failure of this workflow its text
    /// stays on display.
    fn commit(&self, state: &mut State, snap: Snapshot)
        ensures
            final(state)@ == (if self.recorded() is Some {
                old(state)@.install(snap).with_text(old(state)@.debug_text)
            } else {
                old(state)@.install(snap)
            }),
    {
        if self.failure.is_some() {
            state.install_keeping_text(snap);
        } else {
            state.install(snap);
        }
    }

    /// Takes the answer to the last action: updates the session and returns
    /// the next action. No gateway call happens here, so the caller may hold
    /// the session only for this step.
    pub fn step(&mut self, state: &mut State, event: Event) -> (r: Action)
        ensures
            final(self).operation() == old(self).operation(),
            final(self).current() == stage_after(old(self).current(), event),
            final(self).recorded() == failure_after(
                old(self).operation(),
                old(self).current(),
                event,
                old(self).recorded(),
            ),
            final(state)@ == session_after(
                old(self).operation(),
                old(self).current(),
                old(self).recorded(),
                old(state)@,
                event,
            ),
            action_for(final(self).operation(), final(self).current(), resolved(event), r),
    {
        proof {
            use_type_invariant(&*self);
        }
        let target = self.target();
        match self.stage {
            Stage::ResolveForMutation => match event {
                Event::Account(Ok(n)) => {
                    let a = match &self.op {
                        Operation::Cancel(id) => Action::CancelOrder(n, *id),
                        Operation::Place(req) => Action::PlaceOrder(n, req.duplicate()),
                        Operation::Refresh(_) => Action::Finished,
                    };
                    self.stage = Stage::AwaitAck;
                    a
                },
                Event::Account(Err(x)) => {
                    self.finish_mutation(state);
                    state.report(profile_message());
                    self.failure = Some(x);
                    self.stage = Stage::ResolveForFetch;
                    Action::FetchProfile
                },
                _ => {
                    self.stage = Stage::Done;
                    Action::Finished
                },
            },
            Stage::AwaitAck => match event {
                Event::Acknowledged(outcome) => {
                    self.finish_mutation(state);
                    match outcome {
                        Ok(_) => state.report(String::new()),
                        Err(m) => {
                            state.report(m);
                            self.failure = Some(SessionError::GatewayError);
                        },
                    }
                    self.stage = Stage::ResolveForFetch;
                    Action::FetchProfile
                },
                _ => {
                    self.stage = Stage::Done;
                    Action::Finished
                },
            },
            Stage::ResolveForFetch => match event {
                Event::Account(Ok(n)) => {
                    self.stage = Stage::AwaitFetch;
                    match target {
                        Resource::Balances => Action::FetchBalances(n),
                        Resource::Positions => Action::FetchPositions(n),
                        Resource::Orders => Action::FetchOrders(n),
                    }
                },
                Event::Account(Err(x)) => {
                    state.report(profile_message());
                    self.failure = Some(x);
                    self.stage = Stage::Done;
                    Action::Finished
                },
                _ => {
                    self.stage = Stage::Done;
                    Action::Finished
                },
            },
            Stage::AwaitFetch => {
                match (target, event) {
                    (Resource::Balances, Event::Balances(Ok(b))) => self.commit(
                        state,
                        Snapshot::Balances(b),
                    ),
                    (Resource::Positions, Event::Positions(Ok(p))) => self.commit(
                        state,
                        Snapshot::Positions(p),
                    ),
                    (Resource::Orders, Event::Orders(Ok(o))) => self.commit(
                        state,
                        Snapshot::Orders(o),
                    ),
                    (Resource::Balances, Event::Balances(Err(m))) => {
                        state.report(m);
                        self.failure = Some(SessionError::GatewayError);
                    },
                    (Resource::Positions, Event::Positions(Err(m))) => {
                        state.report(m);
                        self.failure = Some(SessionError::GatewayError);
                    },
                    (Resource::Orders, Event::Orders(Err(m))) => {
                        state.report(m);
                        self.failure = Some(SessionError::GatewayError);
                    },
                    _ => {},
                }
                self.stage = Stage::Done;
                Action::Finished
            },
            Stage::Done => Action::Finished,
        }
    }
}

/// An answer that reports a failure: the account could not be resolved, or a
/// fetch or mutation failed.
pub open spec fn is_failure(e: Event) -> bool {
    match e {
        Event::Account(r) => r is Err,
        Event::Balances(r) => r is Err,
        Event::Positions(r) => r is Err,
        Event::Orders(r) => r is Err,
        Event::Acknowledged(r) => r is Err,
    }
}

/// A failure, at whatever stage of whatever workflow, leaves the balances,
/// positions and orders exactly as they were: no snapshot is blanked or
/// partly overwritten.
pub proof fn lemma_failure_keeps_snapshots(
    op: Operation,
    stage: Stage,
    failure: Option<SessionError>,
    v: SessionView,
    e: Event,
)
    requires
        is_failure(e),
    ensures
        session_after(op, stage, failure, v, e).same_snapshots(v),
{
}

/// The orders of `orders` with id `id` are all canceled, rejected or in
/// error; an absent order passes too.
pub open spec fn reflects_cancel(orders: Seq<Order>, id: u64) -> bool {
    forall|i: int|
        0 <= i < orders.len() && #[trigger] orders[i].id == id ==> {
            ||| orders[i].status == OrderStatus::Canceled
            ||| orders[i].status == OrderStatus::Rejected
            ||| orders[i].status == OrderStatus::Error
        }
}

/// Once the broker acknowledges a cancel, the workflow resolves the account
/// again and fetches the orders, and the fetched list replaces the orders
/// whole. So where the broker's list reflects the cancel, so do the
/// session's orders.
pub proof fn lemma_cancel_then_refresh(
    id: u64,
    v: SessionView,
    account: AccountNumber,
    fresh: Vec<Order>,
)
    requires
        reflects_cancel(fresh@, id),
    ensures
        ({
            let op = Operation::Cancel(id);
            let ack = Event::Acknowledged(Ok(()));
            let resolve = Event::Account(Ok(account));
            let fetch = Event::Orders(Ok(fresh));
            let s1 = stage_after(Stage::AwaitAck, ack);
            let f1 = failure_after(op, Stage::AwaitAck, ack, None);
            let v1 = session_after(op, Stage::AwaitAck, None, v, ack);
            let s2 = stage_after(s1, resolve);
            let f2 = failure_after(op, s1, resolve, f1);
            let v2 = session_after(op, s1, f1, v1, resolve);
            let v3 = session_after(op, s2, f2, v2, fetch);
            &&& s1 == Stage::ResolveForFetch
            &&& s2 == Stage::AwaitFetch
            &&& stage_after(s2, fetch) == Stage::Done
            &&& v3.orders == Some(fresh@)
            &&& reflects_cancel(v3.orders->0, id)
        }),
{
}

/// A cancel or a submission that the broker refuses stays on display: the
/// refresh that follows replaces the orders, and where it succeeds the
/// broker's words `m` are still the diagnostic text at the end, and the
/// workflow's outcome is a gateway error.
pub proof fn lemma_failed_mutation_stays_surfaced(
    op: Operation,
    v: SessionView,
    m: String,
    account: AccountNumber,
    fresh: Vec<Order>,
)
    requires
        !(op is Refresh),
    ensures
        ({
            let ack = Event::Acknowledged(Err(m));
            let resolve = Event::Account(Ok(account));
            let fetch = Event::Orders(Ok(fresh));
            let s1 = stage_after(Stage::AwaitAck, ack);
            let f1 = failure_after(op, Stage::AwaitAck, ack, None);
            let v1 = session_after(op, Stage::AwaitAck, None, v, ack);
            let s2 = stage_after(s1, resolve);
            let f2 = failure_after(op, s1, resolve, f1);
            let v2 = session_after(op, s1, f1, v1, resolve);
            let f3 = failure_after(op, s2, fetch, f2);
            let v3 = session_after(op, s2, f2, v2, fetch);
            &&& s1 == Stage::ResolveForFetch
            &&& s2 == Stage::AwaitFetch
            &&& stage_after(s2, fetch) == Stage::Done
            &&& v3.orders == Some(fresh@)
            &&& v3.debug_text == m@
            &&& f3 == Some(SessionError::GatewayError)
        }),
{
}

/// The text left in the session when the account cannot be resolved.
fn profile_message() -> (r: String)
    ensures
        r@ == profile_text(),
{
    "no account is available in the profile".to_owned()
}

} // verus!
