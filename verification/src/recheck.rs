//! The manual lookup: given a ticket reference, find out whether the ticket
//! is checked in, and either print its badge again or check it in.
//!
//! The lookup never checks a ticket in twice on what it has seen: it asks
//! for a new checkin only where the checkins it fetched hold none for the
//! ticket. Between fetching and asking the service may change, and nothing
//! here can close that gap.

use vstd::prelude::*;

use crate::checkin_output::{project, CheckinPrintable};
use crate::text::same_text;
use crate::tito_types::{AdminTicketResponse, Checkin, NewCheckinBody, Ticket};
use crate::typst_checkin_output::{
    render_step, RenderAction, RenderEvent, RenderState, RenderStep, TypstCheckinOutputError,
};

verus! {

/// Whether the ticket carries exactly this reference.
pub open spec fn refers_to(ticket: Ticket, reference: Seq<char>) -> bool {
    ticket.reference matches Some(held) && held@ == reference
}

/// Whether the ticket at `at` is the first that carries the reference.
pub open spec fn located(tickets: Seq<Ticket>, reference: Seq<char>, at: int) -> bool {
    &&& 0 <= at < tickets.len()
    &&& refers_to(tickets[at], reference)
    &&& forall|before: int| 0 <= before < at ==> !refers_to(tickets[before], reference)
}

/// Whether no ticket carries the reference.
pub open spec fn absent(tickets: Seq<Ticket>, reference: Seq<char>) -> bool {
    forall|at: int| 0 <= at < tickets.len() ==> !refers_to(tickets[at], reference)
}

/// Whether some checkin is for the ticket with this identifier.
pub open spec fn checked_in(checkins: Seq<Checkin>, ticket_id: u64) -> bool {
    exists|at: int| 0 <= at < checkins.len() && checkins[at].ticket_id == ticket_id
}

/// Where the first ticket that carries the reference stands, if any does.
pub fn find_ticket(tickets: &Vec<Ticket>, reference: &str) -> (found: Option<usize>)
    ensures
        match found {
            Some(at) => located(tickets@, reference@, at as int),
            None => absent(tickets@, reference@),
        },
{
    let mut i: usize = 0;
    while i < tickets.len()
        invariant
            i <= tickets.len(),
            forall|before: int| 0 <= before < i ==> !refers_to(tickets@[before], reference@),
        decreases tickets.len() - i,
    {
        let matches = match &tickets[i].reference {
            Some(held) => same_text(held.as_str(), reference),
            None => false,
        };
        if matches {
            return Some(i);
        }
        i = i + 1;
    }
    None
}

/// Whether some checkin is for the ticket with this identifier.
pub fn is_checked_in(checkins: &Vec<Checkin>, ticket_id: u64) -> (found: bool)
    ensures
        found == checked_in(checkins@, ticket_id),
{
    let mut i: usize = 0;
    while i < checkins.len()
        invariant
            i <= checkins.len(),
            forall|at: int| 0 <= at < i ==> checkins@[at].ticket_id != ticket_id,
        decreases checkins.len() - i,
    {
        if checkins[i].ticket_id == ticket_id {
            return true;
        }
        i = i + 1;
    }
    false
}

/// What the snapshots say of a reference.
#[derive(Debug, Clone, Copy, PartialEq, Eq)]
pub enum Reconciliation {
    /// No ticket carries the reference.
    NotFound,
    /// The ticket at this position carries it, and a checkin is there.
    AlreadyCheckedIn { ticket: usize },
    /// The ticket at this position carries it, and no checkin is there.
    NotCheckedIn { ticket: usize },
}

/// Whether `verdict` is what the snapshots say of `reference`.
pub open spec fn reconciled(
    reference: Seq<char>,
    checkins: Seq<Checkin>,
    tickets: Seq<Ticket>,
    verdict: Reconciliation,
) -> bool {
    match verdict {
        Reconciliation::NotFound => absent(tickets, reference),
        Reconciliation::AlreadyCheckedIn { ticket } => located(tickets, reference, ticket as int)
            && checked_in(checkins, tickets[ticket as int].id),
        Reconciliation::NotCheckedIn { ticket } => located(tickets, reference, ticket as int)
            && !checked_in(checkins, tickets[ticket as int].id),
    }
}

/// The snapshots allow one verdict only.
pub proof fn lemma_reconciled_once(
    reference: Seq<char>,
    checkins: Seq<Checkin>,
    tickets: Seq<Ticket>,
    one: Reconciliation,
    other: Reconciliation,
)
    requires
        reconciled(reference, checkins, tickets, one),
        reconciled(reference, checkins, tickets, other),
    ensures
        one == other,
{
}

/// Decides from the two snapshots what is to be done for `reference`: the
/// first ticket that carries it counts, and it is checked in if any checkin
/// names its identifier.
pub fn reconcile(reference: &str, checkins: &Vec<Checkin>, tickets: &Vec<Ticket>) -> (verdict:
    Reconciliation)
    ensures
        reconciled(reference@, checkins@, tickets@, verdict),
{
    match find_ticket(tickets, reference) {
        None => Reconciliation::NotFound,
        Some(at) => {
            if is_checked_in(checkins, tickets[at].id) {
                Reconciliation::AlreadyCheckedIn { ticket: at }
            } else {
                Reconciliation::NotCheckedIn { ticket: at }
            }
        },
    }
}

/// Where the checkins of a list are fetched, and where a new one is sent.
pub open spec fn checkins_url(checkin_slug: Seq<char>) -> Seq<char> {
    "https://checkin.tito.io/checkin_lists/"@ + checkin_slug + "/checkins"@
}

/// Where the tickets of a list are fetched.
pub open spec fn tickets_url(checkin_slug: Seq<char>) -> Seq<char> {
    "https://checkin.tito.io/checkin_lists/"@ + checkin_slug + "/tickets"@
}

/// Where the full details of one ticket are fetched.
pub open spec fn admin_ticket_url(
    account_slug: Seq<char>,
    event_slug: Seq<char>,
    ticket_slug: Seq<char>,
) -> Seq<char> {
    "https://api.tito.io/v3/"@ + account_slug + "/"@ + event_slug + "/tickets/"@ + ticket_slug
}

/// The value of the `Authorization` header that goes with the token.
pub open spec fn authorization(account_token: Seq<char>) -> Seq<char> {
    "Token token="@ + account_token
}

/// The first ticket that carries the reference, if any does.
pub open spec fn ticket_for(tickets: Seq<Ticket>, reference: Seq<char>) -> Option<Ticket> {
    if exists|at: int| located(tickets, reference, at) {
        Some(tickets[choose|at: int| located(tickets, reference, at)])
    } else {
        None
    }
}

/// `ticket_for` is the ticket that `located` points at, and none where the
/// reference is absent.
pub proof fn lemma_ticket_for(tickets: Seq<Ticket>, reference: Seq<char>)
    ensures
        absent(tickets, reference) <==> ticket_for(tickets, reference) is None,
        forall|at: int| #[trigger]
            located(tickets, reference, at) ==> ticket_for(tickets, reference) == Some(
                tickets[at],
            ),
{
    if exists|at: int| located(tickets, reference, at) {
        let chosen = choose|at: int| located(tickets, reference, at);
        assert(refers_to(tickets[chosen], reference));
        assert forall|at: int| #[trigger] located(tickets, reference, at) implies at == chosen by {
            if at < chosen {
                assert(!refers_to(tickets[at], reference));
            } else if chosen < at {
                assert(!refers_to(tickets[chosen], reference));
            }
        }
    } else {
        if !absent(tickets, reference) {
            let first = least_referring(tickets, reference, tickets.len() as int);
            assert(located(tickets, reference, first));
        }
    }
}

/// Below `bound`, where some ticket carries the reference, the least
/// position of one.
proof fn least_referring(tickets: Seq<Ticket>, reference: Seq<char>, bound: int) -> (first: int)
    requires
        0 <= bound <= tickets.len(),
        exists|at: int| 0 <= at < bound && refers_to(tickets[at], reference),
    ensures
        0 <= first < bound,
        located(tickets, reference, first),
    decreases bound,
{
    if exists|at: int| 0 <= at < bound - 1 && refers_to(tickets[at], reference) {
        least_referring(tickets, reference, bound - 1)
    } else {
        assert(refers_to(tickets[bound - 1], reference));
        bound - 1
    }
}

/// What a lookup is asked for, and the credentials it goes with.
#[derive(Debug, Clone, PartialEq, Eq)]
pub struct RecheckRequest {
    /// The reference to look up, for example `JFUD-1`.
    pub reference: String,
    pub account_slug: String,
    pub account_token: String,
    pub checkin_slug: String,
    pub event_slug: String,
}

/// Where a lookup stands.
#[derive(Debug, PartialEq, Eq)]
pub enum RecheckState {
    /// Nothing was asked yet.
    Start,
    /// The checkins of the list were asked for.
    FetchingCheckins,
    /// The checkins are here; the tickets were asked for.
    FetchingTickets { checkins: Vec<Checkin> },
    /// The ticket is checked in; its full details were asked for.
    AlreadyCheckedIn,
    /// The badge is being printed.
    Rendering(RenderState),
    /// The ticket is not checked in; a checkin was asked for.
    NotCheckedIn,
    /// No ticket carries the reference. The lookup is over.
    NotFound,
    /// The badge went to the printer, or failed on the way. The lookup is
    /// over.
    Rendered,
    /// The checkin was made. The lookup is over; the badge follows by the
    /// push stream, if a consumer of it is running.
    Created,
    /// The service could not be reached. The lookup is over.
    Aborted,
}

/// What happened outside since the lookup's last step. `E` is the error of
/// whatever carries the requests.
pub enum RecheckEvent<E> {
    /// The lookup is to begin.
    Begin,
    /// The checkins of the list, or why they did not come.
    Checkins(Result<Vec<Checkin>, E>),
    /// The tickets of the list, or why they did not come.
    Tickets(Result<Vec<Ticket>, E>),
    /// The full details of the ticket, or why they did not come.
    AdminTicket(Result<AdminTicketResponse, E>),
    /// Something happened to the badge that is being printed.
    Job(RenderEvent),
    /// The checkin was made, or why it was not.
    CheckinCreated(Result<(), E>),
}

/// How a lookup that reached the service ended.
#[derive(Debug, PartialEq, Eq)]
pub enum RecheckOutcome {
    /// No ticket carries the reference: the attendee may have none, or the
    /// reference is mistyped.
    NotFound,
    /// The badge with this reference went to the printer.
    Printed(String),
    /// The badge could not be printed. Nothing is tried again.
    PrintFailed(TypstCheckinOutputError),
    /// The ticket was checked in. No badge was printed by the lookup.
    Created,
}

/// What is to be done outside next.
#[derive(Debug, PartialEq, Eq)]
pub enum RecheckAction<E> {
    /// Fetch the checkins of the list from `url`.
    FetchCheckins { url: String },
    /// Fetch the tickets of the list from `url`.
    FetchTickets { url: String },
    /// Fetch the full details of the ticket from `url`, with the header
    /// `Authorization` set to `authorization`.
    FetchAdminTicket { url: String, authorization: String },
    /// Take the printing of the badge one step on.
    Job(RenderAction),
    /// Send `body` to `url` to check the ticket in.
    CreateCheckin { url: String, body: NewCheckinBody },
    /// The lookup is over.
    Finish(RecheckOutcome),
    /// The service could not be reached: the lookup is given up, with the
    /// error as it came.
    Abort(E),
    /// The event was not awaited: it is dropped.
    Nothing,
}

/// One step of a lookup.
#[derive(Debug, PartialEq, Eq)]
pub struct RecheckStep<E> {
    pub state: RecheckState,
    pub action: RecheckAction<E>,
    pub diagnostics: Option<Vec<u8>>,
}

/// The step of a lookup whose badge has taken the step `inner`.
pub open spec fn after_job<E>(job: RenderState, inner: RenderStep) -> RecheckStep<E> {
    match inner.action {
        RenderAction::Finish(Ok(reference)) => RecheckStep {
            state: RecheckState::Rendered,
            action: RecheckAction::Finish(RecheckOutcome::Printed(reference)),
            diagnostics: inner.diagnostics,
        },
        RenderAction::Finish(Err(error)) => RecheckStep {
            state: RecheckState::Rendered,
            action: RecheckAction::Finish(RecheckOutcome::PrintFailed(error)),
            diagnostics: inner.diagnostics,
        },
        RenderAction::Nothing => RecheckStep {
            state: RecheckState::Rendering(job),
            action: RecheckAction::Nothing,
            diagnostics: inner.diagnostics,
        },
        action => RecheckStep {
            state: RecheckState::Rendering(inner.state),
            action: RecheckAction::Job(action),
            diagnostics: inner.diagnostics,
        },
    }
}

/// Whether `step` is the step a lookup for `request` in `state` takes on
/// `event`.
pub open spec fn recheck_step<E>(
    request: RecheckRequest,
    state: RecheckState,
    event: RecheckEvent<E>,
    step: RecheckStep<E>,
) -> bool {
    match (state, event) {
        (RecheckState::Start, RecheckEvent::Begin) => {
            &&& step.state == RecheckState::FetchingCheckins
            &&& step.action matches RecheckAction::FetchCheckins { url }
            &&& url@ == checkins_url(request.checkin_slug@)
            &&& step.diagnostics is None
        },
        (RecheckState::FetchingCheckins, RecheckEvent::Checkins(Ok(checkins))) => {
            &&& step.state == (RecheckState::FetchingTickets { checkins })
            &&& step.action matches RecheckAction::FetchTickets { url }
            &&& url@ == tickets_url(request.checkin_slug@)
            &&& step.diagnostics is None
        },
        (RecheckState::FetchingCheckins, RecheckEvent::Checkins(Err(error))) => {
            step == (RecheckStep {
                state: RecheckState::Aborted,
                action: RecheckAction::Abort(error),
                diagnostics: None,
            })
        },
        (RecheckState::FetchingTickets { checkins }, RecheckEvent::Tickets(Ok(tickets))) => {
            &&& step.diagnostics is None
            &&& match ticket_for(tickets@, request.reference@) {
                None => {
                    &&& step.state == RecheckState::NotFound
                    &&& step.action == RecheckAction::<E>::Finish(RecheckOutcome::NotFound)
                },
                Some(ticket) => if checked_in(checkins@, ticket.id) {
                    &&& step.state == RecheckState::AlreadyCheckedIn
                    &&& step.action matches RecheckAction::FetchAdminTicket { url, authorization }
                    &&& url@ == admin_ticket_url(
                        request.account_slug@,
                        request.event_slug@,
                        ticket.slug@,
                    )
                    &&& authorization@ == self::authorization(request.account_token@)
                } else {
                    &&& step.state == RecheckState::NotCheckedIn
                    &&& step.action matches RecheckAction::CreateCheckin { url, body }
                    &&& url@ == checkins_url(request.checkin_slug@)
                    &&& body.spec_ticket_id() == ticket.id
                },
            }
        },
        (RecheckState::FetchingTickets { checkins }, RecheckEvent::Tickets(Err(error))) => {
            step == (RecheckStep {
                state: RecheckState::Aborted,
                action: RecheckAction::Abort(error),
                diagnostics: None,
            })
        },
        (RecheckState::AlreadyCheckedIn, RecheckEvent::AdminTicket(Ok(response))) => {
            &&& step.state matches RecheckState::Rendering(
                RenderState::ReadingTemplate { badge },
            )
            &&& badge@ == response.ticket.projection()
            &&& step.action == RecheckAction::<E>::Job(RenderAction::ReadTemplate)
            &&& step.diagnostics is None
        },
        (RecheckState::AlreadyCheckedIn, RecheckEvent::AdminTicket(Err(error))) => {
            step == (RecheckStep {
                state: RecheckState::Aborted,
                action: RecheckAction::Abort(error),
                diagnostics: None,
            })
        },
        (RecheckState::Rendering(job), RecheckEvent::Job(happened)) => {
            exists|inner: RenderStep| #[trigger]
                render_step(job, happened, inner) && step == after_job::<E>(job, inner)
        },
        (RecheckState::NotCheckedIn, RecheckEvent::CheckinCreated(Ok(_))) => {
            step == (RecheckStep {
                state: RecheckState::Created,
                action: RecheckAction::<E>::Finish(RecheckOutcome::Created),
                diagnostics: None,
            })
        },
        (RecheckState::NotCheckedIn, RecheckEvent::CheckinCreated(Err(error))) => {
            step == (RecheckStep {
                state: RecheckState::Aborted,
                action: RecheckAction::Abort(error),
                diagnostics: None,
            })
        },
        _ => {
            step == (RecheckStep {
                state,
                action: RecheckAction::<E>::Nothing,
                diagnostics: None,
            })
        },
    }
}

/// The step that gives a lookup up.
fn aborted<E>(error: E) -> (step: RecheckStep<E>)
    ensures
        step == (RecheckStep {
            state: RecheckState::Aborted,
            action: RecheckAction::Abort(error),
            diagnostics: None,
        }),
{
    RecheckStep { state: RecheckState::Aborted, action: RecheckAction::Abort(error), diagnostics: None }
}

/// The step of a lookup whose badge has taken the step `inner`.
fn lift<E>(job: Ghost<RenderState>, inner: RenderStep) -> (step: RecheckStep<E>)
    requires
        inner.action is Nothing ==> inner.state == job@,
    ensures
        step == after_job::<E>(job@, inner),
{
    let RenderStep { state, action, diagnostics } = inner;
    match action {
        RenderAction::Finish(Ok(reference)) => RecheckStep {
            state: RecheckState::Rendered,
            action: RecheckAction::Finish(RecheckOutcome::Printed(reference)),
            diagnostics,
        },
        RenderAction::Finish(Err(error)) => RecheckStep {
            state: RecheckState::Rendered,
            action: RecheckAction::Finish(RecheckOutcome::PrintFailed(error)),
            diagnostics,
        },
        RenderAction::Nothing => RecheckStep {
            state: RecheckState::Rendering(state),
            action: RecheckAction::Nothing,
            diagnostics,
        },
        action => RecheckStep {
            state: RecheckState::Rendering(state),
            action: RecheckAction::Job(action),
            diagnostics,
        },
    }
}

impl RecheckRequest {
    /// Where the checkins of the list are fetched, and where a new one is
    /// sent.
    pub fn checkins_url(&self) -> (url: String)
        ensures
            url@ == checkins_url(self.checkin_slug@),
    {
        let mut url = "https://checkin.tito.io/checkin_lists/".to_owned();
        url.append(self.checkin_slug.as_str());
        url.append("/checkins");
        url
    }

    /// Where the tickets of the list are fetched.
    pub fn tickets_url(&self) -> (url: String)
        ensures
            url@ == tickets_url(self.checkin_slug@),
    {
        let mut url = "https://checkin.tito.io/checkin_lists/".to_owned();
        url.append(self.checkin_slug.as_str());
        url.append("/tickets");
        url
    }

    /// Where the full details of the ticket with this slug are fetched.
    pub fn admin_ticket_url(&self, ticket_slug: &str) -> (url: String)
        ensures
            url@ == admin_ticket_url(self.account_slug@, self.event_slug@, ticket_slug@),
    {
        let mut url = "https://api.tito.io/v3/".to_owned();
        url.append(self.account_slug.as_str());
        url.append("/");
        url.append(self.event_slug.as_str());
        url.append("/tickets/");
        url.append(ticket_slug);
        url
    }

    /// The value of the `Authorization` header for the full details.
    pub fn authorization(&self) -> (value: String)
        ensures
            value@ == authorization(self.account_token@),
    {
        let mut value = "Token token=".to_owned();
        value.append(self.account_token.as_str());
        value
    }

    /// Takes the lookup one step on, given what happened outside.
    pub fn advance<E>(&self, state: RecheckState, event: RecheckEvent<E>) -> (step: RecheckStep<E>)
        ensures
            recheck_step(*self, state, event, step),
    {
        match (state, event) {
            (RecheckState::Start, RecheckEvent::Begin) => RecheckStep {
                state: RecheckState::FetchingCheckins,
                action: RecheckAction::FetchCheckins { url: self.checkins_url() },
                diagnostics: None,
            },
            (RecheckState::FetchingCheckins, RecheckEvent::Checkins(Ok(checkins))) => RecheckStep {
                state: RecheckState::FetchingTickets { checkins },
                action: RecheckAction::FetchTickets { url: self.tickets_url() },
                diagnostics: None,
            },
            (RecheckState::FetchingCheckins, RecheckEvent::Checkins(Err(error))) => aborted(error),
            (RecheckState::FetchingTickets { checkins }, RecheckEvent::Tickets(Ok(tickets))) => {
                proof {
                    lemma_ticket_for(tickets@, self.reference@);
                }
                match reconcile(self.reference.as_str(), &checkins, &tickets) {
                    Reconciliation::NotFound => RecheckStep {
                        state: RecheckState::NotFound,
                        action: RecheckAction::Finish(RecheckOutcome::NotFound),
                        diagnostics: None,
                    },
                    Reconciliation::AlreadyCheckedIn { ticket } => RecheckStep {
                        state: RecheckState::AlreadyCheckedIn,
                        action: RecheckAction::FetchAdminTicket {
                            url: self.admin_ticket_url(tickets[ticket].slug.as_str()),
                            authorization: self.authorization(),
                        },
                        diagnostics: None,
                    },
                    Reconciliation::NotCheckedIn { ticket } => RecheckStep {
                        state: RecheckState::NotCheckedIn,
                        action: RecheckAction::CreateCheckin {
                            url: self.checkins_url(),
                            body: NewCheckinBody::new(tickets[ticket].id),
                        },
                        diagnostics: None,
                    },
                }
            },
            (RecheckState::FetchingTickets { checkins }, RecheckEvent::Tickets(Err(error))) => {
                aborted(error)
            },
            (RecheckState::AlreadyCheckedIn, RecheckEvent::AdminTicket(Ok(response))) => {
                RecheckStep {
                    state: RecheckState::Rendering(
                        RenderState::ReadingTemplate { badge: project(&response.ticket) },
                    ),
                    action: RecheckAction::Job(RenderAction::ReadTemplate),
                    diagnostics: None,
                }
            },
            (RecheckState::AlreadyCheckedIn, RecheckEvent::AdminTicket(Err(error))) => {
                aborted(error)
            },
            (RecheckState::Rendering(job), RecheckEvent::Job(happened)) => {
                let ghost before = job;
                let inner = job.advance(happened);
                lift(Ghost(before), inner)
            },
            (RecheckState::NotCheckedIn, RecheckEvent::CheckinCreated(Ok(_))) => RecheckStep {
                state: RecheckState::Created,
                action: RecheckAction::Finish(RecheckOutcome::Created),
                diagnostics: None,
            },
            (RecheckState::NotCheckedIn, RecheckEvent::CheckinCreated(Err(error))) => {
                aborted(error)
            },
            (state, _) => RecheckStep { state, action: RecheckAction::Nothing, diagnostics: None },
        }
    }
}

/// The state a lookup is in when it takes its step number `at`: the state
/// its step before left, and `Start` for the first.
pub open spec fn state_before<E>(steps: Seq<RecheckStep<E>>, at: int) -> RecheckState {
    if at <= 0 {
        RecheckState::Start
    } else {
        steps[at - 1].state
    }
}

/// Whether `steps` are the steps that a lookup for `request` takes, from
/// its start, on `events` in turn.
pub open spec fn recheck_run<E>(
    request: RecheckRequest,
    events: Seq<RecheckEvent<E>>,
    steps: Seq<RecheckStep<E>>,
) -> bool {
    &&& steps.len() == events.len()
    &&& forall|at: int|
        0 <= at < steps.len() ==> recheck_step(
            request,
            state_before(steps, at),
            events[at],
            #[trigger] steps[at],
        )
}

/// How far a lookup has come. No step takes it back.
spec fn progress(state: RecheckState) -> int {
    match state {
        RecheckState::Start => 0,
        RecheckState::FetchingCheckins => 1,
        RecheckState::FetchingTickets { .. } => 2,
        RecheckState::AlreadyCheckedIn => 3,
        RecheckState::NotCheckedIn => 3,
        RecheckState::Rendering(_) => 4,
        RecheckState::NotFound => 5,
        RecheckState::Rendered => 5,
        RecheckState::Created => 5,
        RecheckState::Aborted => 5,
    }
}

proof fn lemma_progress<E>(
    request: RecheckRequest,
    events: Seq<RecheckEvent<E>>,
    steps: Seq<RecheckStep<E>>,
    from: int,
    to: int,
)
    requires
        recheck_run(request, events, steps),
        0 <= from <= to <= steps.len(),
    ensures
        progress(state_before(steps, from)) <= progress(state_before(steps, to)),
    decreases to - from,
{
    if from < to {
        lemma_progress(request, events, steps, from, to - 1);
        assert(recheck_step(request, state_before(steps, to - 1), events[to - 1], steps[to - 1]));
    }
}

/// The checkins a lookup holds while it waits for the tickets are those
/// that an earlier event brought.
proof fn lemma_checkins_were_fetched<E>(
    request: RecheckRequest,
    events: Seq<RecheckEvent<E>>,
    steps: Seq<RecheckStep<E>>,
    at: int,
) -> (from: int)
    requires
        recheck_run(request, events, steps),
        0 <= at <= steps.len(),
        state_before(steps, at) is FetchingTickets,
    ensures
        0 <= from < at,
        events[from] == RecheckEvent::<E>::Checkins(Ok(state_before(steps, at)->checkins)),
    decreases at,
{
    assert(at > 0);
    assert(recheck_step(request, state_before(steps, at - 1), events[at - 1], steps[at - 1]));
    if state_before(steps, at - 1) is FetchingCheckins {
        at - 1
    } else {
        assert(state_before(steps, at - 1) == state_before(steps, at));
        lemma_checkins_were_fetched(request, events, steps, at - 1)
    }
}

/// A lookup asks for a checkin only on the tickets' arrival, for the first
/// ticket that carries the reference, and only where the checkins that were
/// fetched before hold none for that ticket. It does so once at most.
pub proof fn lemma_creates_only_when_absent<E>(
    request: RecheckRequest,
    events: Seq<RecheckEvent<E>>,
    steps: Seq<RecheckStep<E>>,
    at: int,
)
    requires
        recheck_run(request, events, steps),
        0 <= at < steps.len(),
        steps[at].action is CreateCheckin,
    ensures
        state_before(steps, at) is FetchingTickets,
        exists|from: int|
            0 <= from < at && #[trigger] events[from] == RecheckEvent::<E>::Checkins(
                Ok(state_before(steps, at)->checkins),
            ),
        events[at] matches RecheckEvent::Tickets(Ok(tickets)) && ticket_for(
            tickets@,
            request.reference@,
        ) matches Some(ticket) && steps[at].action->body.spec_ticket_id() == ticket.id
            && !checked_in(state_before(steps, at)->checkins@, ticket.id),
        forall|other: int|
            0 <= other < steps.len() && other != at ==> !(#[trigger] steps[other].action
                is CreateCheckin),
{
    assert(recheck_step(request, state_before(steps, at), events[at], steps[at]));
    let from = lemma_checkins_were_fetched(request, events, steps, at);
    assert(events[from] == RecheckEvent::<E>::Checkins(Ok(state_before(steps, at)->checkins)));
    assert forall|other: int| 0 <= other < steps.len() && other != at implies !(
    #[trigger] steps[other].action is CreateCheckin) by {
        assert(recheck_step(request, state_before(steps, other), events[other], steps[other]));
        if steps[other].action is CreateCheckin {
            if other < at {
                lemma_progress(request, events, steps, other + 1, at);
            } else {
                lemma_progress(request, events, steps, at + 1, other);
            }
        }
    }
}

/// A ticket that the fetched checkins show as checked in is never checked
/// in again: where the tickets arrive and the checkins held from before
/// have one for the ticket that carries the reference, the lookup goes on
/// to fetch the ticket's details, and no step of its run asks for a checkin.
pub proof fn lemma_never_checks_in_twice<E>(
    request: RecheckRequest,
    events: Seq<RecheckEvent<E>>,
    steps: Seq<RecheckStep<E>>,
    at: int,
)
    requires
        recheck_run(request, events, steps),
        0 <= at < steps.len(),
        state_before(steps, at) is FetchingTickets,
        events[at] matches RecheckEvent::Tickets(Ok(tickets)) && ticket_for(
            tickets@,
            request.reference@,
        ) matches Some(ticket) && checked_in(state_before(steps, at)->checkins@, ticket.id),
    ensures
        steps[at].state == RecheckState::AlreadyCheckedIn,
        steps[at].action is FetchAdminTicket,
        forall|other: int|
            0 <= other < steps.len() ==> !(#[trigger] steps[other].action is CreateCheckin),
{
    assert(recheck_step(request, state_before(steps, at), events[at], steps[at]));
    assert forall|other: int| 0 <= other < steps.len() implies !(
    #[trigger] steps[other].action is CreateCheckin) by {
        if steps[other].action is CreateCheckin {
            lemma_creates_only_when_absent(request, events, steps, other);
            if other < at {
                lemma_progress(request, events, steps, other + 1, at);
            } else if at < other {
                lemma_progress(request, events, steps, at + 1, other);
            }
        }
    }
}

/// Whether the lookup is over.
pub open spec fn is_over(state: RecheckState) -> bool {
    state is NotFound || state is Rendered || state is Created || state is Aborted
}

/// A lookup that is over stays over: whatever is handed to it afterwards is
/// dropped, so nothing is fetched, sent or printed a second time.
pub proof fn lemma_over_is_over<E>(
    request: RecheckRequest,
    events: Seq<RecheckEvent<E>>,
    steps: Seq<RecheckStep<E>>,
    at: int,
    later: int,
)
    requires
        recheck_run(request, events, steps),
        0 <= at < later < steps.len(),
        is_over(steps[at].state),
    ensures
        steps[later].state == steps[at].state,
        steps[later].action == RecheckAction::<E>::Nothing,
    decreases later - at,
{
    if at + 1 < later {
        lemma_over_is_over(request, events, steps, at, later - 1);
    }
    assert(recheck_step(request, state_before(steps, later), events[later], steps[later]));
}

/// Where the tickets that arrive hold none with the reference, the lookup
/// ends there as not found, and in all of its run it neither asks for a
/// checkin nor touches the printing of a badge.
pub proof fn lemma_not_found_is_safe<E>(
    request: RecheckRequest,
    events: Seq<RecheckEvent<E>>,
    steps: Seq<RecheckStep<E>>,
    at: int,
)
    requires
        recheck_run(request, events, steps),
        0 <= at < steps.len(),
        state_before(steps, at) is FetchingTickets,
        events[at] matches RecheckEvent::Tickets(Ok(tickets)) && absent(
            tickets@,
            request.reference@,
        ),
    ensures
        steps[at].state == RecheckState::NotFound,
        steps[at].action == RecheckAction::<E>::Finish(RecheckOutcome::NotFound),
        forall|other: int|
            0 <= other < steps.len() ==> !(#[trigger] steps[other].action is CreateCheckin)
                && !(steps[other].action is Job),
        forall|later: int|
            at < later < steps.len() ==> #[trigger] steps[later].action
                == RecheckAction::<E>::Nothing,
{
    assert(recheck_step(request, state_before(steps, at), events[at], steps[at]));
    lemma_ticket_for(events[at]->Tickets_0->Ok_0@, request.reference@);
    assert forall|later: int| at < later < steps.len() implies #[trigger] steps[later].action
        == RecheckAction::<E>::Nothing by {
        lemma_progress(request, events, steps, at + 1, later);
        assert(recheck_step(request, state_before(steps, later), events[later], steps[later]));
    }
    assert forall|other: int| 0 <= other < steps.len() implies !(
    #[trigger] steps[other].action is CreateCheckin) && !(steps[other].action is Job) by {
        assert(recheck_step(request, state_before(steps, other), events[other], steps[other]));
        if other < at {
            lemma_progress(request, events, steps, other, at);
            lemma_progress(request, events, steps, other + 1, at);
        }
    }
}

} // verus!
