//! The change of an address, from the request to the moment the new one is seen.
use vstd::prelude::*;

use crate::boil::{
    exchange_gives, is_rate_limited, reported_failure, speaks_of_rate_limit, ApiError,
    GetIpResponse, HttpReply,
};
use crate::json::{json_of_text, opt_text};
use crate::quality::IpQuality;
use crate::text::same_text;

verus! {

/// Seconds between the request for a new address and the first round of polling.
pub const SETTLE_SECS: u64 = 8;

/// Seconds before each poll.
pub const POLL_SECS: u64 = 6;

/// How often the address is polled at most.
pub const POLL_ROUNDS: u8 = 10;

/// What a change of address led to.
#[derive(Debug)]
pub struct ReconnectResult {
    /// The address before, where it could be learned.
    pub old_ip: Option<String>,
    /// The address after, where one was seen that is not the old one.
    pub new_ip: Option<String>,
    pub reachable: bool,
    pub quality: Option<IpQuality>,
}

/// How far a change of address has come. Each state waits for the outcome of one action.
pub enum ReconnectState {
    /// The old address is asked for.
    Started,
    /// The new address is requested.
    Changing { old_ip: Option<String> },
    /// The change is given time to begin.
    Settling { old_ip: Option<String> },
    /// The poll after `round` others is put off.
    Pausing { old_ip: Option<String>, round: u8 },
    /// The address is polled, after `round` polls before.
    Polling { old_ip: Option<String>, round: u8 },
    /// The new address is tried and rated.
    Probing { old_ip: Option<String>, new_ip: String },
    /// Nothing is left to do.
    Finished { result: Result<ReconnectResult, ApiError> },
}

/// What is to be done next.
pub enum ReconnectAction {
    GetIp,
    ChangeIp,
    Sleep { secs: u64 },
    Probe { ip: String },
    Finish,
}

/// What came of an action.
pub enum ReconnectEvent {
    /// The address that the panel named.
    Address { reply: Result<String, ApiError> },
    /// Whether the panel accepted the request for a new address.
    Changed { outcome: Result<(), ApiError> },
    Slept,
    Probed { reachable: bool, quality: Option<IpQuality> },
}

/// A poll leaves the matter open: the address is still the old one, or the server's
/// rate limit kept it from being told.
pub open spec fn inconclusive(old_ip: Option<String>, reply: Result<String, ApiError>) -> bool {
    match reply {
        Ok(ip) => opt_text(old_ip) == Some(ip@),
        Err(e) => speaks_of_rate_limit(e.message@),
    }
}

/// The result where no new address was seen.
pub open spec fn unchanged(old_ip: Option<String>) -> ReconnectResult {
    ReconnectResult { old_ip, new_ip: None, reachable: false, quality: None }
}

/// The state that follows a poll which left the matter open.
pub open spec fn after_inconclusive(old_ip: Option<String>, round: u8) -> ReconnectState {
    if round + 1 < POLL_ROUNDS {
        ReconnectState::Pausing { old_ip, round: (round + 1) as u8 }
    } else {
        ReconnectState::Finished { result: Ok(unchanged(old_ip)) }
    }
}

/// The state that follows `state` when `event` comes. An event that the state does
/// not wait for changes nothing.
pub open spec fn reconnect_step(state: ReconnectState, event: ReconnectEvent) -> ReconnectState {
    match (state, event) {
        (ReconnectState::Started, ReconnectEvent::Address { reply }) => ReconnectState::Changing {
            old_ip: reply.ok(),
        },
        (
            ReconnectState::Changing { old_ip },
            ReconnectEvent::Changed { outcome: Ok(_) },
        ) => ReconnectState::Settling { old_ip },
        (
            ReconnectState::Changing { .. },
            ReconnectEvent::Changed { outcome: Err(e) },
        ) => ReconnectState::Finished { result: Err(e) },
        (ReconnectState::Settling { old_ip }, ReconnectEvent::Slept) => ReconnectState::Pausing {
            old_ip,
            round: 0,
        },
        (
            ReconnectState::Pausing { old_ip, round },
            ReconnectEvent::Slept,
        ) => ReconnectState::Polling { old_ip, round },
        (
            ReconnectState::Polling { old_ip, round },
            ReconnectEvent::Address { reply },
        ) => if inconclusive(old_ip, reply) {
            after_inconclusive(old_ip, round)
        } else {
            match reply {
                Ok(ip) => ReconnectState::Probing { old_ip, new_ip: ip },
                Err(e) => ReconnectState::Finished { result: Err(e) },
            }
        },
        (
            ReconnectState::Probing { old_ip, new_ip },
            ReconnectEvent::Probed { reachable, quality },
        ) => ReconnectState::Finished {
            result: Ok(ReconnectResult { old_ip, new_ip: Some(new_ip), reachable, quality }),
        },
        _ => state,
    }
}

/// The action whose outcome `state` waits for.
pub open spec fn awaited(state: ReconnectState) -> ReconnectAction {
    match state {
        ReconnectState::Started => ReconnectAction::GetIp,
        ReconnectState::Changing { .. } => ReconnectAction::ChangeIp,
        ReconnectState::Settling { .. } => ReconnectAction::Sleep { secs: SETTLE_SECS },
        ReconnectState::Pausing { .. } => ReconnectAction::Sleep { secs: POLL_SECS },
        ReconnectState::Polling { .. } => ReconnectAction::GetIp,
        ReconnectState::Probing { new_ip, .. } => ReconnectAction::Probe { ip: new_ip },
        ReconnectState::Finished { .. } => ReconnectAction::Finish,
    }
}

/// `event` is the outcome of an action of this kind.
pub open spec fn answers(action: ReconnectAction, event: ReconnectEvent) -> bool {
    match action {
        ReconnectAction::GetIp => event is Address,
        ReconnectAction::ChangeIp => event is Changed,
        ReconnectAction::Sleep { .. } => event is Slept,
        ReconnectAction::Probe { .. } => event is Probed,
        ReconnectAction::Finish => false,
    }
}

impl ReconnectState {
    /// The action whose outcome the state waits for.
    pub fn action(&self) -> (action: ReconnectAction)
        ensures
            action == awaited(*self),
    {
        match self {
            ReconnectState::Started => ReconnectAction::GetIp,
            ReconnectState::Changing { .. } => ReconnectAction::ChangeIp,
            ReconnectState::Settling { .. } => ReconnectAction::Sleep { secs: SETTLE_SECS },
            ReconnectState::Pausing { .. } => ReconnectAction::Sleep { secs: POLL_SECS },
            ReconnectState::Polling { .. } => ReconnectAction::GetIp,
            ReconnectState::Probing { new_ip, .. } => ReconnectAction::Probe { ip: new_ip.clone() },
            ReconnectState::Finished { .. } => ReconnectAction::Finish,
        }
    }

    /// The invariant of a change of address: polling stays within its rounds, and a new
    /// address is never the old one; without a new address nothing is said of one.
    pub open spec fn wf(self) -> bool {
        match self {
            ReconnectState::Pausing { round, .. } => round < POLL_ROUNDS,
            ReconnectState::Polling { round, .. } => round < POLL_ROUNDS,
            ReconnectState::Probing { old_ip, new_ip } => opt_text(old_ip) != Some(new_ip@),
            ReconnectState::Finished { result: Ok(r) } => match r.new_ip {
                Some(new_ip) => opt_text(r.old_ip) != Some(new_ip@),
                None => !r.reachable && r.quality is None,
            },
            _ => true,
        }
    }

    /// An upper bound of the events that are still to come.
    pub open spec fn steps_left(self) -> nat {
        match self {
            ReconnectState::Started => 2 * POLL_ROUNDS as nat + 4,
            ReconnectState::Changing { .. } => 2 * POLL_ROUNDS as nat + 3,
            ReconnectState::Settling { .. } => 2 * POLL_ROUNDS as nat + 2,
            ReconnectState::Pausing { round, .. } => (2 * (POLL_ROUNDS - round) + 1) as nat,
            ReconnectState::Polling { round, .. } => (2 * (POLL_ROUNDS - round)) as nat,
            ReconnectState::Probing { .. } => 1,
            ReconnectState::Finished { .. } => 0,
        }
    }

    /// An upper bound of the polls that are still to be answered.
    pub open spec fn polls_left(self) -> nat {
        match self {
            ReconnectState::Pausing { round, .. } => (POLL_ROUNDS - round) as nat,
            ReconnectState::Polling { round, .. } => (POLL_ROUNDS - round) as nat,
            ReconnectState::Probing { .. } => 0,
            ReconnectState::Finished { .. } => 0,
            _ => POLL_ROUNDS as nat,
        }
    }

    /// An upper bound of the seconds that are still to be waited.
    pub open spec fn secs_left(self) -> nat {
        match self {
            ReconnectState::Pausing { round, .. } => (POLL_SECS * (POLL_ROUNDS - round)) as nat,
            ReconnectState::Polling { round, .. } => (POLL_SECS * (POLL_ROUNDS - round
                - 1)) as nat,
            ReconnectState::Probing { .. } => 0,
            ReconnectState::Finished { .. } => 0,
            _ => (SETTLE_SECS + POLL_SECS * POLL_ROUNDS) as nat,
        }
    }
}

/// Whether a poll leaves the matter open.
fn is_inconclusive(old_ip: &Option<String>, reply: &Result<String, ApiError>) -> (open: bool)
    ensures
        open == inconclusive(*old_ip, *reply),
{
    match reply {
        Ok(ip) => match old_ip {
            Some(old) => same_text(old.as_str(), ip.as_str()),
            None => false,
        },
        Err(e) => is_rate_limited(e),
    }
}

/// Takes in what came of the awaited action.
pub fn do_reconnect(state: ReconnectState, event: ReconnectEvent) -> (next: ReconnectState)
    ensures
        next == reconnect_step(state, event),
        state.wf() ==> next.wf(),
{
    match (state, event) {
        (ReconnectState::Started, ReconnectEvent::Address { reply }) => ReconnectState::Changing {
            old_ip: reply.ok(),
        },
        (ReconnectState::Changing { old_ip }, ReconnectEvent::Changed { outcome }) => match outcome {
            Ok(()) => ReconnectState::Settling { old_ip },
            Err(e) => ReconnectState::Finished { result: Err(e) },
        },
        (ReconnectState::Settling { old_ip }, ReconnectEvent::Slept) => ReconnectState::Pausing {
            old_ip,
            round: 0,
        },
        (
            ReconnectState::Pausing { old_ip, round },
            ReconnectEvent::Slept,
        ) => ReconnectState::Polling { old_ip, round },
        (ReconnectState::Polling { old_ip, round }, ReconnectEvent::Address { reply }) => {
            if is_inconclusive(&old_ip, &reply) {
                if round < POLL_ROUNDS - 1 {
                    ReconnectState::Pausing { old_ip, round: round + 1 }
                } else {
                    let result = ReconnectResult {
                        old_ip,
                        new_ip: None,
                        reachable: false,
                        quality: None,
                    };
                    ReconnectState::Finished { result: Ok(result) }
                }
            } else {
                match reply {
                    Ok(ip) => ReconnectState::Probing { old_ip, new_ip: ip },
                    Err(e) => ReconnectState::Finished { result: Err(e) },
                }
            }
        },
        (
            ReconnectState::Probing { old_ip, new_ip },
            ReconnectEvent::Probed { reachable, quality },
        ) => {
            let result = ReconnectResult { old_ip, new_ip: Some(new_ip), reachable, quality };
            ReconnectState::Finished { result: Ok(result) }
        },
        (state, _) => state,
    }
}

/// The state after these events, one by one.
pub open spec fn reconnect_run(state: ReconnectState, events: Seq<ReconnectEvent>) -> ReconnectState
    decreases events.len(),
{
    if events.len() == 0 {
        state
    } else {
        reconnect_step(reconnect_run(state, events.drop_last()), events.last())
    }
}

/// The events of a change that the panel accepted, up to the end of these polls: the
/// answer to the first question, the acceptance, the wait, and then a wait and an
/// answer for each poll.
pub open spec fn polling_events(
    first: Result<String, ApiError>,
    polls: Seq<Result<String, ApiError>>,
) -> Seq<ReconnectEvent>
    decreases polls.len(),
{
    if polls.len() == 0 {
        seq![
            ReconnectEvent::Address { reply: first },
            ReconnectEvent::Changed { outcome: Ok(()) },
            ReconnectEvent::Slept,
        ]
    } else {
        polling_events(first, polls.drop_last()).push(ReconnectEvent::Slept).push(
            ReconnectEvent::Address { reply: polls.last() },
        )
    }
}

/// Every state that a change of address comes to keeps the invariant: whatever the
/// panel answers, a reported new address is not the old one.
pub proof fn law_invariant_holds_throughout(events: Seq<ReconnectEvent>)
    ensures
        reconnect_run(ReconnectState::Started, events).wf(),
    decreases events.len(),
{
    if events.len() > 0 {
        law_invariant_holds_throughout(events.drop_last());
    }
}

/// Each outcome of the awaited action brings the end nearer, and the seconds waited
/// come off those that are left.
pub proof fn law_progress(state: ReconnectState, event: ReconnectEvent)
    requires
        state.wf(),
        answers(awaited(state), event),
    ensures
        reconnect_step(state, event).steps_left() < state.steps_left(),
        reconnect_step(state, event).secs_left() + (match awaited(state) {
            ReconnectAction::Sleep { secs } => secs as nat,
            _ => 0,
        }) <= state.secs_left(),
{
}

/// How many outcomes of awaited actions there are among these events.
pub open spec fn outcomes_taken(events: Seq<ReconnectEvent>) -> nat
    decreases events.len(),
{
    if events.len() == 0 {
        0
    } else {
        let before = reconnect_run(ReconnectState::Started, events.drop_last());
        outcomes_taken(events.drop_last()) + (if answers(awaited(before), events.last()) {
            1nat
        } else {
            0nat
        })
    }
}

/// How many seconds are waited in the course of these events.
pub open spec fn secs_waited(events: Seq<ReconnectEvent>) -> nat
    decreases events.len(),
{
    if events.len() == 0 {
        0
    } else {
        let before = reconnect_run(ReconnectState::Started, events.drop_last());
        secs_waited(events.drop_last()) + (match (awaited(before), events.last()) {
            (ReconnectAction::Sleep { secs }, ReconnectEvent::Slept) => secs as nat,
            _ => 0nat,
        })
    }
}

/// How many polls are answered in the course of these events.
pub open spec fn polls_answered(events: Seq<ReconnectEvent>) -> nat
    decreases events.len(),
{
    if events.len() == 0 {
        0
    } else {
        let before = reconnect_run(ReconnectState::Started, events.drop_last());
        polls_answered(events.drop_last()) + (if before is Polling && events.last() is Address {
            1nat
        } else {
            0nat
        })
    }
}

/// Whatever the panel answers, a change of address takes at most one settling time and
/// ten pauses of waiting, at most ten polls, and ends after a bounded number of outcomes.
pub proof fn law_change_is_bounded(events: Seq<ReconnectEvent>)
    ensures
        outcomes_taken(events) + reconnect_run(ReconnectState::Started, events).steps_left()
            <= ReconnectState::Started.steps_left(),
        secs_waited(events) + reconnect_run(ReconnectState::Started, events).secs_left()
            <= SETTLE_SECS + POLL_ROUNDS * POLL_SECS,
        polls_answered(events) + reconnect_run(ReconnectState::Started, events).polls_left()
            <= POLL_ROUNDS,
    decreases events.len(),
{
    if events.len() > 0 {
        let head = events.drop_last();
        law_change_is_bounded(head);
        law_invariant_holds_throughout(head);
        let before = reconnect_run(ReconnectState::Started, head);
        if answers(awaited(before), events.last()) {
            law_progress(before, events.last());
        } else {
            law_unawaited_events_are_ignored(before, events.last());
        }
    }
}

/// An outcome that the state does not wait for changes nothing; neither does any after
/// the end.
pub proof fn law_unawaited_events_are_ignored(state: ReconnectState, event: ReconnectEvent)
    requires
        !answers(awaited(state), event),
    ensures
        reconnect_step(state, event) == state,
{
}

/// A change that the panel refuses ends at once with the panel's message, without a poll.
pub proof fn law_refused_change_fails(first: Result<String, ApiError>, refusal: ApiError)
    ensures
        reconnect_run(
            ReconnectState::Started,
            seq![
                ReconnectEvent::Address { reply: first },
                ReconnectEvent::Changed { outcome: Err(refusal) },
            ],
        ) == (ReconnectState::Finished { result: Err(refusal) }),
{
    let e0 = ReconnectEvent::Address { reply: first };
    let e1 = ReconnectEvent::Changed { outcome: Err(refusal) };
    assert(seq![e0, e1].drop_last() =~= seq![e0]);
    assert(seq![e0].drop_last() =~= seq![]);
    reveal_with_fuel(reconnect_run, 3);
}

/// Polls that show the old address, or that the rate limit turns away, are passed over:
/// the next poll follows, and after the tenth the change ends without a new address.
pub proof fn law_inconclusive_polls_are_passed_over(
    first: Result<String, ApiError>,
    polls: Seq<Result<String, ApiError>>,
)
    requires
        polls.len() <= POLL_ROUNDS,
        forall|i: int| 0 <= i < polls.len() ==> inconclusive(first.ok(), #[trigger] polls[i]),
    ensures
        reconnect_run(ReconnectState::Started, polling_events(first, polls)) == (if polls.len()
            < POLL_ROUNDS {
            ReconnectState::Pausing { old_ip: first.ok(), round: polls.len() as u8 }
        } else {
            ReconnectState::Finished { result: Ok(unchanged(first.ok())) }
        }),
    decreases polls.len(),
{
    let start = ReconnectState::Started;
    if polls.len() == 0 {
        let e0 = ReconnectEvent::Address { reply: first };
        let e1 = ReconnectEvent::Changed { outcome: Ok(()) };
        let e2 = ReconnectEvent::Slept;
        assert(seq![e0, e1, e2].drop_last() =~= seq![e0, e1]);
        assert(seq![e0, e1].drop_last() =~= seq![e0]);
        assert(seq![e0].drop_last() =~= seq![]);
        reveal_with_fuel(reconnect_run, 4);
    } else {
        let head = polls.drop_last();
        assert forall|i: int| 0 <= i < head.len() implies inconclusive(
            first.ok(),
            #[trigger] head[i],
        ) by {
            assert(head[i] == polls[i]);
        }
        law_inconclusive_polls_are_passed_over(first, head);
        lemma_one_more_poll(first, polls);
    }
}

/// The first poll that shows another address than the old one decides: that address is
/// tried and rated, and reported with what came of it.
pub proof fn law_first_new_address_is_reported(
    first: Result<String, ApiError>,
    polls: Seq<Result<String, ApiError>>,
    reachable: bool,
    quality: Option<IpQuality>,
)
    requires
        1 <= polls.len() <= POLL_ROUNDS,
        forall|i: int|
            0 <= i < polls.len() - 1 ==> inconclusive(first.ok(), #[trigger] polls[i]),
        polls.last() is Ok,
        !inconclusive(first.ok(), polls.last()),
    ensures
        awaited(reconnect_run(ReconnectState::Started, polling_events(first, polls))) == (
        ReconnectAction::Probe { ip: polls.last()->Ok_0 }),
        reconnect_run(
            ReconnectState::Started,
            polling_events(first, polls).push(ReconnectEvent::Probed { reachable, quality }),
        ) == (ReconnectState::Finished {
            result: Ok(
                ReconnectResult {
                    old_ip: first.ok(),
                    new_ip: Some(polls.last()->Ok_0),
                    reachable,
                    quality,
                },
            ),
        }),
{
    lemma_decisive_poll(first, polls);
    let events = polling_events(first, polls);
    let probed = ReconnectEvent::Probed { reachable, quality };
    assert(events.push(probed).drop_last() =~= events);
}

/// A poll that fails for another reason than the rate limit ends the change with that
/// failure.
pub proof fn law_other_failure_ends_polling(
    first: Result<String, ApiError>,
    polls: Seq<Result<String, ApiError>>,
)
    requires
        1 <= polls.len() <= POLL_ROUNDS,
        forall|i: int|
            0 <= i < polls.len() - 1 ==> inconclusive(first.ok(), #[trigger] polls[i]),
        polls.last() is Err,
        !inconclusive(first.ok(), polls.last()),
    ensures
        reconnect_run(ReconnectState::Started, polling_events(first, polls)) == (
        ReconnectState::Finished { result: Err(polls.last()->Err_0) }),
{
    lemma_decisive_poll(first, polls);
}

/// Where the old address could not be learned, any address counts as new.
pub proof fn law_unknown_old_address_makes_any_address_new(refusal: ApiError, ip: String)
    ensures
        !inconclusive(Err::<String, ApiError>(refusal).ok(), Ok(ip)),
{
}

/// An answer of the panel that reports the rate limit is passed over by the polling.
pub proof fn law_reported_rate_limit_is_passed_over(
    body: String,
    decoded: Result<GetIpResponse, Vec<String>>,
    result: Result<GetIpResponse, ApiError>,
    old_ip: Option<String>,
)
    requires
        exchange_gives("getIP"@, HttpReply::Body { body, decoded }, result),
        reported_failure(json_of_text(body@)) matches Some(message) && speaks_of_rate_limit(
            message,
        ),
    ensures
        result matches Err(e) && inconclusive(old_ip, Err(e)),
{
}

/// A poll that names an address leaves the matter open exactly where that is the known old
/// address, character by character.
pub proof fn law_only_the_old_address_leaves_the_matter_open(old_ip: Option<String>, ip: String)
    ensures
        inconclusive(old_ip, Ok(ip)) <==> (old_ip matches Some(old) && old@.len() == ip@.len()
            && forall|i: int| 0 <= i < ip@.len() ==> #[trigger] old@[i] == ip@[i]),
{
    if let Some(old) = old_ip {
        if old@.len() == ip@.len() && forall|i: int|
            0 <= i < ip@.len() ==> #[trigger] old@[i] == ip@[i] {
            assert(old@ =~= ip@);
        }
    }
}

/// A poll that names another address than the known old one decides, in whatever round: that
/// address is tried next.
pub proof fn law_another_address_decides(old: String, ip: String, round: u8, next: ReconnectState)
    requires
        old@ != ip@,
        call_ensures(
            do_reconnect,
            (
                ReconnectState::Polling { old_ip: Some(old), round },
                ReconnectEvent::Address { reply: Ok(ip) },
            ),
            next,
        ),
    ensures
        next == (ReconnectState::Probing { old_ip: Some(old), new_ip: ip }),
{
}

/// Where the old address is not known, the first address that a poll names decides.
pub proof fn law_any_address_decides_where_none_is_known(
    ip: String,
    round: u8,
    next: ReconnectState,
)
    requires
        call_ensures(
            do_reconnect,
            (
                ReconnectState::Polling { old_ip: None, round },
                ReconnectEvent::Address { reply: Ok(ip) },
            ),
            next,
        ),
    ensures
        next == (ReconnectState::Probing { old_ip: None, new_ip: ip }),
{
}

/// `next` goes on to the next poll of the ten, or ends without a new address after the last.
pub open spec fn polls_on(old_ip: Option<String>, round: u8, next: ReconnectState) -> bool {
    if round < 9 {
        next == (ReconnectState::Pausing { old_ip, round: (round + 1) as u8 })
    } else {
        next matches ReconnectState::Finished { result: Ok(r) } && r.old_ip == old_ip && r.new_ip
            is None && !r.reachable && r.quality is None
    }
}

/// A poll that names the old address leads to the next poll.
pub proof fn law_old_address_is_polled_again(
    old: String,
    ip: String,
    round: u8,
    next: ReconnectState,
)
    requires
        old@ == ip@,
        call_ensures(
            do_reconnect,
            (
                ReconnectState::Polling { old_ip: Some(old), round },
                ReconnectEvent::Address { reply: Ok(ip) },
            ),
            next,
        ),
    ensures
        polls_on(Some(old), round, next),
{
}

/// A poll that fails leads to the next poll where the failure is the rate limit, and ends the
/// change with that failure where it is not.
pub proof fn law_failed_poll_is_repeated_only_under_the_rate_limit(
    old_ip: Option<String>,
    e: ApiError,
    round: u8,
    limited: bool,
    next: ReconnectState,
)
    requires
        call_ensures(is_rate_limited, (&e,), limited),
        call_ensures(
            do_reconnect,
            (
                ReconnectState::Polling { old_ip, round },
                ReconnectEvent::Address { reply: Err(e) },
            ),
            next,
        ),
    ensures
        limited ==> polls_on(old_ip, round, next),
        !limited ==> next == (ReconnectState::Finished { result: Err(e) }),
{
}

/// The address that is named first is the old one; where none is named, the change is
/// requested all the same.
pub proof fn law_first_answer_is_the_old_address(
    ip: String,
    e: ApiError,
    named: ReconnectState,
    unnamed: ReconnectState,
)
    requires
        call_ensures(
            do_reconnect,
            (ReconnectState::Started, ReconnectEvent::Address { reply: Ok(ip) }),
            named,
        ),
        call_ensures(
            do_reconnect,
            (ReconnectState::Started, ReconnectEvent::Address { reply: Err(e) }),
            unnamed,
        ),
    ensures
        named == (ReconnectState::Changing { old_ip: Some(ip) }),
        unnamed == (ReconnectState::Changing { old_ip: None }),
{
}

/// An accepted request leads to the polls, and a refused one ends the change with the
/// refusal.
pub proof fn law_accepted_change_is_polled_for(
    old_ip: Option<String>,
    e: ApiError,
    accepted: ReconnectState,
    refused: ReconnectState,
    settled: ReconnectState,
    round: u8,
    paused: ReconnectState,
)
    requires
        call_ensures(
            do_reconnect,
            (ReconnectState::Changing { old_ip }, ReconnectEvent::Changed { outcome: Ok(()) }),
            accepted,
        ),
        call_ensures(
            do_reconnect,
            (ReconnectState::Changing { old_ip }, ReconnectEvent::Changed { outcome: Err(e) }),
            refused,
        ),
        call_ensures(do_reconnect, (accepted, ReconnectEvent::Slept), settled),
        call_ensures(
            do_reconnect,
            (ReconnectState::Pausing { old_ip, round }, ReconnectEvent::Slept),
            paused,
        ),
    ensures
        accepted == (ReconnectState::Settling { old_ip }),
        refused == (ReconnectState::Finished { result: Err(e) }),
        settled == (ReconnectState::Pausing { old_ip, round: 0 }),
        paused == (ReconnectState::Polling { old_ip, round }),
{
}

/// What came of the trial and the rating of the new address is reported with both addresses,
/// unchanged.
pub proof fn law_new_address_is_reported_as_it_was_found(
    old_ip: Option<String>,
    new_ip: String,
    reachable: bool,
    quality: Option<IpQuality>,
    next: ReconnectState,
)
    requires
        call_ensures(
            do_reconnect,
            (
                ReconnectState::Probing { old_ip, new_ip },
                ReconnectEvent::Probed { reachable, quality },
            ),
            next,
        ),
    ensures
        next matches ReconnectState::Finished { result: Ok(r) } && r.old_ip == old_ip && r.new_ip
            == Some(new_ip) && r.reachable == reachable && r.quality == quality,
{
}

/// Each state waits for its own action: a question for the address before the request and in
/// each poll, a pause of eight seconds behind the request and one of six before each poll,
/// and the trial of the new address itself.
pub proof fn law_each_state_waits_for_its_own_action(
    state: ReconnectState,
    action: ReconnectAction,
)
    requires
        call_ensures(ReconnectState::action, (&state,), action),
    ensures
        action is GetIp <==> state is Started || state is Polling,
        action is ChangeIp <==> state is Changing,
        action == (ReconnectAction::Sleep { secs: 8 }) <==> state is Settling,
        action == (ReconnectAction::Sleep { secs: 6 }) <==> state is Pausing,
        state matches ReconnectState::Probing { new_ip, .. } ==> action == (
        ReconnectAction::Probe { ip: new_ip }),
        action is Finish <==> state is Finished,
{
}

proof fn lemma_one_more_poll(
    first: Result<String, ApiError>,
    polls: Seq<Result<String, ApiError>>,
)
    requires
        polls.len() > 0,
    ensures
        reconnect_run(ReconnectState::Started, polling_events(first, polls)) == reconnect_step(
            reconnect_step(
                reconnect_run(ReconnectState::Started, polling_events(first, polls.drop_last())),
                ReconnectEvent::Slept,
            ),
            ReconnectEvent::Address { reply: polls.last() },
        ),
{
    let before = polling_events(first, polls.drop_last());
    let slept = before.push(ReconnectEvent::Slept);
    let polled = slept.push(ReconnectEvent::Address { reply: polls.last() });
    assert(polled.drop_last() =~= slept);
    assert(slept.drop_last() =~= before);
    reveal_with_fuel(reconnect_run, 3);
}

proof fn lemma_decisive_poll(
    first: Result<String, ApiError>,
    polls: Seq<Result<String, ApiError>>,
)
    requires
        1 <= polls.len() <= POLL_ROUNDS,
        forall|i: int|
            0 <= i < polls.len() - 1 ==> inconclusive(first.ok(), #[trigger] polls[i]),
        !inconclusive(first.ok(), polls.last()),
    ensures
        reconnect_run(ReconnectState::Started, polling_events(first, polls)) == (
        match polls.last() {
            Ok(ip) => ReconnectState::Probing { old_ip: first.ok(), new_ip: ip },
            Err(e) => ReconnectState::Finished { result: Err(e) },
        }),
{
    let head = polls.drop_last();
    assert forall|i: int| 0 <= i < head.len() implies inconclusive(first.ok(), #[trigger] head[i]) by {
        assert(head[i] == polls[i]);
    }
    law_inconclusive_polls_are_passed_over(first, head);
    lemma_one_more_poll(first, polls);
}

} // verus!
