//! Supervision of the association with the wireless network.
//!
//! The supervisor decides; the caller owns the radio. Each call takes what
//! the caller observed and answers with what the caller has to do next.

use crate::config::{Credentials, CredentialsView, DEFAULT_CONNECT_TIMEOUT_MS};
use crate::retry::{RetryBudget, RetryBudgetView};
use vstd::prelude::*;

verus! {

/// Why an association attempt failed.
#[derive(Clone, Copy, Debug, PartialEq, Eq, Structural)]
pub enum AssociationError {
    Timeout,
    AuthenticationRejected,
    RadioFault,
}

/// State of the link to the wireless network.
#[derive(Clone, Copy, Debug, PartialEq, Eq, Structural)]
pub enum NetworkState {
    Disconnected,
    Associating,
    Connected,
    Failed(AssociationError),
}

/// What the caller has to do after a call to the supervisor.
#[derive(Clone, Copy, Debug, PartialEq, Eq, Structural)]
pub enum NetworkAction {
    /// Nothing is due.
    Nothing,
    /// Start one association attempt, bounded by the connect timeout, and
    /// report its outcome.
    Associate,
}

/// What the supervisor stands for.
pub struct NetworkView {
    pub state: NetworkState,
    /// The credentials of the last request to connect, if there was one.
    pub credentials: Option<CredentialsView>,
    pub budget: RetryBudgetView,
    pub retry_at_ms: u64,
    pub connect_timeout_ms: u64,
}

/// A request to associate with `credentials`. Unless an attempt is under
/// way or the link is up, the credentials are kept for this and all later
/// attempts, and an attempt starts.
pub open spec fn network_connect(before: NetworkView, credentials: CredentialsView) -> (
    NetworkView,
    NetworkAction,
) {
    match before.state {
        NetworkState::Associating | NetworkState::Connected => (before, NetworkAction::Nothing),
        _ => (
            NetworkView {
                state: NetworkState::Associating,
                credentials: Some(credentials),
                ..before
            },
            NetworkAction::Associate,
        ),
    }
}

/// The outcome of the attempt that is under way. Success connects and
/// clears the budget. Failure is recorded in the budget, and the next
/// attempt is due when the budget's delay has passed. A report without an
/// attempt under way changes nothing.
pub open spec fn network_association_finished(
    before: NetworkView,
    outcome: Result<(), AssociationError>,
    now_ms: u64,
    entropy: u64,
) -> NetworkView {
    if before.state != NetworkState::Associating {
        before
    } else {
        match outcome {
            Ok(_) => NetworkView {
                state: NetworkState::Connected,
                budget: before.budget.after_success(),
                ..before
            },
            Err(reason) => NetworkView {
                state: NetworkState::Failed(reason),
                budget: before.budget.after_failure(),
                retry_at_ms: before.budget.after_failure().deadline(now_ms, entropy),
                ..before
            },
        }
    }
}

/// One tick. A link that went down is noticed, and a new attempt is due
/// when the budget's delay has passed; without a link an attempt starts as
/// soon as it is due, however often attempts have failed. Before the
/// first request to connect there is nothing to associate with.
pub open spec fn network_poll(before: NetworkView, link_up: bool, now_ms: u64, entropy: u64) -> (
    NetworkView,
    NetworkAction,
) {
    match before.state {
        NetworkState::Connected => if link_up {
            (before, NetworkAction::Nothing)
        } else {
            (
                NetworkView {
                    state: NetworkState::Disconnected,
                    retry_at_ms: before.budget.deadline(now_ms, entropy),
                    ..before
                },
                NetworkAction::Nothing,
            )
        },
        NetworkState::Associating => (before, NetworkAction::Nothing),
        _ => if before.credentials is Some && now_ms >= before.retry_at_ms {
            (NetworkView { state: NetworkState::Associating, ..before }, NetworkAction::Associate)
        } else {
            (before, NetworkAction::Nothing)
        },
    }
}

/// Attempts never overlap: while one is under way neither a tick nor a
/// request to connect starts another.
pub proof fn lemma_attempts_serialized(
    before: NetworkView,
    link_up: bool,
    now_ms: u64,
    entropy: u64,
)
    requires
        before.state == NetworkState::Associating,
    ensures
        network_poll(before, link_up, now_ms, entropy) == (before, NetworkAction::Nothing),
        forall|credentials: CredentialsView| #[trigger]
            network_connect(before, credentials) == (before, NetworkAction::Nothing),
{
}

/// The supervisor never gives up: once it was asked to connect, then
/// without a link, and however often attempts have failed, the tick at or
/// after the time set for the next attempt starts it, and no tick before
/// that time does.
pub proof fn lemma_keeps_trying(before: NetworkView, link_up: bool, now_ms: u64, entropy: u64)
    requires
        before.state == NetworkState::Disconnected || before.state is Failed,
        before.credentials is Some,
    ensures
        network_poll(before, link_up, now_ms, entropy).1 == NetworkAction::Associate <==> now_ms
            >= before.retry_at_ms,
        now_ms >= before.retry_at_ms ==> network_poll(before, link_up, now_ms, entropy).0.state
            == NetworkState::Associating,
{
}

/// A failed attempt sets the next one no earlier than now and no later
/// than the cap allows, and a success clears the count of failures.
pub proof fn lemma_retry_is_rate_limited(
    before: NetworkView,
    reason: AssociationError,
    now_ms: u64,
    entropy: u64,
)
    requires
        before.state == NetworkState::Associating,
        0 < before.budget.base <= before.budget.cap <= u64::MAX,
    ensures
        network_association_finished(before, Err(reason), now_ms, entropy).retry_at_ms >= now_ms,
        network_association_finished(before, Err(reason), now_ms, entropy).retry_at_ms <= now_ms
            + before.budget.cap,
        now_ms + before.budget.cap <= u64::MAX ==> network_association_finished(
            before,
            Err(reason),
            now_ms,
            entropy,
        ).retry_at_ms >= now_ms + before.budget.base,
        network_association_finished(before, Ok(()), now_ms, entropy).budget.failures == 0,
{
    let next = before.budget.after_failure();
    crate::retry::lemma_jittered_delay_bounds(
        next.base,
        next.cap,
        next.failures,
        entropy as nat,
    );
    crate::retry::lemma_nominal_delay_monotonic(next.base, next.cap, 0, next.failures);
    vstd::arithmetic::power2::lemma2_to64();
    assert(next.base * vstd::arithmetic::power2::pow2(0) == next.base);
}

/// What optional credentials stand for.
pub open spec fn optional_credentials(credentials: Option<Credentials>) -> Option<
    CredentialsView,
> {
    match credentials {
        Some(c) => Some(c@),
        None => None,
    }
}

/// Supervisor of the wireless link.
pub struct NetworkSupervisor {
    credentials: Option<Credentials>,
    state: NetworkState,
    budget: RetryBudget,
    retry_at_ms: u64,
    connect_timeout_ms: u64,
}

impl View for NetworkSupervisor {
    type V = NetworkView;

    closed spec fn view(&self) -> NetworkView {
        NetworkView {
            state: self.state,
            credentials: optional_credentials(self.credentials),
            budget: self.budget@,
            retry_at_ms: self.retry_at_ms,
            connect_timeout_ms: self.connect_timeout_ms,
        }
    }
}

impl NetworkSupervisor {
    /// A supervisor without a link and without credentials.
    pub fn new(budget: RetryBudget, connect_timeout_ms: u64) -> (supervisor: NetworkSupervisor)
        ensures
            supervisor@ == (NetworkView {
                state: NetworkState::Disconnected,
                credentials: None,
                budget: budget@,
                retry_at_ms: 0,
                connect_timeout_ms,
            }),
    {
        NetworkSupervisor {
            credentials: None,
            state: NetworkState::Disconnected,
            budget,
            retry_at_ms: 0,
            connect_timeout_ms,
        }
    }

    /// A supervisor with the default budget and connect timeout.
    pub fn with_defaults() -> (supervisor: NetworkSupervisor)
        ensures
            supervisor@.state == NetworkState::Disconnected,
            supervisor@.credentials is None,
            supervisor@.retry_at_ms == 0,
            supervisor@.connect_timeout_ms == DEFAULT_CONNECT_TIMEOUT_MS,
            supervisor@.budget.failures == 0,
            supervisor@.budget.base == crate::retry::DEFAULT_BASE_DELAY_MS,
            supervisor@.budget.cap == crate::retry::DEFAULT_CAP_DELAY_MS,
    {
        NetworkSupervisor::new(RetryBudget::with_defaults(), DEFAULT_CONNECT_TIMEOUT_MS)
    }

    /// The credentials to associate with, once there was a request to
    /// connect.
    pub fn credentials(&self) -> (credentials: Option<&Credentials>)
        ensures
            credentials is Some <==> self@.credentials is Some,
            credentials matches Some(c) ==> self@.credentials == Some(c@),
    {
        self.credentials.as_ref()
    }

    /// The state of the link. Nothing changes.
    pub fn status(&self) -> (state: NetworkState)
        ensures
            state == self@.state,
    {
        self.state
    }

    /// Whether the link is up.
    pub fn is_connected(&self) -> (connected: bool)
        ensures
            connected == (self@.state == NetworkState::Connected),
    {
        match self.state {
            NetworkState::Connected => true,
            _ => false,
        }
    }

    /// The time that one association attempt may take, in milliseconds.
    pub fn connect_timeout_ms(&self) -> (timeout: u64)
        ensures
            timeout == self@.connect_timeout_ms,
    {
        self.connect_timeout_ms
    }

    /// The time at which the next attempt is due.
    pub fn retry_at_ms(&self) -> (at: u64)
        ensures
            at == self@.retry_at_ms,
    {
        self.retry_at_ms
    }

    /// The retry budget.
    pub fn budget(&self) -> (budget: &RetryBudget)
        ensures
            budget@ == self@.budget,
    {
        &self.budget
    }

    /// Asks for an association with `credentials` during bring-up.
    pub fn connect(&mut self, credentials: Credentials) -> (action: NetworkAction)
        ensures
            (final(self)@, action) == network_connect(old(self)@, credentials@),
    {
        match self.state {
            NetworkState::Associating => NetworkAction::Nothing,
            NetworkState::Connected => NetworkAction::Nothing,
            _ => {
                self.credentials = Some(credentials);
                self.state = NetworkState::Associating;
                NetworkAction::Associate
            },
        }
    }

    /// Reports how the attempt under way ended and returns the state that
    /// follows: `Connected`, or `Failed` with the reason.
    pub fn association_finished(
        &mut self,
        outcome: Result<(), AssociationError>,
        now_ms: u64,
        entropy: u64,
    ) -> (state: NetworkState)
        ensures
            final(self)@ == network_association_finished(old(self)@, outcome, now_ms, entropy),
            state == final(self)@.state,
    {
        match self.state {
            NetworkState::Associating => {
                match outcome {
                    Ok(_) => {
                        self.budget.reset();
                        self.state = NetworkState::Connected;
                    },
                    Err(reason) => {
                        self.budget.record_failure();
                        self.retry_at_ms = self.budget.deadline_after(now_ms, entropy);
                        self.state = NetworkState::Failed(reason);
                    },
                }
            },
            _ => {},
        }
        self.state
    }

    /// One tick of the supervisor. `link_up` is what the radio reports at
    /// `now_ms`; `entropy` feeds the jitter.
    pub fn poll(&mut self, now_ms: u64, link_up: bool, entropy: u64) -> (action: NetworkAction)
        ensures
            (final(self)@, action) == network_poll(old(self)@, link_up, now_ms, entropy),
    {
        match self.state {
            NetworkState::Connected => {
                if !link_up {
                    self.retry_at_ms = self.budget.deadline_after(now_ms, entropy);
                    self.state = NetworkState::Disconnected;
                }
                NetworkAction::Nothing
            },
            NetworkState::Associating => NetworkAction::Nothing,
            _ => {
                if self.credentials.is_some() && now_ms >= self.retry_at_ms {
                    self.state = NetworkState::Associating;
                    NetworkAction::Associate
                } else {
                    NetworkAction::Nothing
                }
            },
        }
    }
}

} // verus!
