use crate::config::{Config, Grace, HealthError};
use crate::transport::build_client;
use vstd::prelude::*;

verus! {

/// The states of the watchdog.
#[derive(Debug, Clone, Copy, PartialEq, Eq, Structural)]
pub enum State {
    /// Entered once, at start.
    Init,
    /// A probe is due.
    Checking,
    /// The failure budget is spent: the command is due.
    Failed,
    /// The command has run: the grace period is due.
    GraceWaiting,
}

/// What a state's handler decided: the state to enter next, and how long to
/// sleep before entering it (`None`: no sleep at all).
#[derive(Debug, Clone, Copy, PartialEq, Eq, Structural)]
pub struct Transition {
    pub next: State,
    pub sleep_ms: Option<u64>,
}

/// The decision of `Checking` on a probe outcome, from the counter of
/// remaining retries: the new counter and the transition.
pub open spec fn check_step(g: Grace, remaining: u32, probe_ok: bool) -> (u32, Transition) {
    if probe_ok {
        (
            g.spec_retry_count(),
            Transition { next: State::Checking, sleep_ms: Some(g.spec_check_interval_ms()) },
        )
    } else if remaining == 0 {
        (g.spec_retry_count(), Transition { next: State::Failed, sleep_ms: None })
    } else {
        (
            (remaining - 1) as u32,
            Transition {
                next: State::Checking,
                sleep_ms: Some(g.spec_check_interval_failed_ms()),
            },
        )
    }
}

/// The decision of `Failed` once the command has run, whatever its outcome.
pub open spec fn failed_step(remaining: u32, command_ok: bool) -> (u32, Transition) {
    (remaining, Transition { next: State::GraceWaiting, sleep_ms: None })
}

/// The decision of `GraceWaiting`.
pub open spec fn grace_step(g: Grace, remaining: u32) -> (u32, Transition) {
    (
        remaining,
        Transition { next: State::Checking, sleep_ms: Some(g.spec_wait_after_command_ms()) },
    )
}

/// Counter and state after `k` consecutive failed probes, starting in
/// `Checking` with counter `remaining`.
pub open spec fn after_failures(g: Grace, remaining: u32, k: nat) -> (u32, State)
    decreases k,
{
    if k == 0 {
        (remaining, State::Checking)
    } else {
        let (r, t) = check_step(g, after_failures(g, remaining, (k - 1) as nat).0, false);
        (r, t.next)
    }
}

/// After `k` consecutive failed probes from a full budget, with `k` at most
/// the retry count, the watchdog is still in `Checking` with `k` retries spent.
pub proof fn lemma_failures_within_budget(g: Grace, k: nat)
    requires
        k <= g.spec_retry_count(),
    ensures
        after_failures(g, g.spec_retry_count(), k) == ((g.spec_retry_count() - k) as u32, State::Checking),
    decreases k,
{
    if k > 0 {
        lemma_failures_within_budget(g, (k - 1) as nat);
    }
}

/// With a retry count of N, exactly N consecutive probe failures are
/// tolerated: each of them returns to `Checking` with one retry fewer, and the
/// failure after them enters `Failed`. A success, whatever the counter,
/// restores the counter to N.
pub proof fn lemma_failure_budget(g: Grace)
    ensures
        forall|k: nat|
            k <= g.spec_retry_count() ==> #[trigger] after_failures(g, g.spec_retry_count(), k)
                == ((g.spec_retry_count() - k) as u32, State::Checking),
        after_failures(g, g.spec_retry_count(), (g.spec_retry_count() + 1) as nat).1
            == State::Failed,
        forall|r: u32|
            (#[trigger] check_step(g, r, true)).0 == g.spec_retry_count() && check_step(
                g,
                r,
                true,
            ).1.next == State::Checking,
{
    assert forall|k: nat| k <= g.spec_retry_count() implies #[trigger] after_failures(
        g,
        g.spec_retry_count(),
        k,
    ) == ((g.spec_retry_count() - k) as u32, State::Checking) by {
        lemma_failures_within_budget(g, k);
    }
    lemma_failures_within_budget(g, g.spec_retry_count() as nat);
}

/// Once `Failed` is entered, the counter at the next entry to `Checking`
/// (through `GraceWaiting`) is the retry count, whatever the command's outcome.
pub proof fn lemma_budget_restored_after_remediation(g: Grace, command_ok: bool)
    ensures
        check_step(g, 0, false).1.next == State::Failed,
        failed_step(check_step(g, 0, false).0, command_ok).1.next == State::GraceWaiting,
        grace_step(g, failed_step(check_step(g, 0, false).0, command_ok).0).1.next
            == State::Checking,
        grace_step(g, failed_step(check_step(g, 0, false).0, command_ok).0).0
            == g.spec_retry_count(),
{
}

/// The sleep before the next state: `check_interval` after a success,
/// `check_interval_failed` after a tolerated failure, none before `Failed`,
/// and `wait_after_command` after the command.
pub proof fn lemma_sleep_selection(g: Grace, remaining: u32)
    ensures
        check_step(g, remaining, true).1.sleep_ms == Some(g.spec_check_interval_ms()),
        remaining > 0 ==> check_step(g, remaining, false).1.sleep_ms == Some(
            g.spec_check_interval_failed_ms(),
        ),
        remaining == 0 ==> check_step(g, remaining, false).1.sleep_ms == None::<u64>,
        grace_step(g, remaining).1.sleep_ms == Some(g.spec_wait_after_command_ms()),
{
}

/// The command's outcome changes neither the counter nor the next state.
pub proof fn lemma_remediation_outcome_ignored(remaining: u32)
    ensures
        failed_step(remaining, true) == failed_step(remaining, false),
        failed_step(remaining, false).0 == remaining,
        failed_step(remaining, false).1.next == State::GraceWaiting,
{
}

/// The watchdog: its configuration, its HTTP client and its failure budget.
pub struct Service {
    config: Config,
    client: reqwest::Client,
    remaining_retries: u32,
}

impl Service {
    pub closed spec fn spec_config(&self) -> Config {
        self.config
    }

    pub closed spec fn spec_client(&self) -> reqwest::Client {
        self.client
    }

    pub closed spec fn spec_remaining(&self) -> u32 {
        self.remaining_retries
    }

    /// The counter never exceeds the configured retry count.
    pub open spec fn wf(&self) -> bool {
        self.spec_remaining() <= self.spec_config().grace.spec_retry_count()
    }

    /// Makes the service with a full failure budget and an HTTP client whose
    /// connection timeout is the configured one.
    pub fn new(config: Config) -> (r: Result<Service, HealthError>)
        ensures
            r is Ok || r == Err::<Service, HealthError>(HealthError::ClientBuild),
            r matches Ok(s) ==> s.spec_config() == config && s.spec_remaining()
                == config.grace.spec_retry_count() && s.wf(),
    {
        let client = match build_client(config.grace.timeout()) {
            Ok(c) => c,
            Err(_) => return Err(HealthError::ClientBuild),
        };
        let remaining_retries = config.grace.retry_count();
        Ok(Service { config, client, remaining_retries })
    }

    pub fn config(&self) -> (r: &Config)
        ensures
            *r == self.spec_config(),
    {
        &self.config
    }

    pub fn client(&self) -> (r: &reqwest::Client)
        ensures
            *r == self.spec_client(),
    {
        &self.client
    }

    /// Failures still tolerated before the command runs.
    pub fn remaining_retries(&self) -> (r: u32)
        ensures
            r == self.spec_remaining(),
    {
        self.remaining_retries
    }

    /// `Init`: goes on to `Checking` at once.
    pub fn init(&mut self) -> (t: Transition)
        ensures
            *final(self) == *old(self),
            t == (Transition { next: State::Checking, sleep_ms: None }),
    {
        Transition { next: State::Checking, sleep_ms: None }
    }

    /// `Checking`, after a probe: a success restores the full budget; a
    /// failure spends one retry, or, with none left, restores the budget and
    /// enters `Failed` without sleeping.
    pub fn check(&mut self, probe_ok: bool) -> (t: Transition)
        requires
            old(self).wf(),
        ensures
            final(self).wf(),
            final(self).spec_config() == old(self).spec_config(),
            final(self).spec_client() == old(self).spec_client(),
            (final(self).spec_remaining(), t) == check_step(
                old(self).spec_config().grace,
                old(self).spec_remaining(),
                probe_ok,
            ),
    {
        if probe_ok {
            self.remaining_retries = self.config.grace.retry_count();
            return Transition {
                next: State::Checking,
                sleep_ms: Some(self.config.grace.check_interval()),
            };
        }
        if self.remaining_retries == 0 {
            self.remaining_retries = self.config.grace.retry_count();
            return Transition { next: State::Failed, sleep_ms: None };
        }
        self.remaining_retries = self.remaining_retries - 1;
        Transition {
            next: State::Checking,
            sleep_ms: Some(self.config.grace.check_interval_failed()),
        }
    }

    /// `Failed`, once the command has run: goes on to `GraceWaiting` whatever
    /// the command's outcome, leaving the counter as it is.
    pub fn failed(&mut self, command_ok: bool) -> (t: Transition)
        ensures
            *final(self) == *old(self),
            (final(self).spec_remaining(), t) == failed_step(old(self).spec_remaining(), command_ok),
    {
        Transition { next: State::GraceWaiting, sleep_ms: None }
    }

    /// `GraceWaiting`: sleeps `wait_after_command`, then goes on to `Checking`.
    pub fn grace_waiting(&mut self) -> (t: Transition)
        ensures
            *final(self) == *old(self),
            (final(self).spec_remaining(), t) == grace_step(
                old(self).spec_config().grace,
                old(self).spec_remaining(),
            ),
    {
        Transition {
            next: State::Checking,
            sleep_ms: Some(self.config.grace.wait_after_command()),
        }
    }
}

} // verus!
