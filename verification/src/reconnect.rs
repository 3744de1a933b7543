use vstd::prelude::*;

verus! {

/// Seconds to wait after a failed attempt before the next one.
pub const RECONNECT_DELAY_SECS: u64 = 3;

/// How many failed attempts are retried; the next failure gives up.
pub const ALLOWED_RECONNECT_ATTEMPTS: u32 = 5;

/// What to do after an attempt to connect to the server.
#[derive(PartialEq, Eq, Structural, Debug, Clone, Copy)]
pub enum ConnectDecision {
    /// The attempt succeeded: use the connection.
    UseConnection,
    /// The attempt failed: report failure number `attempts`, wait
    /// `delay_secs` seconds, then try again.
    Retry { attempts: u32, delay_secs: u64 },
    /// The attempt failed: report failure number `attempts` and give up
    /// with the attempt's error.
    GiveUp { attempts: u32 },
}

/// The count of failed attempts to connect to the server.
pub struct ConnectAttempts {
    failures: u32,
}

impl View for ConnectAttempts {
    type V = nat;

    /// The number of failed attempts so far.
    closed spec fn view(&self) -> nat {
        self.failures as nat
    }
}

/// The decision after an attempt, given the failures before it: a success is
/// used; the failure that makes the count exceed the allowed number gives up;
/// any other failure is retried after the delay.
pub open spec fn connect_decision(failures_before: nat, succeeded: bool) -> ConnectDecision {
    if succeeded {
        ConnectDecision::UseConnection
    } else if failures_before + 1 > ALLOWED_RECONNECT_ATTEMPTS {
        ConnectDecision::GiveUp { attempts: (failures_before + 1) as u32 }
    } else {
        ConnectDecision::Retry {
            attempts: (failures_before + 1) as u32,
            delay_secs: RECONNECT_DELAY_SECS,
        }
    }
}

impl ConnectAttempts {
    /// No attempt has failed yet.
    pub fn new() -> (attempts: Self)
        ensures
            attempts@ == 0,
    {
        ConnectAttempts { failures: 0 }
    }

    /// Records the outcome of an attempt and decides what follows. A failure
    /// is counted; a success leaves the count as it was.
    pub fn record(&mut self, succeeded: bool) -> (decision: ConnectDecision)
        requires
            old(self)@ <= ALLOWED_RECONNECT_ATTEMPTS,
        ensures
            decision == connect_decision(old(self)@, succeeded),
            final(self)@ == if succeeded { old(self)@ } else { old(self)@ + 1 },
            // A successful attempt is used, however many attempts failed before it.
            succeeded ==> decision == ConnectDecision::UseConnection,
            // A failure is retried after 3 seconds while it is one of the first five.
            !succeeded && old(self)@ < 5 ==> decision == (ConnectDecision::Retry {
                attempts: (old(self)@ + 1) as u32,
                delay_secs: 3,
            }),
            // The sixth failure in a row gives up.
            !succeeded && old(self)@ == 5 ==> decision == (ConnectDecision::GiveUp { attempts: 6 }),
    {
        if succeeded {
            return ConnectDecision::UseConnection;
        }
        self.failures = self.failures + 1;
        if self.failures > ALLOWED_RECONNECT_ATTEMPTS {
            ConnectDecision::GiveUp { attempts: self.failures }
        } else {
            ConnectDecision::Retry { attempts: self.failures, delay_secs: RECONNECT_DELAY_SECS }
        }
    }
}

/// A successful attempt is always used, whatever the number of failures
/// before it.
pub proof fn lemma_success_is_used(failures_before: nat)
    requires
        failures_before <= ALLOWED_RECONNECT_ATTEMPTS,
    ensures
        connect_decision(failures_before, true) == ConnectDecision::UseConnection,
{
}

/// The count of failures names the failure that was just reported: a
/// failure's decision, retry or give-up, carries the number of failures so
/// far, and only a failure gives up.
pub proof fn lemma_failure_counts(failures_before: nat, succeeded: bool)
    requires
        failures_before <= ALLOWED_RECONNECT_ATTEMPTS,
    ensures
        connect_decision(failures_before, succeeded) matches ConnectDecision::GiveUp { attempts } ==> !succeeded
            && attempts == failures_before + 1 && attempts > 5,
        connect_decision(failures_before, succeeded) matches ConnectDecision::Retry { attempts, delay_secs } ==> !succeeded
            && attempts == failures_before + 1 && attempts <= 5 && delay_secs == 3,
        connect_decision(failures_before, succeeded) is UseConnection <==> succeeded,
{
}

/// A connection is tried at most six times: each of the first five failed
/// attempts in a row is retried after the delay, and the sixth gives up.
pub proof fn lemma_at_most_six_attempts(failures_before: nat)
    requires
        failures_before <= ALLOWED_RECONNECT_ATTEMPTS,
    ensures
        failures_before < 5 ==> connect_decision(failures_before, false) == (ConnectDecision::Retry {
            attempts: (failures_before + 1) as u32,
            delay_secs: 3,
        }),
        failures_before == 5 ==> connect_decision(failures_before, false) == (ConnectDecision::GiveUp {
            attempts: 6,
        }),
{
}

} // verus!
