use vstd::prelude::*;

use crate::config::DnsConfig;
use crate::ip_utils::{probe_message, resolve_message, ProbeError, ResolveError};
use crate::utils::{map_prefixed_err, prefixed};
use crate::route53::{store_message, update_record, upsert_for, StoreError, UpsertRequest};

verus! {

/// How one target's tick ended.
#[derive(PartialEq, Eq, Debug)]
pub enum Outcome {
    /// The published address is the actual one: nothing to do.
    InSync,
    /// The authoritative record already holds the actual address; public
    /// resolvers have not caught up yet.
    ConvergedAfterPropagationWait,
    /// The record was written with the actual address.
    Updated,
    ProbeFailed(ProbeError),
    ResolveFailed(ResolveError),
    ProviderReadFailed(StoreError),
    ProviderWriteFailed(StoreError),
}

/// Where a target's tick stands; the `actual` address is the probe's answer.
#[derive(PartialEq, Eq, Debug)]
pub enum TickState {
    AwaitProbe,
    AwaitResolve { actual: String },
    AwaitRead { actual: String },
    AwaitWrite { actual: String },
    Done(Outcome),
}

/// What the caller is to do next for a target.
#[derive(PartialEq, Eq, Debug)]
pub enum Action {
    /// Find the machine's public address.
    Probe,
    /// Look up the address that public DNS gives for this domain.
    Resolve(String),
    /// Read the target's authoritative record.
    ReadRecord,
    /// Submit this change to the provider.
    Write(UpsertRequest),
    /// The tick is over; its outcome is in the state.
    Finish,
}

/// What came back from the work that the last action asked for.
pub enum Event {
    Probed(Result<String, ProbeError>),
    Resolved(Result<String, ResolveError>),
    RecordRead(Result<String, StoreError>),
    RecordWritten(Result<(), StoreError>),
}

/// The event is the answer to the work that state `s` waits for.
pub open spec fn accepts(s: TickState, e: Event) -> bool {
    match (s, e) {
        (TickState::AwaitProbe, Event::Probed(_)) => true,
        (TickState::AwaitResolve { .. }, Event::Resolved(_)) => true,
        (TickState::AwaitRead { .. }, Event::RecordRead(_)) => true,
        (TickState::AwaitWrite { .. }, Event::RecordWritten(_)) => true,
        _ => false,
    }
}

/// One transition of target `t`'s tick: probe, then resolve and compare,
/// then read the authoritative record and compare, then write. Any failure
/// ends the tick with that failure as its outcome.
pub open spec fn next(t: DnsConfig, s: TickState, e: Event) -> (TickState, Action) {
    match (s, e) {
        (TickState::AwaitProbe, Event::Probed(Ok(ip))) => (
            TickState::AwaitResolve { actual: ip },
            Action::Resolve(t.domain),
        ),
        (TickState::AwaitProbe, Event::Probed(Err(err))) => (
            TickState::Done(Outcome::ProbeFailed(err)),
            Action::Finish,
        ),
        (TickState::AwaitResolve { actual }, Event::Resolved(Ok(published))) => if actual@
            == published@ {
            (TickState::Done(Outcome::InSync), Action::Finish)
        } else {
            (TickState::AwaitRead { actual }, Action::ReadRecord)
        },
        (TickState::AwaitResolve { .. }, Event::Resolved(Err(err))) => (
            TickState::Done(Outcome::ResolveFailed(err)),
            Action::Finish,
        ),
        (TickState::AwaitRead { actual }, Event::RecordRead(Ok(stored))) => if stored@ == actual@ {
            (TickState::Done(Outcome::ConvergedAfterPropagationWait), Action::Finish)
        } else {
            (TickState::AwaitWrite { actual }, Action::Write(upsert_for(t, actual)))
        },
        (TickState::AwaitRead { .. }, Event::RecordRead(Err(err))) => (
            TickState::Done(Outcome::ProviderReadFailed(err)),
            Action::Finish,
        ),
        (TickState::AwaitWrite { .. }, Event::RecordWritten(Ok(()))) => (
            TickState::Done(Outcome::Updated),
            Action::Finish,
        ),
        (TickState::AwaitWrite { .. }, Event::RecordWritten(Err(err))) => (
            TickState::Done(Outcome::ProviderWriteFailed(err)),
            Action::Finish,
        ),
        (s, _) => (s, Action::Finish),
    }
}

/// The state and action that open a target's tick.
pub fn start() -> (r: (TickState, Action))
    ensures
        r == (TickState::AwaitProbe, Action::Probe),
{
    (TickState::AwaitProbe, Action::Probe)
}

impl TickState {
    /// The event is the answer to the work that this state waits for.
    pub fn accepts(&self, e: &Event) -> (r: bool)
        ensures
            r == accepts(*self, *e),
    {
        match (self, e) {
            (TickState::AwaitProbe, Event::Probed(_)) => true,
            (TickState::AwaitResolve { .. }, Event::Resolved(_)) => true,
            (TickState::AwaitRead { .. }, Event::RecordRead(_)) => true,
            (TickState::AwaitWrite { .. }, Event::RecordWritten(_)) => true,
            _ => false,
        }
    }

    /// The tick is over.
    pub fn is_done(&self) -> (r: bool)
        ensures
            r == (*self is Done),
    {
        match self {
            TickState::Done(_) => true,
            _ => false,
        }
    }
}

/// Takes target `t`'s tick one step on: from the state and the answer to
/// the last action, the next state and the next action.
pub fn advance(t: &DnsConfig, s: TickState, e: Event) -> (r: (TickState, Action))
    requires
        accepts(s, e),
    ensures
        r == next(*t, s, e),
{
    match (s, e) {
        (TickState::AwaitProbe, Event::Probed(Ok(ip))) => (
            TickState::AwaitResolve { actual: ip },
            Action::Resolve(t.domain.clone()),
        ),
        (TickState::AwaitProbe, Event::Probed(Err(err))) => (
            TickState::Done(Outcome::ProbeFailed(err)),
            Action::Finish,
        ),
        (TickState::AwaitResolve { actual }, Event::Resolved(Ok(published))) => if actual
            == published {
            (TickState::Done(Outcome::InSync), Action::Finish)
        } else {
            (TickState::AwaitRead { actual }, Action::ReadRecord)
        },
        (TickState::AwaitResolve { .. }, Event::Resolved(Err(err))) => (
            TickState::Done(Outcome::ResolveFailed(err)),
            Action::Finish,
        ),
        (TickState::AwaitRead { actual }, Event::RecordRead(Ok(stored))) => if stored == actual {
            (TickState::Done(Outcome::ConvergedAfterPropagationWait), Action::Finish)
        } else {
            let request = update_record(t, &actual);
            (TickState::AwaitWrite { actual }, Action::Write(request))
        },
        (TickState::AwaitRead { .. }, Event::RecordRead(Err(err))) => (
            TickState::Done(Outcome::ProviderReadFailed(err)),
            Action::Finish,
        ),
        (TickState::AwaitWrite { .. }, Event::RecordWritten(Ok(()))) => (
            TickState::Done(Outcome::Updated),
            Action::Finish,
        ),
        (TickState::AwaitWrite { .. }, Event::RecordWritten(Err(err))) => (
            TickState::Done(Outcome::ProviderWriteFailed(err)),
            Action::Finish,
        ),
        (s, _) => (s, Action::Finish),
    }
}

/// An action other than a write to the provider.
pub open spec fn no_write(a: Action) -> bool {
    !(a is Write)
}

/// When the probe and public DNS agree, the tick asks for the lookup, then
/// ends in sync: no provider call, read or write, is asked for.
pub proof fn lemma_in_sync_no_write(t: DnsConfig, actual: String, published: String)
    requires
        actual@ == published@,
    ensures
        ({
            let s1 = next(t, TickState::AwaitProbe, Event::Probed(Ok(actual)));
            let s2 = next(t, s1.0, Event::Resolved(Ok(published)));
            &&& s1.1 == Action::Resolve(t.domain)
            &&& s2.0 == TickState::Done(Outcome::InSync)
            &&& s2.1 == Action::Finish
        }),
{
}

/// When the probe and public DNS disagree but the authoritative record
/// already holds the probed address, the tick reads the record once and
/// ends waiting for propagation, with no write.
pub proof fn lemma_propagation_no_write(t: DnsConfig, actual: String, published: String, stored: String)
    requires
        actual@ != published@,
        stored@ == actual@,
    ensures
        ({
            let s1 = next(t, TickState::AwaitProbe, Event::Probed(Ok(actual)));
            let s2 = next(t, s1.0, Event::Resolved(Ok(published)));
            let s3 = next(t, s2.0, Event::RecordRead(Ok(stored)));
            &&& no_write(s1.1)
            &&& s2.1 == Action::ReadRecord
            &&& s3.0 == TickState::Done(Outcome::ConvergedAfterPropagationWait)
            &&& s3.1 == Action::Finish
        }),
{
}

/// When the probed address differs from both public DNS and the
/// authoritative record, the tick asks for exactly one write: an upsert of
/// the configured record, with the configured TTL and the probed address.
/// Once the provider acknowledges it, the tick ends updated.
pub proof fn lemma_divergence_one_write(
    t: DnsConfig,
    actual: String,
    published: String,
    stored: String,
    written: Result<(), StoreError>,
)
    requires
        actual@ != published@,
        stored@ != actual@,
    ensures
        ({
            let s1 = next(t, TickState::AwaitProbe, Event::Probed(Ok(actual)));
            let s2 = next(t, s1.0, Event::Resolved(Ok(published)));
            let s3 = next(t, s2.0, Event::RecordRead(Ok(stored)));
            let s4 = next(t, s3.0, Event::RecordWritten(written));
            &&& no_write(s1.1)
            &&& no_write(s2.1)
            &&& s3.1 == Action::Write(
                UpsertRequest {
                    hosted_zone_id: t.aws.hosted_zone_id,
                    record_name: t.aws.record_name,
                    record_ttl: t.aws.record_ttl,
                    value: actual,
                },
            )
            &&& s4.1 == Action::Finish
            &&& s4.0 is Done
            &&& written is Ok ==> s4.0 == TickState::Done(Outcome::Updated)
        }),
{
}

/// The states of all targets of a round after target `i` takes event `e`.
pub open spec fn round_next(targets: Seq<DnsConfig>, states: Seq<TickState>, i: int, e: Event) -> Seq<TickState> {
    states.update(i, next(targets[i], states[i], e).0)
}

/// A failed probe ends that target's tick and touches no other target: each
/// other target keeps its state, and takes its next step as it would have
/// without the failure.
pub proof fn lemma_probe_failure_isolated(
    targets: Seq<DnsConfig>,
    states: Seq<TickState>,
    i: int,
    err: ProbeError,
    j: int,
    e: Event,
)
    requires
        targets.len() == states.len(),
        0 <= i < states.len(),
        0 <= j < states.len(),
        i != j,
        states[i] == TickState::AwaitProbe,
    ensures
        ({
            let after = round_next(targets, states, i, Event::Probed(Err(err)));
            &&& after[i] == TickState::Done(Outcome::ProbeFailed(err))
            &&& after[j] == states[j]
            &&& round_next(targets, after, j, e)[j] == round_next(targets, states, j, e)[j]
        }),
{
}

/// The ticks of all targets of one round, each at its own step.
pub struct Round {
    states: Vec<TickState>,
}

impl View for Round {
    type V = Seq<TickState>;

    closed spec fn view(&self) -> Seq<TickState> {
        self.states@
    }
}

impl Round {
    /// A round of `n` targets, each about to probe.
    pub fn new(n: usize) -> (r: Round)
        ensures
            r@.len() == n,
            forall|i: int| 0 <= i < n ==> r@[i] == TickState::AwaitProbe,
    {
        let mut states: Vec<TickState> = Vec::new();
        let mut k: usize = 0;
        while k < n
            invariant
                k <= n,
                states@.len() == k,
                forall|i: int| 0 <= i < k ==> states@[i] == TickState::AwaitProbe,
            decreases n - k,
        {
            states.push(TickState::AwaitProbe);
            k = k + 1;
        }
        Round { states }
    }

    /// The state of target `i`.
    pub fn state(&self, i: usize) -> (r: &TickState)
        requires
            i < self@.len(),
        ensures
            *r == self@[i as int],
    {
        &self.states[i]
    }

    /// Every target's tick is over.
    pub fn is_done(&self) -> (r: bool)
        ensures
            r == forall|i: int| 0 <= i < self@.len() ==> #[trigger] self@[i] is Done,
    {
        let mut k: usize = 0;
        while k < self.states.len()
            invariant
                k <= self@.len(),
                forall|i: int| 0 <= i < k ==> #[trigger] self@[i] is Done,
            decreases self@.len() - k,
        {
            if !self.states[k].is_done() {
                return false;
            }
            k = k + 1;
        }
        true
    }

    /// Takes target `i`'s tick one step on with event `e`; the other
    /// targets' states stay as they are. Returns target `i`'s next action.
    pub fn advance(&mut self, targets: &Vec<DnsConfig>, i: usize, e: Event) -> (r: Action)
        requires
            targets@.len() == old(self)@.len(),
            i < old(self)@.len(),
            accepts(old(self)@[i as int], e),
        ensures
            final(self)@ == round_next(targets@, old(self)@, i as int, e),
            r == next(targets@[i as int], old(self)@[i as int], e).1,
    {
        let s = self.states.remove(i);
        let (s2, a) = advance(&targets[i], s, e);
        self.states.insert(i, s2);
        assert(self.states@ =~= round_next(targets@, old(self)@, i as int, e));
        a
    }
}

/// The label put in front of an error to say which step of a tick failed.
pub open spec fn step_label(o: Outcome) -> Seq<char> {
    match o {
        Outcome::ProbeFailed(_) => "Failed to get current IP:"@,
        Outcome::ResolveFailed(_) => "Failed to get domain IP:"@,
        Outcome::ProviderReadFailed(_) => "Failed to read DNS record:"@,
        _ => "Failed to update DNS record:"@,
    }
}

impl Outcome {
    /// The tick ended in a failure.
    pub open spec fn is_failure(self) -> bool {
        ||| self is ProbeFailed
        ||| self is ResolveFailed
        ||| self is ProviderReadFailed
        ||| self is ProviderWriteFailed
    }

    /// For a failed tick, the error with the failed step's label in front
    /// of it; nothing for a tick that succeeded.
    pub fn failure_message(&self) -> (r: Option<String>)
        ensures
            r is Some <==> self.is_failure(),
            r matches Some(m) ==> m@ == prefixed(step_label(*self), match *self {
                Outcome::ProbeFailed(e) => probe_message(e),
                Outcome::ResolveFailed(e) => resolve_message(e),
                Outcome::ProviderReadFailed(e) => store_message(e),
                Outcome::ProviderWriteFailed(e) => store_message(e),
                _ => Seq::empty(),
            }),
    {
        proof {
            reveal_strlit("Failed to get current IP:");
            reveal_strlit("Failed to get domain IP:");
            reveal_strlit("Failed to read DNS record:");
            reveal_strlit("Failed to update DNS record:");
        }
        match self {
            Outcome::ProbeFailed(e) => Some(
                map_prefixed_err("Failed to get current IP:", e.message().as_str()),
            ),
            Outcome::ResolveFailed(e) => Some(
                map_prefixed_err("Failed to get domain IP:", e.message().as_str()),
            ),
            Outcome::ProviderReadFailed(e) => Some(
                map_prefixed_err("Failed to read DNS record:", e.message().as_str()),
            ),
            Outcome::ProviderWriteFailed(e) => Some(
                map_prefixed_err("Failed to update DNS record:", e.message().as_str()),
            ),
            _ => None,
        }
    }
}

} // verus!
