use ipsync::config::{AwsConfig, DnsConfig};
use ipsync::ip_utils::{ProbeError, ResolveError};
use ipsync::reconcile::{advance, start, Action, Event, Outcome, Round, TickState};
use ipsync::route53::{StoreError, UpsertRequest};

fn target(domain: &str) -> DnsConfig {
    DnsConfig {
        domain: domain.to_string(),
        aws: AwsConfig {
            access_key: "key".to_string(),
            secret_key: "secret".to_string(),
            hosted_zone_id: "Z123".to_string(),
            record_name: domain.to_string(),
            record_ttl: 60,
        },
    }
}

struct Fakes {
    probe: Result<String, ProbeError>,
    resolve: Result<String, ResolveError>,
    read: Result<String, StoreError>,
    write: Result<(), StoreError>,
}

struct Calls {
    resolves: Vec<String>,
    reads: u32,
    writes: Vec<UpsertRequest>,
}

fn run_tick(t: &DnsConfig, f: &Fakes) -> (Outcome, Calls) {
    let mut calls = Calls { resolves: vec![], reads: 0, writes: vec![] };
    let (mut state, mut action) = start();
    loop {
        let event = match action {
            Action::Probe => Event::Probed(f.probe.clone()),
            Action::Resolve(d) => {
                calls.resolves.push(d);
                Event::Resolved(f.resolve.clone())
            }
            Action::ReadRecord => {
                calls.reads += 1;
                Event::RecordRead(f.read.clone())
            }
            Action::Write(req) => {
                calls.writes.push(req);
                Event::RecordWritten(f.write.clone())
            }
            Action::Finish => match state {
                TickState::Done(o) => return (o, calls),
                _ => panic!("finished before the tick was over"),
            },
        };
        assert!(state.accepts(&event));
        let (s, a) = advance(t, state, event);
        state = s;
        action = a;
    }
}

fn ok_fakes(probe: &str, resolve: &str, read: &str) -> Fakes {
    Fakes {
        probe: Ok(probe.to_string()),
        resolve: Ok(resolve.to_string()),
        read: Ok(read.to_string()),
        write: Ok(()),
    }
}

#[test]
fn scenario_in_sync_makes_no_provider_call() {
    let t = target("a.example.com");
    let (o, calls) = run_tick(&t, &ok_fakes("1.2.3.4", "1.2.3.4", "9.9.9.9"));
    assert_eq!(o, Outcome::InSync);
    assert_eq!(calls.resolves, vec!["a.example.com".to_string()]);
    assert_eq!(calls.reads, 0);
    assert!(calls.writes.is_empty());
}

#[test]
fn scenario_propagation_wait_reads_once_and_writes_nothing() {
    let t = target("a.example.com");
    let (o, calls) = run_tick(&t, &ok_fakes("5.6.7.8", "1.2.3.4", "5.6.7.8"));
    assert_eq!(o, Outcome::ConvergedAfterPropagationWait);
    assert_eq!(calls.reads, 1);
    assert!(calls.writes.is_empty());
}

#[test]
fn scenario_divergence_writes_once() {
    let t = target("a.example.com");
    let (o, calls) = run_tick(&t, &ok_fakes("5.6.7.8", "1.2.3.4", "9.9.9.9"));
    assert_eq!(o, Outcome::Updated);
    assert_eq!(calls.reads, 1);
    assert_eq!(
        calls.writes,
        vec![UpsertRequest {
            hosted_zone_id: "Z123".to_string(),
            record_name: "a.example.com".to_string(),
            record_ttl: 60,
            value: "5.6.7.8".to_string(),
        }]
    );
}

#[test]
fn store_read_of_the_stale_published_value_still_writes() {
    let t = target("a.example.com");
    let (o, calls) = run_tick(&t, &ok_fakes("5.6.7.8", "1.2.3.4", "1.2.3.4"));
    assert_eq!(o, Outcome::Updated);
    assert_eq!(calls.writes.len(), 1);
    assert_eq!(calls.writes[0].value, "5.6.7.8");
}

#[test]
fn each_failing_step_ends_the_tick() {
    let t = target("a.example.com");
    let mut f = ok_fakes("5.6.7.8", "1.2.3.4", "9.9.9.9");
    f.probe = Err(ProbeError::NoAddress);
    let (o, calls) = run_tick(&t, &f);
    assert_eq!(o, Outcome::ProbeFailed(ProbeError::NoAddress));
    assert!(calls.resolves.is_empty());

    let mut f = ok_fakes("5.6.7.8", "1.2.3.4", "9.9.9.9");
    f.resolve = Err(ResolveError::Lookup("timeout".to_string()));
    let (o, calls) = run_tick(&t, &f);
    assert_eq!(o, Outcome::ResolveFailed(ResolveError::Lookup("timeout".to_string())));
    assert_eq!(calls.reads, 0);

    let mut f = ok_fakes("5.6.7.8", "1.2.3.4", "9.9.9.9");
    f.read = Err(StoreError::RecordNotFound);
    let (o, calls) = run_tick(&t, &f);
    assert_eq!(o, Outcome::ProviderReadFailed(StoreError::RecordNotFound));
    assert!(calls.writes.is_empty());

    let mut f = ok_fakes("5.6.7.8", "1.2.3.4", "9.9.9.9");
    f.write = Err(StoreError::ProviderError("throttled".to_string()));
    let (o, calls) = run_tick(&t, &f);
    assert_eq!(o, Outcome::ProviderWriteFailed(StoreError::ProviderError("throttled".to_string())));
    assert_eq!(calls.writes.len(), 1);
}

#[test]
fn failure_messages_name_the_step() {
    let o = Outcome::ProbeFailed(ProbeError::Unavailable("No such file".to_string()));
    assert_eq!(o.failure_message(), Some("Failed to get current IP: No such file, is upnpc installed?".to_string()));
    let o = Outcome::ResolveFailed(ResolveError::NoRecord("a.example.com".to_string()));
    assert_eq!(
        o.failure_message(),
        Some("Failed to get domain IP: Could not resolve a.example.com to IP address.".to_string())
    );
    let o = Outcome::ProviderReadFailed(StoreError::EmptyRecord);
    assert_eq!(o.failure_message(), Some("Failed to read DNS record: ResourceRecord not found".to_string()));
    let o = Outcome::ProviderWriteFailed(StoreError::ProviderError("denied".to_string()));
    assert_eq!(o.failure_message(), Some("Failed to update DNS record: denied".to_string()));
    assert_eq!(Outcome::Updated.failure_message(), None);
    assert_eq!(Outcome::InSync.failure_message(), None);
}

#[test]
fn a_failed_probe_leaves_the_other_targets_alone() {
    let targets = vec![target("a.example.com"), target("b.example.com"), target("c.example.com")];
    let mut round = Round::new(targets.len());
    assert!(!round.is_done());
    let a = round.advance(&targets, 1, Event::Probed(Err(ProbeError::Failed("exit status: 1".to_string()))));
    assert_eq!(a, Action::Finish);
    assert_eq!(round.state(1), &TickState::Done(Outcome::ProbeFailed(ProbeError::Failed("exit status: 1".to_string()))));
    assert_eq!(round.state(0), &TickState::AwaitProbe);
    assert_eq!(round.state(2), &TickState::AwaitProbe);

    // target 0 in sync
    let a = round.advance(&targets, 0, Event::Probed(Ok("1.2.3.4".to_string())));
    assert_eq!(a, Action::Resolve("a.example.com".to_string()));
    let a = round.advance(&targets, 0, Event::Resolved(Ok("1.2.3.4".to_string())));
    assert_eq!(a, Action::Finish);
    // target 2 stale
    round.advance(&targets, 2, Event::Probed(Ok("5.6.7.8".to_string())));
    assert_eq!(round.advance(&targets, 2, Event::Resolved(Ok("1.2.3.4".to_string()))), Action::ReadRecord);
    let a = round.advance(&targets, 2, Event::RecordRead(Ok("9.9.9.9".to_string())));
    assert!(matches!(a, Action::Write(ref r) if r.record_name == "c.example.com" && r.value == "5.6.7.8"));
    assert!(!round.is_done());
    round.advance(&targets, 2, Event::RecordWritten(Ok(())));
    assert!(round.is_done());
    assert_eq!(round.state(0), &TickState::Done(Outcome::InSync));
    assert_eq!(round.state(2), &TickState::Done(Outcome::Updated));
}

#[test]
fn an_event_for_another_step_is_not_accepted() {
    let (state, _) = start();
    assert!(!state.accepts(&Event::Resolved(Ok("1.2.3.4".to_string()))));
    assert!(state.accepts(&Event::Probed(Ok("1.2.3.4".to_string()))));
}
