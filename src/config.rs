use vstd::prelude::*;

verus! {

/// Settings shared by every target.
pub struct GeneralConfig {
    /// Seconds to sleep between two rounds.
    pub poll_interval: u64,
}

/// Credentials and record coordinates of one target at the DNS provider.
pub struct AwsConfig {
    pub access_key: String,
    pub secret_key: String,
    pub hosted_zone_id: String,
    pub record_name: String,
    pub record_ttl: i64,
}

/// One target: a domain kept in sync, with its provider settings.
pub struct DnsConfig {
    pub domain: String,
    pub aws: AwsConfig,
}

/// The whole configuration: the poll interval and the targets.
pub struct Config {
    pub general: GeneralConfig,
    pub dns: Vec<DnsConfig>,
}

/// One reason why a configuration is refused. The index is the position of
/// the target in `Config::dns`.
#[derive(PartialEq, Eq, Structural, Clone, Copy, Debug)]
pub enum ConfigError {
    PollInterval,
    NoTarget,
    Domain(usize),
    AccessKey(usize),
    SecretKey(usize),
    HostedZoneId(usize),
    RecordName(usize),
    RecordTtl(usize),
}

/// `e` when `bad` holds, else nothing.
pub open spec fn error_if(bad: bool, e: ConfigError) -> Seq<ConfigError> {
    if bad {
        seq![e]
    } else {
        Seq::empty()
    }
}

/// What is wrong with the target at position `i`, field by field.
pub open spec fn target_errors(d: DnsConfig, i: usize) -> Seq<ConfigError> {
    error_if(d.domain@.len() == 0, ConfigError::Domain(i))
        + error_if(d.aws.access_key@.len() == 0, ConfigError::AccessKey(i))
        + error_if(d.aws.secret_key@.len() == 0, ConfigError::SecretKey(i))
        + error_if(d.aws.hosted_zone_id@.len() == 0, ConfigError::HostedZoneId(i))
        + error_if(d.aws.record_name@.len() == 0, ConfigError::RecordName(i))
        + error_if(d.aws.record_ttl < 1, ConfigError::RecordTtl(i))
}

/// What is wrong with the targets, in their order.
pub open spec fn targets_errors(s: Seq<DnsConfig>) -> Seq<ConfigError>
    decreases s.len(),
{
    if s.len() == 0 {
        Seq::empty()
    } else {
        targets_errors(s.drop_last()) + target_errors(s.last(), (s.len() - 1) as usize)
    }
}

/// Every reason why `c` is refused: the poll interval, each target in
/// order, then a missing target list.
pub open spec fn config_errors(c: Config) -> Seq<ConfigError> {
    error_if(c.general.poll_interval < 1, ConfigError::PollInterval) + targets_errors(c.dns@)
        + error_if(c.dns@.len() == 0, ConfigError::NoTarget)
}

/// A target whose fields are all filled in, with a positive TTL.
pub open spec fn target_valid(d: DnsConfig) -> bool {
    &&& d.domain@.len() > 0
    &&& d.aws.access_key@.len() > 0
    &&& d.aws.secret_key@.len() > 0
    &&& d.aws.hosted_zone_id@.len() > 0
    &&& d.aws.record_name@.len() > 0
    &&& d.aws.record_ttl >= 1
}

/// A configuration that the reconciler can run on.
pub open spec fn config_valid(c: Config) -> bool {
    &&& c.general.poll_interval >= 1
    &&& c.dns@.len() >= 1
    &&& forall|i: int| 0 <= i < c.dns@.len() ==> target_valid(#[trigger] c.dns@[i])
}

proof fn lemma_target_errors_empty(d: DnsConfig, i: usize)
    ensures
        target_errors(d, i).len() == 0 <==> target_valid(d),
{
    let a = error_if(d.domain@.len() == 0, ConfigError::Domain(i));
    let b = error_if(d.aws.access_key@.len() == 0, ConfigError::AccessKey(i));
    let c = error_if(d.aws.secret_key@.len() == 0, ConfigError::SecretKey(i));
    let e = error_if(d.aws.hosted_zone_id@.len() == 0, ConfigError::HostedZoneId(i));
    let f = error_if(d.aws.record_name@.len() == 0, ConfigError::RecordName(i));
    let g = error_if(d.aws.record_ttl < 1, ConfigError::RecordTtl(i));
    assert(target_errors(d, i).len() == a.len() + b.len() + c.len() + e.len() + f.len() + g.len());
}

proof fn lemma_targets_errors_empty(s: Seq<DnsConfig>)
    ensures
        targets_errors(s).len() == 0 <==> forall|i: int| 0 <= i < s.len() ==> target_valid(#[trigger] s[i]),
    decreases s.len(),
{
    if s.len() > 0 {
        lemma_targets_errors_empty(s.drop_last());
        lemma_target_errors_empty(s.last(), (s.len() - 1) as usize);
        if targets_errors(s).len() == 0 {
            assert forall|i: int| 0 <= i < s.len() implies target_valid(#[trigger] s[i]) by {
                if i < s.len() - 1 {
                    assert(s[i] == s.drop_last()[i]);
                }
            }
        } else {
            if forall|i: int| 0 <= i < s.len() ==> target_valid(#[trigger] s[i]) {
                assert forall|i: int| 0 <= i < s.drop_last().len() implies target_valid(
                    #[trigger] s.drop_last()[i],
                ) by {
                    assert(s[i] == s.drop_last()[i]);
                }
                assert(target_valid(s[s.len() - 1]));
            }
        }
    }
}

/// A configuration has no errors exactly when it is valid.
pub proof fn lemma_config_errors_empty(c: Config)
    ensures
        config_errors(c).len() == 0 <==> config_valid(c),
{
    lemma_targets_errors_empty(c.dns@);
}

fn push_if(errors: &mut Vec<ConfigError>, bad: bool, e: ConfigError)
    ensures
        final(errors)@ == old(errors)@ + error_if(bad, e),
{
    if bad {
        errors.push(e);
    } else {
        assert(old(errors)@ + error_if(bad, e) =~= old(errors)@);
    }
}

/// The text shown to the operator for a configuration error.
pub open spec fn config_message(e: ConfigError) -> Seq<char> {
    match e {
        ConfigError::PollInterval => "general.poll_interval must be greater than 0"@,
        ConfigError::NoTarget => "At least one DNS configuration is required"@,
        ConfigError::Domain(_) => "domain is required"@,
        ConfigError::AccessKey(_) => "access_key is required"@,
        ConfigError::SecretKey(_) => "secret_key is required"@,
        ConfigError::HostedZoneId(_) => "hosted_zone_id is required"@,
        ConfigError::RecordName(_) => "record_name is required"@,
        ConfigError::RecordTtl(_) => "ttl must be greater than 0"@,
    }
}

impl ConfigError {
    /// The text shown to the operator for this error.
    pub fn message(&self) -> (r: String)
        ensures
            r@ == config_message(*self),
    {
        let s = match self {
            ConfigError::PollInterval => "general.poll_interval must be greater than 0",
            ConfigError::NoTarget => "At least one DNS configuration is required",
            ConfigError::Domain(_) => "domain is required",
            ConfigError::AccessKey(_) => "access_key is required",
            ConfigError::SecretKey(_) => "secret_key is required",
            ConfigError::HostedZoneId(_) => "hosted_zone_id is required",
            ConfigError::RecordName(_) => "record_name is required",
            ConfigError::RecordTtl(_) => "ttl must be greater than 0",
        };
        proof {
            reveal_strlit("general.poll_interval must be greater than 0");
            reveal_strlit("At least one DNS configuration is required");
            reveal_strlit("domain is required");
            reveal_strlit("access_key is required");
            reveal_strlit("secret_key is required");
            reveal_strlit("hosted_zone_id is required");
            reveal_strlit("record_name is required");
            reveal_strlit("ttl must be greater than 0");
        }
        String::from_str(s)
    }
}

impl DnsConfig {
    /// Every reason why this target is refused, in field order.
    pub fn validate(&self, index: usize) -> (r: Vec<ConfigError>)
        ensures
            r@ == target_errors(*self, index),
    {
        let mut errors: Vec<ConfigError> = Vec::new();
        push_if(&mut errors, self.domain.as_str().is_empty(), ConfigError::Domain(index));
        push_if(&mut errors, self.aws.access_key.as_str().is_empty(), ConfigError::AccessKey(index));
        push_if(&mut errors, self.aws.secret_key.as_str().is_empty(), ConfigError::SecretKey(index));
        push_if(
            &mut errors,
            self.aws.hosted_zone_id.as_str().is_empty(),
            ConfigError::HostedZoneId(index),
        );
        push_if(&mut errors, self.aws.record_name.as_str().is_empty(), ConfigError::RecordName(index));
        push_if(&mut errors, self.aws.record_ttl < 1, ConfigError::RecordTtl(index));
        assert(errors@ =~= target_errors(*self, index));
        errors
    }
}

impl Config {
    /// Every reason why this configuration is refused; empty when it is valid.
    pub fn validate(&self) -> (r: Vec<ConfigError>)
        ensures
            r@ == config_errors(*self),
            r@.len() == 0 <==> config_valid(*self),
    {
        let mut errors: Vec<ConfigError> = Vec::new();
        push_if(&mut errors, self.general.poll_interval < 1, ConfigError::PollInterval);
        let ghost head = errors@;
        let mut i: usize = 0;
        while i < self.dns.len()
            invariant
                i <= self.dns@.len(),
                errors@ == head + targets_errors(self.dns@.subrange(0, i as int)),
            decreases self.dns@.len() - i,
        {
            let mut more = self.dns[i].validate(i);
            proof {
                let s = self.dns@.subrange(0, i as int + 1);
                assert(s.drop_last() =~= self.dns@.subrange(0, i as int));
                assert(s.last() == self.dns@[i as int]);
            }
            errors.append(&mut more);
            proof {
                assert(errors@ =~= head + targets_errors(self.dns@.subrange(0, i as int + 1)));
            }
            i = i + 1;
        }
        assert(self.dns@.subrange(0, self.dns@.len() as int) =~= self.dns@);
        push_if(&mut errors, self.dns.len() == 0, ConfigError::NoTarget);
        proof {
            lemma_config_errors_empty(*self);
        }
        errors
    }
}

/// Hands back a configuration read from the operator's file once it has
/// been checked: the configuration itself when it is valid, else every
/// reason why it is refused.
pub fn get_config(cfg: Config) -> (r: Result<Config, Vec<ConfigError>>)
    ensures
        r is Ok <==> config_valid(cfg),
        r matches Ok(c) ==> c == cfg,
        r matches Err(errs) ==> errs@ == config_errors(cfg) && errs@.len() > 0,
{
    let errors = cfg.validate();
    if errors.len() == 0 {
        Ok(cfg)
    } else {
        Err(errors)
    }
}

} // verus!
