use vstd::prelude::*;

use crate::config::DnsConfig;

verus! {

/// Why the authoritative record could not be read or written.
#[derive(PartialEq, Eq, Clone, Debug)]
pub enum StoreError {
    /// No record set of the zone carries the configured name.
    RecordNotFound,
    /// The record set carries no value.
    EmptyRecord,
    /// The provider refused the call or could not be reached; the cause is
    /// its message.
    ProviderError(String),
}

/// One record set of a hosted zone, as the provider lists it: its fully
/// qualified name and its values in order.
pub struct RecordSet {
    pub name: String,
    pub values: Vec<String>,
}

/// The one change that a write submits: create or replace, in the zone
/// `hosted_zone_id`, the address record `record_name` with the single value
/// `value` and the time to live `record_ttl`.
#[derive(PartialEq, Eq, Debug)]
pub struct UpsertRequest {
    pub hosted_zone_id: String,
    pub record_name: String,
    pub record_ttl: i64,
    pub value: String,
}

/// A record name as the provider writes it in its listings: with a final
/// dot, added when the name lacks one.
pub open spec fn fqdn(name: Seq<char>) -> Seq<char> {
    if name.len() > 0 && name.last() == '.' {
        name
    } else {
        name + seq!['.']
    }
}

/// The record set at `i` is the first one named `fqdn(name)`.
pub open spec fn first_match(sets: Seq<RecordSet>, name: Seq<char>, i: int) -> bool {
    &&& 0 <= i < sets.len()
    &&& sets[i].name@ == fqdn(name)
    &&& forall|j: int| 0 <= j < i ==> sets[j].name@ != fqdn(name)
}

/// No record set is named `fqdn(name)`.
pub open spec fn no_match(sets: Seq<RecordSet>, name: Seq<char>) -> bool {
    forall|j: int| 0 <= j < sets.len() ==> sets[j].name@ != fqdn(name)
}

/// The value of the configured record, from the provider's listing of the
/// target's hosted zone, or the provider's failure to list it.
pub fn get_ip(dns_config: &DnsConfig, listed: Result<Vec<RecordSet>, String>) -> (r: Result<String, StoreError>)
    ensures
        listed matches Err(cause) ==> (r matches Err(StoreError::ProviderError(c)) && c@ == cause@),
        listed matches Ok(sets) ==> r == find_record_ip(sets@, dns_config.aws.record_name@),
{
    match listed {
        Ok(sets) => find_record(&sets, dns_config.aws.record_name.as_str()),
        Err(cause) => Err(StoreError::ProviderError(cause)),
    }
}

/// What a lookup of `name` in the listing `sets` gives: the first value of
/// the first record set named `fqdn(name)`.
pub open spec fn find_record_ip(sets: Seq<RecordSet>, name: Seq<char>) -> Result<String, StoreError> {
    if no_match(sets, name) {
        Err(StoreError::RecordNotFound)
    } else {
        let i = choose|i: int| first_match(sets, name, i);
        if sets[i].values@.len() == 0 {
            Err(StoreError::EmptyRecord)
        } else {
            Ok(sets[i].values@[0])
        }
    }
}

/// Picks out the value of the record `name` from a listing of record sets:
/// the first value of the first set named `name` with a final dot (the dot
/// added when `name` lacks one). Sets of other names are passed over.
pub fn find_record(sets: &Vec<RecordSet>, name: &str) -> (r: Result<String, StoreError>)
    ensures
        r == find_record_ip(sets@, name@),
        no_match(sets@, name@) ==> r == Err::<String, StoreError>(StoreError::RecordNotFound),
        forall|i: int| #[trigger] first_match(sets@, name@, i) ==> {
            &&& sets@[i].values@.len() == 0 ==> r == Err::<String, StoreError>(StoreError::EmptyRecord)
            &&& sets@[i].values@.len() > 0 ==> r == Ok::<String, StoreError>(sets@[i].values@[0])
        },
{
    let n = name.unicode_len();
    let wanted = if n > 0 && name.get_char(n - 1) == '.' {
        String::from_str(name)
    } else {
        proof {
            reveal_strlit(".");
        }
        String::from_str(name).concat(".")
    };
    assert(wanted@ =~= fqdn(name@));
    let mut i: usize = 0;
    while i < sets.len()
        invariant
            i <= sets@.len(),
            wanted@ == fqdn(name@),
            forall|j: int| 0 <= j < i ==> sets@[j].name@ != fqdn(name@),
        decreases sets@.len() - i,
    {
        if sets[i].name == wanted {
            assert(first_match(sets@, name@, i as int));
            proof {
                let k = choose|k: int| first_match(sets@, name@, k);
                assert(k == i as int);
            }
            if sets[i].values.len() == 0 {
                return Err(StoreError::EmptyRecord);
            }
            return Ok(sets[i].values[0].clone());
        }
        i = i + 1;
    }
    assert forall|k: int| !first_match(sets@, name@, k) by {}
    Err(StoreError::RecordNotFound)
}

/// The change that brings the record of target `t` to `ipv4`.
pub open spec fn upsert_for(t: DnsConfig, ipv4: String) -> UpsertRequest {
    UpsertRequest {
        hosted_zone_id: t.aws.hosted_zone_id,
        record_name: t.aws.record_name,
        record_ttl: t.aws.record_ttl,
        value: ipv4,
    }
}

/// The change that brings the target's record to `ipv4`: an address record
/// named after the configured record, with the configured time to live and
/// `ipv4` as its one value, in the configured hosted zone.
pub fn update_record(dns_config: &DnsConfig, ipv4: &String) -> (r: UpsertRequest)
    ensures
        r == upsert_for(*dns_config, *ipv4),
        r.hosted_zone_id@ == dns_config.aws.hosted_zone_id@,
        r.record_name@ == dns_config.aws.record_name@,
        r.record_ttl == dns_config.aws.record_ttl,
        r.value@ == ipv4@,
{
    UpsertRequest {
        hosted_zone_id: dns_config.aws.hosted_zone_id.clone(),
        record_name: dns_config.aws.record_name.clone(),
        record_ttl: dns_config.aws.record_ttl,
        value: ipv4.clone(),
    }
}

/// The text shown to the operator for a record store error.
pub open spec fn store_message(e: StoreError) -> Seq<char> {
    match e {
        StoreError::RecordNotFound => "ResourceRecordSet not found"@,
        StoreError::EmptyRecord => "ResourceRecord not found"@,
        StoreError::ProviderError(cause) => cause@,
    }
}

impl StoreError {
    /// The text shown to the operator for this error.
    pub fn message(&self) -> (r: String)
        ensures
            r@ == store_message(*self),
    {
        proof {
            reveal_strlit("ResourceRecordSet not found");
            reveal_strlit("ResourceRecord not found");
        }
        match self {
            StoreError::RecordNotFound => String::from_str("ResourceRecordSet not found"),
            StoreError::EmptyRecord => String::from_str("ResourceRecord not found"),
            StoreError::ProviderError(cause) => cause.clone(),
        }
    }
}

} // verus!
