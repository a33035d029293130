use vstd::prelude::*;

use crate::utils::map_prefixed_err;

verus! {

/// Why the machine's public address could not be found this cycle.
#[derive(PartialEq, Eq, Clone, Debug)]
pub enum ProbeError {
    /// The probe helper could not be run; the cause is the system's message.
    Unavailable(String),
    /// The probe helper ran and reported failure; the cause is its status.
    Failed(String),
    /// The probe helper's output names no external address.
    NoAddress,
}

/// Why the published address of a domain could not be learned.
#[derive(PartialEq, Eq, Clone, Debug)]
pub enum ResolveError {
    /// The lookup answered with no address record for this domain.
    NoRecord(String),
    /// The lookup itself failed; the cause is the resolver's message.
    Lookup(String),
}

/// The label that the probe helper puts in front of the external address.
pub open spec fn marker() -> Seq<char> {
    seq!['E', 'x', 't', 'e', 'r', 'n', 'a', 'l', 'I', 'P', 'A', 'd', 'd', 'r', 'e', 's', 's', ' ', '=', ' ']
}

/// A decimal digit.
pub open spec fn is_digit(c: char) -> bool {
    '0' <= c <= '9'
}

/// A decimal digit stands at position `i` of `s`.
pub open spec fn digit_at(s: Seq<char>, i: int) -> bool {
    0 <= i < s.len() && is_digit(s[i])
}

/// The character `c` stands at position `i` of `s`.
pub open spec fn char_at(s: Seq<char>, i: int, c: char) -> bool {
    0 <= i < s.len() && s[i] == c
}

/// The value of a decimal digit.
pub open spec fn digit_value(c: char) -> int {
    c as int - '0' as int
}

/// What ends a group: a dot for the first three groups of an address; a
/// line break or the end of the text for the last one.
pub open spec fn sep_at(s: Seq<char>, i: int, last: bool) -> bool {
    if last {
        i == s.len() || char_at(s, i, '\n')
    } else {
        char_at(s, i, '.')
    }
}

/// The length of an octet that starts at `k` and is followed by its
/// separator: one to three digits whose value is at most 255; 0 when there
/// is no such group.
pub open spec fn group_len(s: Seq<char>, k: int, last: bool) -> int {
    if digit_at(s, k) && sep_at(s, k + 1, last) {
        1
    } else if digit_at(s, k) && digit_at(s, k + 1) && sep_at(s, k + 2, last) {
        2
    } else if digit_at(s, k) && digit_at(s, k + 1) && digit_at(s, k + 2) && sep_at(s, k + 3, last)
        && 100 * digit_value(s[k]) + 10 * digit_value(s[k + 1]) + digit_value(s[k + 2]) <= 255 {
        3
    } else {
        0
    }
}

/// Where an IPv4 address in dotted-decimal form that starts at `k` ends
/// (the position of the line break or the end of the text after it), if
/// one starts there.
pub open spec fn quad_end(s: Seq<char>, k: int) -> Option<int> {
    let a = group_len(s, k, false);
    let b = group_len(s, k + a + 1, false);
    let c = group_len(s, k + a + b + 2, false);
    let d = group_len(s, k + a + b + c + 3, true);
    if a > 0 && b > 0 && c > 0 && d > 0 {
        Some(k + a + b + c + d + 3)
    } else {
        None
    }
}

/// The marker stands at position `k` of `s`.
pub open spec fn marker_at(s: Seq<char>, k: int) -> bool {
    0 <= k && k + 20 <= s.len() && s.subrange(k, k + 20) == marker()
}

/// The marker, then a dotted quad and a line break, start at `k`.
pub open spec fn address_at(s: Seq<char>, k: int) -> bool {
    marker_at(s, k) && quad_end(s, k + 20) is Some
}

/// The address named at `k`, where `address_at(s, k)` holds.
pub open spec fn address_text(s: Seq<char>, k: int) -> Seq<char> {
    s.subrange(k + 20, quad_end(s, k + 20)->Some_0)
}

/// The address that the first line of the form
/// `ExternalIPAddress = a.b.c.d` names, where `a`, `b`, `c`, `d` are one to
/// three digits of value at most 255 and the line ends right after `d`.
pub open spec fn external_address(s: Seq<char>) -> Option<Seq<char>> {
    if exists|k: int| address_at(s, k) {
        let k = choose|k: int| address_at(s, k) && forall|j: int| 0 <= j < k ==> !address_at(s, j);
        Some(address_text(s, k))
    } else {
        None
    }
}

/// White space as Unicode's White_Space property lists it.
pub open spec fn is_white_space(c: char) -> bool {
    ||| '\u{9}' <= c <= '\u{d}'
    ||| c == ' '
    ||| c == '\u{85}'
    ||| c == '\u{a0}'
    ||| c == '\u{1680}'
    ||| '\u{2000}' <= c <= '\u{200a}'
    ||| c == '\u{2028}'
    ||| c == '\u{2029}'
    ||| c == '\u{202f}'
    ||| c == '\u{205f}'
    ||| c == '\u{3000}'
}

/// The text without its leading white space.
pub open spec fn trim_start(s: Seq<char>) -> Seq<char>
    decreases s.len(),
{
    if s.len() > 0 && is_white_space(s[0]) {
        trim_start(s.drop_first())
    } else {
        s
    }
}

/// The text without its trailing white space.
pub open spec fn trim_end(s: Seq<char>) -> Seq<char>
    decreases s.len(),
{
    if s.len() > 0 && is_white_space(s.last()) {
        trim_end(s.drop_last())
    } else {
        s
    }
}

/// The text without its leading and trailing white space.
pub open spec fn trimmed(s: Seq<char>) -> Seq<char> {
    trim_end(trim_start(s))
}

/// Relies on `str::trim`: the text without its leading and trailing white
/// space, white space being what Unicode's White_Space property lists.
#[verifier::external_body]
fn trim_text(s: &str) -> (r: String)
    ensures
        r@ == trimmed(s@),
{
    s.trim().to_string()
}

fn is_digit_at(s: &str, n: usize, i: usize) -> (r: bool)
    requires
        n == s@.len(),
    ensures
        r == digit_at(s@, i as int),
{
    if i < n {
        let c = s.get_char(i);
        '0' <= c && c <= '9'
    } else {
        false
    }
}

fn is_char_at(s: &str, n: usize, i: usize, c: char) -> (r: bool)
    requires
        n == s@.len(),
    ensures
        r == char_at(s@, i as int, c),
{
    i < n && s.get_char(i) == c
}

fn is_sep_at(s: &str, n: usize, i: usize, last: bool) -> (r: bool)
    requires
        n == s@.len(),
    ensures
        r == sep_at(s@, i as int, last),
{
    if last {
        i == n || is_char_at(s, n, i, '\n')
    } else {
        is_char_at(s, n, i, '.')
    }
}

fn value_at(s: &str, n: usize, i: usize) -> (r: u32)
    requires
        n == s@.len(),
        digit_at(s@, i as int),
    ensures
        r == digit_value(s@[i as int]),
        r <= 9,
{
    (s.get_char(i) as u32) - ('0' as u32)
}

fn group_length(s: &str, n: usize, k: usize, last: bool) -> (r: usize)
    requires
        n == s@.len(),
        k <= n,
    ensures
        r == group_len(s@, k as int, last),
{
    if is_digit_at(s, n, k) && is_sep_at(s, n, k + 1, last) {
        1
    } else if is_digit_at(s, n, k) && is_digit_at(s, n, k + 1) && is_sep_at(s, n, k + 2, last) {
        2
    } else if is_digit_at(s, n, k) && is_digit_at(s, n, k + 1) && is_digit_at(s, n, k + 2)
        && is_sep_at(s, n, k + 3, last) && 100 * value_at(s, n, k) + 10 * value_at(s, n, k + 1)
        + value_at(s, n, k + 2) <= 255 {
        3
    } else {
        0
    }
}

fn dotted_quad_end(s: &str, n: usize, k: usize) -> (r: Option<usize>)
    requires
        n == s@.len(),
        k <= n,
    ensures
        r matches Some(e) ==> quad_end(s@, k as int) == Some(e as int),
        r is None ==> quad_end(s@, k as int) is None,
{
    let a = group_length(s, n, k, false);
    if a == 0 {
        return None;
    }
    let b = group_length(s, n, k + a + 1, false);
    if b == 0 {
        return None;
    }
    let c = group_length(s, n, k + a + b + 2, false);
    if c == 0 {
        return None;
    }
    let d = group_length(s, n, k + a + b + c + 3, true);
    if d == 0 {
        return None;
    }
    Some(k + a + b + c + d + 3)
}

fn has_marker_at(s: &str, n: usize, k: usize) -> (r: bool)
    requires
        n == s@.len(),
    ensures
        r == marker_at(s@, k as int),
{
    if n < 20 || k > n - 20 {
        return false;
    }
    let m = "ExternalIPAddress = ";
    proof {
        reveal_strlit("ExternalIPAddress = ");
        assert(m@ =~= marker());
    }
    let mut j: usize = 0;
    while j < 20
        invariant
            n == s@.len(),
            k + 20 <= n,
            m@ == marker(),
            j <= 20,
            forall|i: int| 0 <= i < j ==> s@[k + i] == marker()[i],
        decreases 20 - j,
    {
        if s.get_char(k + j) != m.get_char(j) {
            assert(s@.subrange(k as int, k + 20)[j as int] != marker()[j as int]);
            return false;
        }
        j = j + 1;
    }
    assert(s@.subrange(k as int, k + 20) =~= marker());
    true
}

/// The external address in an already trimmed output of the probe helper:
/// the first line of the form `ExternalIPAddress = a.b.c.d`, each of `a`,
/// `b`, `c`, `d` an octet of one to three digits.
pub fn find_external_ip(s: &str) -> (r: Option<String>)
    ensures
        r matches Some(ip) ==> external_address(s@) == Some(ip@),
        r is None ==> external_address(s@) is None,
{
    let n = s.unicode_len();
    let mut k: usize = 0;
    while k < n
        invariant
            n == s@.len(),
            k <= n,
            forall|j: int| 0 <= j < k ==> !address_at(s@, j),
        decreases n - k,
    {
        if has_marker_at(s, n, k) {
            if let Some(e) = dotted_quad_end(s, n, k + 20) {
                assert(address_at(s@, k as int));
                let ip = s.substring_char(k + 20, e);
                proof {
                    let kk = choose|x: int| address_at(s@, x) && forall|j: int| 0 <= j < x ==> !address_at(s@, j);
                    assert(kk == k as int);
                }
                return Some(String::from_str(ip));
            }
        }
        k = k + 1;
    }
    assert forall|j: int| !address_at(s@, j) by {
        if 0 <= j && j >= n {
            assert(!marker_at(s@, j));
        }
    }
    None
}

impl ProbeError {
    /// The text shown to the operator for this error.
    pub fn message(&self) -> (r: String)
        ensures
            r@ == probe_message(*self),
    {
        proof {
            reveal_strlit(", is upnpc installed?");
            reveal_strlit("No IP address found.");
        }
        match self {
            ProbeError::Unavailable(cause) => cause.clone().concat(", is upnpc installed?"),
            ProbeError::Failed(status) => status.clone(),
            ProbeError::NoAddress => String::from_str("No IP address found."),
        }
    }
}

/// The text shown to the operator for a probe error.
pub open spec fn probe_message(e: ProbeError) -> Seq<char> {
    match e {
        ProbeError::Unavailable(cause) => cause@ + ", is upnpc installed?"@,
        ProbeError::Failed(status) => status@,
        ProbeError::NoAddress => "No IP address found."@,
    }
}

impl ResolveError {
    /// The text shown to the operator for this error.
    pub fn message(&self) -> (r: String)
        ensures
            r@ == resolve_message(*self),
    {
        proof {
            reveal_strlit("Could not resolve ");
            reveal_strlit(" to IP address.");
        }
        match self {
            ResolveError::NoRecord(domain) => String::from_str("Could not resolve ").concat(
                domain.as_str(),
            ).concat(" to IP address."),
            ResolveError::Lookup(cause) => cause.clone(),
        }
    }
}

/// The text shown to the operator for a lookup error.
pub open spec fn resolve_message(e: ResolveError) -> Seq<char> {
    match e {
        ResolveError::NoRecord(domain) => "Could not resolve "@ + domain@ + " to IP address."@,
        ResolveError::Lookup(cause) => cause@,
    }
}

/// The outcome of a probe, from the exit of the probe helper and its
/// output: its failure status when it failed, else the external address
/// that its trimmed output names.
pub fn get_actual_ip(succeeded: bool, status: &str, stdout: &str) -> (r: Result<String, ProbeError>)
    ensures
        !succeeded ==> (r matches Err(ProbeError::Failed(st)) && st@ == status@),
        succeeded && external_address(trimmed(stdout@)) is Some ==> (r matches Ok(ip)
            && external_address(trimmed(stdout@)) == Some(ip@)),
        succeeded && external_address(trimmed(stdout@)) is None ==> r == Err::<String, ProbeError>(
            ProbeError::NoAddress,
        ),
{
    if !succeeded {
        return Err(ProbeError::Failed(String::from_str(status)));
    }
    let text = trim_text(stdout);
    match find_external_ip(text.as_str()) {
        Some(ip) => Ok(ip),
        None => Err(ProbeError::NoAddress),
    }
}

/// The published address of `domain`, from the addresses that a lookup of
/// its address records gave, in the order given: the first of them.
pub fn get_domain_ip(domain: &str, addresses: &Vec<String>) -> (r: Result<String, ResolveError>)
    ensures
        addresses@.len() > 0 ==> (r matches Ok(ip) && ip@ == addresses@[0]@),
        addresses@.len() == 0 ==> (r matches Err(ResolveError::NoRecord(d)) && d@ == domain@),
{
    if addresses.len() > 0 {
        Ok(addresses[0].clone())
    } else {
        Err(ResolveError::NoRecord(String::from_str(domain)))
    }
}

} // verus!
