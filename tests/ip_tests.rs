use ipsync::ip_utils::{find_external_ip, get_actual_ip, get_domain_ip, ProbeError, ResolveError};
use ipsync::utils::map_prefixed_err;

#[test]
fn prefix_is_followed_by_one_space() {
    assert_eq!(map_prefixed_err("Failed to get domain IP:", "timeout"), "Failed to get domain IP: timeout");
    assert_eq!(map_prefixed_err("", ""), " ");
}

#[test]
fn external_address_is_found() {
    let out = "Found valid IGD\nExternalIPAddress = 81.2.69.160\nBytes: 12";
    assert_eq!(find_external_ip(out), Some("81.2.69.160".to_string()));
}

#[test]
fn first_address_line_wins() {
    let out = "ExternalIPAddress = 1.2.3.4\nExternalIPAddress = 5.6.7.8\nend";
    assert_eq!(find_external_ip(out), Some("1.2.3.4".to_string()));
}

#[test]
fn address_may_end_the_text() {
    assert_eq!(find_external_ip("ExternalIPAddress = 1.2.3.4"), Some("1.2.3.4".to_string()));
    assert_eq!(find_external_ip("ExternalIPAddress = 1.2.3.4 \nx"), None);
}

#[test]
fn octets_above_255_are_refused() {
    assert_eq!(find_external_ip("ExternalIPAddress = 999.1.1.1\nx"), None);
    assert_eq!(find_external_ip("ExternalIPAddress = 1.2.3.256\nx"), None);
    assert_eq!(find_external_ip("ExternalIPAddress = 1.300.3.4"), None);
    assert_eq!(find_external_ip("ExternalIPAddress = 255.255.255.255\nx"), Some("255.255.255.255".to_string()));
    assert_eq!(find_external_ip("ExternalIPAddress = 0.10.200.99\nx"), Some("0.10.200.99".to_string()));
    assert_eq!(
        get_actual_ip(true, "", "ExternalIPAddress = 999.1.1.1\nx"),
        Err(ProbeError::NoAddress)
    );
}

#[test]
fn groups_of_four_digits_are_refused() {
    assert_eq!(find_external_ip("ExternalIPAddress = 1.2.3.4567\nx"), None);
    assert_eq!(find_external_ip("ExternalIPAddress = 1234.2.3.4\nx"), None);
    assert_eq!(find_external_ip("ExternalIPAddress = 1.2.3\nx"), None);
    assert_eq!(find_external_ip(""), None);
}

#[test]
fn later_valid_line_is_found_after_a_bad_one() {
    let out = "ExternalIPAddress = 1.2.x.4\nExternalIPAddress = 10.20.30.40\nz";
    assert_eq!(find_external_ip(out), Some("10.20.30.40".to_string()));
}

#[test]
fn probe_output_is_trimmed_first() {
    let out = "  \n ExternalIPAddress = 9.8.7.6\nmore  \n";
    assert_eq!(get_actual_ip(true, "", out), Ok("9.8.7.6".to_string()));
    assert_eq!(get_actual_ip(true, "", "ExternalIPAddress = 9.8.7.6\n\t \n"), Ok("9.8.7.6".to_string()));
    // white space after the last octet ends no address; trimming removes it
    assert_eq!(find_external_ip("ExternalIPAddress = 9.8.7.6 "), None);
    assert_eq!(get_actual_ip(true, "", "ExternalIPAddress = 9.8.7.6 "), Ok("9.8.7.6".to_string()));
    assert_eq!(get_actual_ip(true, "", "\u{3000}\u{a0}ExternalIPAddress = 9.8.7.6\u{2028}"), Ok("9.8.7.6".to_string()));
}

#[test]
fn failed_probe_reports_its_status() {
    assert_eq!(
        get_actual_ip(false, "exit status: 1", "ExternalIPAddress = 1.2.3.4\nx"),
        Err(ProbeError::Failed("exit status: 1".to_string()))
    );
}

#[test]
fn probe_messages() {
    assert_eq!(ProbeError::Unavailable("not found".to_string()).message(), "not found, is upnpc installed?");
    assert_eq!(ProbeError::NoAddress.message(), "No IP address found.");
}

#[test]
fn first_resolved_address_is_published() {
    let addrs = vec!["1.2.3.4".to_string(), "5.6.7.8".to_string()];
    assert_eq!(get_domain_ip("a.example.com", &addrs), Ok("1.2.3.4".to_string()));
}

#[test]
fn no_resolved_address_is_an_error() {
    let r = get_domain_ip("a.example.com", &vec![]);
    assert_eq!(r, Err(ResolveError::NoRecord("a.example.com".to_string())));
    assert_eq!(r.unwrap_err().message(), "Could not resolve a.example.com to IP address.");
}
