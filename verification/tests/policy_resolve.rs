//! Tests for the acceptance policy, the hostname policy, the supervisor
//! handoff decision, and the rendezvous resolver.
use socks_bridge::handoff::handoff_fd_count;
use socks_bridge::policy::is_acceptable_hostname;
use socks_bridge::policy::ProxyService;
use socks_bridge::resolve::append_decimal;
use socks_bridge::resolve::resolve_backend_path;

#[test]
fn hostname_policy_accepts_plain_names() {
    assert!(is_acceptable_hostname("example"));
    assert!(is_acceptable_hostname("sub.domain.example"));
    assert!(is_acceptable_hostname(""));
    assert!(is_acceptable_hostname("bücher.example"));
}

#[test]
fn hostname_policy_rejects_separators_and_nul() {
    assert!(!is_acceptable_hostname("exa/mple"));
    assert!(!is_acceptable_hostname("exa\\mple"));
    assert!(!is_acceptable_hostname("exa:mple"));
    assert!(!is_acceptable_hostname("exa\0mple"));
    assert!(!is_acceptable_hostname("/"));
    assert!(!is_acceptable_hostname("..\\up"));
}

#[test]
fn acceptance_without_allow_list_passes_everyone() {
    let service = ProxyService::new(String::from("/run/backends"), None);
    assert!(service.check_allowed_socket(Some(1000)));
    assert!(service.check_allowed_socket(None));
}

#[test]
fn acceptance_with_allow_list_requires_listed_peer() {
    let service = ProxyService::new(String::from("/run/backends"), Some(vec![1000]));
    assert!(service.check_allowed_socket(Some(1000)));
    assert!(!service.check_allowed_socket(Some(1001)));
    assert!(!service.check_allowed_socket(None));
}

#[test]
fn acceptance_with_several_uids() {
    let service = ProxyService::new(String::from("/d"), Some(vec![3, 7, 3]));
    assert!(service.check_allowed_socket(Some(3)));
    assert!(service.check_allowed_socket(Some(7)));
    assert!(!service.check_allowed_socket(Some(4)));
}

#[test]
fn acceptance_with_empty_allow_list_rejects_everyone() {
    let service = ProxyService::new(String::from("/d"), Some(vec![]));
    assert!(!service.check_allowed_socket(Some(0)));
    assert!(!service.check_allowed_socket(None));
}

#[test]
fn resolver_joins_directory_host_and_port() {
    assert_eq!(
        resolve_backend_path("/run/backends", "example", 80),
        "/run/backends/example_80"
    );
    assert_eq!(resolve_backend_path("/d", "host", 0), "/d/host_0");
    assert_eq!(resolve_backend_path("/d", "host", 65535), "/d/host_65535");
}

#[test]
fn decimal_digits_have_no_leading_zeros() {
    let mut s = String::new();
    append_decimal(&mut s, 0);
    assert_eq!(s, "0");
    let mut s = String::new();
    append_decimal(&mut s, 10);
    assert_eq!(s, "10");
    let mut s = String::new();
    append_decimal(&mut s, 12345);
    assert_eq!(s, "12345");
    let mut s = String::from("port ");
    append_decimal(&mut s, 443);
    assert_eq!(s, "port 443");
}

#[test]
fn handoff_counts_only_for_this_process() {
    assert_eq!(handoff_fd_count(Some(42), Some(2), 42), 2);
    assert_eq!(handoff_fd_count(Some(42), Some(2), 43), 0);
    assert_eq!(handoff_fd_count(None, Some(2), 42), 0);
    assert_eq!(handoff_fd_count(Some(42), None, 42), 0);
    assert_eq!(handoff_fd_count(None, None, 42), 0);
}
