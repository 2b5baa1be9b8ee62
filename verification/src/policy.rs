//! Policy: whether a newly accepted connection may be served, and
//! whether a requested hostname is syntactically permitted.
use vstd::prelude::*;
use vstd::string::StrSliceExecFns;
use std::collections::HashSet;

verus! {

broadcast use vstd::std_specs::hash::group_hash_axioms;

/// Process-wide configuration shared by every accept loop and session:
/// the rendezvous directory and the optional peer allow-list.
pub struct ProxyService {
    /// Rendezvous directory holding one named-stream endpoint per
    /// `host_port` file.
    pub directory: String,
    /// Optional allow-list of peer user ids; when absent, every peer is
    /// accepted.
    pub allowed_uids: Option<HashSet<u32>>,
}

/// The acceptance policy: with no allow-list every connection passes;
/// with one, the peer identity must be known and listed.
pub open spec fn spec_socket_allowed(service: ProxyService, peer_uid: Option<u32>) -> bool {
    match service.allowed_uids {
        None => true,
        Some(allowed) => match peer_uid {
            None => false,
            Some(uid) => allowed@.contains(uid),
        },
    }
}

impl ProxyService {
    /// Build the configuration, collecting the allow-list entries into a
    /// set.
    pub fn new(directory: String, allowed_uids: Option<Vec<u32>>) -> (s: ProxyService)
        ensures
            s.directory == directory,
            allowed_uids is None ==> s.allowed_uids is None,
            allowed_uids matches Some(l) ==> (s.allowed_uids matches Some(set) && forall|u: u32|
                set@.contains(u) <==> l@.contains(u)),
    {
        match allowed_uids {
            None => ProxyService { directory, allowed_uids: None },
            Some(l) => {
                let mut set: HashSet<u32> = HashSet::new();
                let mut i: usize = 0;
                while i < l.len()
                    invariant
                        i <= l@.len(),
                        forall|u: u32| #[trigger]
                            set@.contains(u) <==> (exists|j: int| 0 <= j < i && l@[j] == u),
                    decreases l@.len() - i,
                {
                    let ghost prev = set@;
                    set.insert(l[i]);
                    proof {
                        assert forall|u: u32| #[trigger]
                            set@.contains(u) <==> (exists|j: int|
                                0 <= j < i + 1 && l@[j] == u) by {
                            if set@.contains(u) {
                                if prev.contains(u) {
                                    let j = choose|j: int| 0 <= j < i && l@[j] == u;
                                    assert(0 <= j < i + 1 && l@[j] == u);
                                } else {
                                    assert(l@[i as int] == u);
                                }
                            }
                            if exists|j: int| 0 <= j < i + 1 && l@[j] == u {
                                let j = choose|j: int| 0 <= j < i + 1 && l@[j] == u;
                                if j < i {
                                    assert(prev.contains(u));
                                }
                            }
                        };
                    }
                    i += 1;
                }
                ProxyService { directory, allowed_uids: Some(set) }
            },
        }
    }

    /// Acceptance policy for one accepted connection, given the peer
    /// identity the transport could provide (a user id for named-stream
    /// transports, nothing for TCP).  Runs before any byte is read; a
    /// rejected connection is closed without a reply.
    pub fn check_allowed_socket(&self, peer_uid: Option<u32>) -> (r: bool)
        ensures
            r == spec_socket_allowed(*self, peer_uid),
    {
        match &self.allowed_uids {
            None => true,
            Some(allowed) => match peer_uid {
                None => false,
                Some(uid) => allowed.contains(&uid),
            },
        }
    }
}

/// Whether a hostname character is forbidden: a path or drive separator,
/// or a NUL.
pub open spec fn forbidden_host_char(c: char) -> bool {
    c == '/' || c == '\\' || c == ':' || c == '\u{0}'
}

/// The request policy on hostnames: no character of the name may be a
/// path or drive separator or a NUL.
pub open spec fn acceptable_hostname(s: Seq<char>) -> bool {
    forall|i: int| 0 <= i < s.len() ==> !forbidden_host_char(#[trigger] s[i])
}

/// Request policy: whether a requested domain name may be used as a
/// single path component under the rendezvous directory.
pub fn is_acceptable_hostname(address: &str) -> (r: bool)
    ensures
        r == acceptable_hostname(address@),
{
    let n = address.unicode_len();
    let mut i: usize = 0;
    while i < n
        invariant
            i <= n,
            n == address@.len(),
            forall|j: int| 0 <= j < i ==> !forbidden_host_char(#[trigger] address@[j]),
        decreases n - i,
    {
        let c = address.get_char(i);
        if c == '/' || c == '\\' || c == ':' || c == '\u{0}' {
            proof {
                assert(forbidden_host_char(address@[i as int]));
            }
            return false;
        }
        i += 1;
    }
    true
}

/// Acceptance-policy law: under an allow-list holding exactly the user id
/// `u`, a connection whose peer identity is `u` passes; one with any
/// other peer identity, or with none (as on TCP transports), does not.
pub proof fn lemma_acceptance_policy(service: ProxyService, u: u32, peer_uid: Option<u32>)
    requires
        service.allowed_uids matches Some(set) && set@ == Set::<u32>::empty().insert(u),
    ensures
        spec_socket_allowed(service, Some(u)),
        peer_uid != Some(u) ==> !spec_socket_allowed(service, peer_uid),
{
}

} // verus!
