//! Supervisor handoff: a supervisor may pass already-bound listening
//! descriptors to its child, naming the intended recipient process and
//! the descriptor count in its environment.  This module holds the
//! decision: whether the handoff is meant for this process and how many
//! descriptors to adopt.  Reading the environment and the descriptors
//! themselves is the surrounding process's work.
use vstd::prelude::*;

verus! {

/// The first file descriptor a supervisor handoff passes.
pub const FIRST_HANDOFF_FD: u32 = 3;

/// How many passed descriptors this process should adopt, starting at
/// `FIRST_HANDOFF_FD`: the declared count when the handoff names this
/// process and declares one; none when it names another process, names
/// none, or declares no count.
pub fn handoff_fd_count(listen_pid: Option<u32>, listen_fds: Option<u32>, my_pid: u32) -> (n: u32)
    ensures
        listen_pid == Some(my_pid) && listen_fds is Some ==> n == listen_fds->0,
        listen_pid != Some(my_pid) || listen_fds is None ==> n == 0,
{
    match listen_pid {
        None => 0,
        Some(pid) => {
            if pid != my_pid {
                0
            } else {
                match listen_fds {
                    None => 0,
                    Some(c) => c,
                }
            }
        },
    }
}

} // verus!
