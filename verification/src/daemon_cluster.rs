//! Cluster mode: several processes that listen on one address.
//!
//! A worker that was started with the cluster variable set binds its sockets so that the other
//! workers can bind the same address, and the kernel spreads connections over them.
use vstd::prelude::*;

use crate::text::{lower, lower_chars, same_chars, same_text};

verus! {

/// The environment variable that turns cluster mode on.
pub const ENV_FLAG: &'static str = "BURN_CLUSTER_REUSEPORT";

/// Why a cluster socket was not bound.
#[derive(Debug)]
pub enum ClusterBindError {
    AddrInUse,
    /// Any other failure, as the system describes it.
    Io(String),
}

/// Whether a value of the cluster variable turns cluster mode on.
pub open spec fn turns_on(value: Seq<char>) -> bool {
    value == "1"@ || lower(value) == "true"@
}

/// Whether cluster mode is on, given the value of [`ENV_FLAG`], if it is set and is text.
pub fn cluster_mode_enabled(value: Option<&str>) -> (r: bool)
    ensures
        r == (match value {
            Some(v) => turns_on(v@),
            None => false,
        }),
{
    match value {
        Some(v) => same_text(v, "1") || {
            let word = lower_chars("true");
            proof {
                reveal_strlit("true");
                assert(lower("true"@) =~= "true"@);
            }
            same_chars(&lower_chars(v), &word)
        },
        None => false,
    }
}

impl ClusterBindError {
    /// The error for a failed system call: `in_use` where the address is taken, and `text` what
    /// the system says.
    pub fn from_io(in_use: bool, text: String) -> (r: Self)
        ensures
            in_use ==> r is AddrInUse,
            !in_use ==> r == ClusterBindError::Io(text),
    {
        if in_use {
            ClusterBindError::AddrInUse
        } else {
            ClusterBindError::Io(text)
        }
    }
}

/// Cluster mode is turned on by `1` and by `true` in any case of letters, and by nothing else.
pub proof fn cluster_mode_has_two_words(value: Seq<char>)
    ensures
        turns_on(value) <==> value == seq!['1'] || lower(value) == seq!['t', 'r', 'u', 'e'],
{
    reveal_strlit("1");
    reveal_strlit("true");
    assert("1"@ =~= seq!['1']);
    assert("true"@ =~= seq!['t', 'r', 'u', 'e']);
}

} // verus!
