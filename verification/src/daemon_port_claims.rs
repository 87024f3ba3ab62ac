//! Port claims that the shards of a daemon share.
//!
//! Every shard runs the same start-up script, so every shard asks to listen on the same ports.
//! The first to claim a port becomes its owner and binds the socket. The others become followers:
//! they keep an id for their own bookkeeping and bind nothing.
use vstd::prelude::*;

use crate::registry::{next_after, next_id, IdMap};

verus! {

pub type ServerId = i32;

/// How a claim ended.
#[derive(Debug, Clone, Copy, PartialEq, Eq, Structural)]
pub enum ClaimResult {
    /// The claim was won under this id: the caller binds the socket.
    Owner(ServerId),
    /// The port was claimed before, under this id: the caller binds nothing.
    Follower(ServerId),
}

/// Who owns which port.
pub struct SharedPortClaims {
    /// Port to owning id.
    claims: IdMap,
    /// The id that the next claim takes. Every claim takes one, whatever its outcome.
    next_id: i32,
}

/// What a claim on `port` under the new id `id` does to the owners of ports, and how it ends. The
/// claim is won where nobody holds the port.
pub open spec fn claim_step(owners: Map<u16, i32>, id: i32, port: u16) -> (
    Map<u16, i32>,
    ClaimResult,
) {
    if !owners.contains_key(port) {
        (owners.insert(port, id), ClaimResult::Owner(id))
    } else if owners[port] == id {
        (owners, ClaimResult::Owner(id))
    } else {
        (owners, ClaimResult::Follower(owners[port]))
    }
}

impl SharedPortClaims {
    /// The ids that own ports.
    pub closed spec fn owners(&self) -> Map<u16, i32> {
        Map::new(
            |port: u16| self.claims@.contains_key(port as i64),
            |port: u16| self.claims@[port as i64] as i32,
        )
    }

    /// The id that the next claim takes.
    pub closed spec fn upcoming(&self) -> i32 {
        self.next_id
    }

    /// Whether what is recorded are ports and ids.
    pub closed spec fn wf(&self) -> bool {
        forall|k: i64| #[trigger]
            self.claims@.contains_key(k) ==> 0 <= k <= u16::MAX && i32::MIN <= self.claims@[k]
                <= i32::MAX
    }

    /// No port claimed; ids start at one.
    pub fn new() -> (r: Self)
        ensures
            r.wf(),
            r.owners() == Map::<u16, i32>::empty(),
            r.upcoming() == 1,
    {
        let r = SharedPortClaims { claims: IdMap::new(), next_id: 1 };
        assert(r.owners() =~= Map::<u16, i32>::empty());
        r
    }

    /// Claims `port` under a new id. The claim is won where nobody holds the port.
    pub fn try_claim(&mut self, port: u16) -> (r: ClaimResult)
        requires
            old(self).wf(),
        ensures
            final(self).wf(),
            final(self).upcoming() == next_after(old(self).upcoming()),
            (final(self).owners(), r) == claim_step(
                old(self).owners(),
                old(self).upcoming(),
                port,
            ),
    {
        let new_id: i32 = self.next_id;
        self.next_id = next_id(new_id);
        let claimed: i128 = self.claims.get_or_insert(port as i64, new_id as i128);
        assert(old(self).owners().contains_key(port) == old(self).claims@.contains_key(
            port as i64,
        ));
        proof {
            if old(self).owners().contains_key(port) {
                assert(self.owners() =~= old(self).owners());
            } else {
                assert(self.owners() =~= old(self).owners().insert(port, new_id));
            }
        }
        if claimed == new_id as i128 {
            ClaimResult::Owner(new_id)
        } else {
            ClaimResult::Follower(claimed as i32)
        }
    }

    /// Gives `port` up, so that it can be claimed again. Nothing happens where it is not claimed.
    pub fn release(&mut self, port: u16)
        requires
            old(self).wf(),
        ensures
            final(self).wf(),
            final(self).upcoming() == old(self).upcoming(),
            final(self).owners() == old(self).owners().remove(port),
    {
        loop
            invariant
                self.wf(),
                self.next_id == old(self).next_id,
                self.claims@ == old(self).claims@ || self.claims@ == old(self).claims@.remove(
                    port as i64,
                ),
            ensures
                self.wf(),
                self.next_id == old(self).next_id,
                self.claims@ == old(self).claims@.remove(port as i64),
            decreases
                    (if self.claims@.contains_key(port as i64) {
                        1int
                    } else {
                        0int
                    }),
        {
            let ghost before = self.claims@;
            let removed = self.claims.remove(port as i64);
            assert(old(self).claims@.remove(port as i64).remove(port as i64) =~= old(
                self,
            ).claims@.remove(port as i64));
            if removed.is_none() {
                break;
            }
        }
        assert(self.owners() =~= old(self).owners().remove(port));
    }

    /// The id that owns `port`, if any.
    pub fn owner(&self, port: u16) -> (r: Option<ServerId>)
        requires
            self.wf(),
        ensures
            r == (if self.owners().contains_key(port) {
                Some(self.owners()[port])
            } else {
                None
            }),
    {
        match self.claims.get(port as i64) {
            Some(id) => Some(id as i32),
            None => None,
        }
    }
}

/// Of two claims on a free port under different ids the first wins and the second follows it,
/// under the id of the first; the port has that one owner.
pub proof fn first_claim_wins(owners: Map<u16, i32>, first: i32, second: i32, port: u16)
    requires
        !owners.contains_key(port),
        first != second,
    ensures
        claim_step(owners, first, port).1 == ClaimResult::Owner(first),
        claim_step(claim_step(owners, first, port).0, second, port).1 == ClaimResult::Follower(
            first,
        ),
        claim_step(claim_step(owners, first, port).0, second, port).0[port] == first,
{
}

/// A port that was released is won by the next claim.
pub proof fn released_port_is_free(owners: Map<u16, i32>, id: i32, port: u16)
    ensures
        claim_step(owners.remove(port), id, port).1 == ClaimResult::Owner(id),
{
}

/// A claim on one port leaves every other port as it was.
pub proof fn claims_are_independent(owners: Map<u16, i32>, id: i32, port: u16, other: u16)
    requires
        port != other,
    ensures
        claim_step(owners, id, port).0.contains_key(other) == owners.contains_key(other),
        owners.contains_key(other) ==> claim_step(owners, id, port).0[other] == owners[other],
{
}

} // verus!
