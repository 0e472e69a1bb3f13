//! The stake table: a fixed committee of nodes, each holding one unit of
//! stake, identified by index. The leader of a view is chosen round-robin.

use vstd::prelude::*;

use crate::crypto::{public_key_share, verify_share, verify_combined, master_public_key};
use crate::data::{Commit, vote_payload};

verus! {

/// A committee: member indices with their public key shares and the
/// committee's master key material.
pub struct Membership {
    /// The members, by index; a node's key share is derived from its index.
    members: Vec<u64>,
    /// Public key material of the whole committee.
    pub_key_set: threshold_crypto::PublicKeySet,
}

impl View for Membership {
    type V = Seq<u64>;

    closed spec fn view(&self) -> Seq<u64> {
        self.members@
    }
}

/// The number of votes that forms a quorum out of `n` staked nodes: a
/// strict two-thirds supermajority.
pub open spec fn spec_success_threshold(n: nat) -> nat {
    (2 * n) / 3 + 1
}

impl Membership {
    /// A non-empty committee.
    pub open spec fn wf(self) -> bool {
        self@.len() > 0
    }

    /// Build a committee from its member indices and key material.
    pub fn new(members: Vec<u64>, pub_key_set: threshold_crypto::PublicKeySet) -> (r: Self)
        requires
            members@.len() > 0,
        ensures
            r.wf(),
            r@ == members@,
    {
        Membership { members, pub_key_set }
    }

    /// Number of members with stake.
    pub fn total_nodes(&self) -> (r: usize)
        ensures
            r == self@.len(),
    {
        self.members.len()
    }

    /// The quorum threshold.
    pub fn success_threshold(&self) -> (r: usize)
        requires
            self@.len() <= usize::MAX / 2,
        ensures
            r == spec_success_threshold(self@.len()),
    {
        2 * self.members.len() / 3 + 1
    }

    /// The leader of a view, chosen round-robin over the members.
    pub fn leader(&self, view: u64) -> (r: u64)
        requires
            self.wf(),
        ensures
            r == self@[(view as int) % (self@.len() as int)],
    {
        let n = self.members.len() as u64;
        let idx = (view % n) as usize;
        self.members[idx]
    }

    /// Whether a node holds stake in this committee.
    pub fn has_stake(&self, node: u64) -> (r: bool)
        ensures
            r == self@.contains(node),
    {
        let n = self.members.len();
        let mut i: usize = 0;
        while i < n
            invariant
                n == self@.len(),
                0 <= i <= n,
                forall|j: int| 0 <= j < i ==> self@[j] != node,
            decreases n - i,
        {
            if self.members[i] == node {
                return true;
            }
            i += 1;
        }
        proof {
            assert(!self@.contains(node));
        }
        false
    }

    /// A copy of the whole committee.
    pub fn whole_committee(&self) -> (r: Vec<u64>)
        ensures
            r@ == self@,
    {
        let n = self.members.len();
        let mut r: Vec<u64> = Vec::new();
        let mut i: usize = 0;
        while i < n
            invariant
                n == self@.len(),
                0 <= i <= n,
                r@ == self@.take(i as int),
            decreases n - i,
        {
            r.push(self.members[i]);
            assert(r@ =~= self@.take(i + 1 as int));
            i += 1;
        }
        proof {
            assert(self@.take(n as int) =~= self@);
        }
        r
    }

    /// Check a vote signature share: the signer's key share must verify the
    /// share over the tagged vote payload. The verdict is the outside
    /// scheme's; callers treat it as an opaque boolean.
    pub fn check_vote_signature(
        &self,
        signer: u64,
        tag: u8,
        commit: &Commit,
        view: u64,
        signature: &[u8; 96],
    ) -> bool {
        let payload = vote_payload(tag, commit, view);
        let pk = public_key_share(&self.pub_key_set, signer);
        verify_share(&pk, signature, &payload)
    }

    /// Check an arbitrary signature share by a node over given bytes.
    pub fn check_signature(&self, signer: u64, msg: &Vec<u8>, signature: &[u8; 96]) -> bool {
        let pk = public_key_share(&self.pub_key_set, signer);
        verify_share(&pk, signature, msg)
    }

    /// Check a combined threshold signature over the tagged vote payload
    /// under the committee's master key.
    pub fn check_certificate_signature(
        &self,
        tag: u8,
        commit: &Commit,
        view: u64,
        signature: &[u8; 96],
    ) -> bool {
        let payload = vote_payload(tag, commit, view);
        let pk = master_public_key(&self.pub_key_set);
        verify_combined(&pk, signature, &payload)
    }

    /// The committee's public key material, for combining shares.
    pub fn key_set(&self) -> &threshold_crypto::PublicKeySet {
        &self.pub_key_set
    }
}

} // verus!
