//! The vote accumulator: collects signature shares for one vote kind at one
//! view until a strict two-thirds supermajority of the committee has signed,
//! then combines them into a threshold certificate signature.

use vstd::prelude::*;

use crate::crypto::{combine_signature_shares, signature_share_from_bytes};
use crate::data::{Commit, Signature};
use crate::membership::{Membership, spec_success_threshold};
use crate::vmap::AssocMap;

verus! {

/// What accumulating one vote did.
#[derive(Debug)]
pub enum AccumulateResult {
    /// Enough shares: the combined certificate signature.
    Formed(Signature),
    /// The vote was recorded; the threshold is not yet reached.
    Accepted,
    /// The vote names another view than this accumulator's.
    WrongView,
    /// The signer holds no stake in the committee.
    NotInCommittee,
    /// The signer's share was recorded before; late or repeated votes are
    /// dropped.
    Duplicate,
    /// The signature share did not verify, or its bytes are malformed.
    InvalidSignature,
    /// The threshold was reached but the outside scheme refused to combine
    /// the shares.
    CombineFailed,
}

/// Collects shares of one vote kind for one view.
pub struct VoteAccumulator {
    /// The view voted on.
    view: u64,
    /// The vote kind's tag.
    tag: u8,
    /// Every signer recorded so far, over all commitments.
    signers: Vec<u64>,
    /// The shares gathered for each commitment voted for.
    shares: AssocMap<Commit, Vec<(u64, threshold_crypto::SignatureShare)>>,
}

impl VoteAccumulator {
    /// The accumulator's view.
    pub closed spec fn spec_view_number(self) -> u64 {
        self.view
    }

    /// The accumulator's vote kind tag.
    pub closed spec fn spec_tag(self) -> u8 {
        self.tag
    }

    /// The signers recorded so far.
    pub closed spec fn spec_signers(self) -> Seq<u64> {
        self.signers@
    }

    /// How many shares are recorded for a commitment.
    pub closed spec fn spec_share_count(self, c: Commit) -> nat {
        if self.shares@.dom().contains(c) {
            self.shares@[c]@.len()
        } else {
            0
        }
    }

    pub closed spec fn wf(self) -> bool {
        self.shares.wf()
    }

    /// A fresh accumulator for one vote kind at one view.
    pub fn new(tag: u8, view: u64) -> (r: Self)
        ensures
            r.wf(),
            r.spec_view_number() == view,
            r.spec_tag() == tag,
            r.spec_signers() == Seq::<u64>::empty(),
            forall|c: Commit| r.spec_share_count(c) == 0,
    {
        VoteAccumulator { view, tag, signers: Vec::new(), shares: AssocMap::new() }
    }

    /// The accumulator's view, for replacing it when a higher view's vote
    /// arrives.
    pub fn view_number(&self) -> (r: u64)
        ensures
            r == self.spec_view_number(),
    {
        self.view
    }

    /// Whether a signer was recorded already.
    fn signer_recorded(&self, signer: u64) -> (r: bool)
        ensures
            r == self.spec_signers().contains(signer),
    {
        let n = self.signers.len();
        let mut i: usize = 0;
        while i < n
            invariant
                n == self.signers@.len(),
                0 <= i <= n,
                forall|j: int| 0 <= j < i ==> self.signers@[j] != signer,
            decreases n - i,
        {
            if self.signers[i] == signer {
                return true;
            }
            i += 1;
        }
        proof {
            assert(!self.signers@.contains(signer));
        }
        false
    }

    /// Accumulate one vote: a share by `signer` over the tagged payload of
    /// `(commit, view)`. A vote is recorded exactly when it names this
    /// accumulator's view, its signer holds stake and was not recorded
    /// before, and its signature share verifies; when the recorded shares
    /// for the commitment reach the committee's success threshold, the
    /// combined certificate signature is returned.
    pub fn accumulate(
        &mut self,
        membership: &Membership,
        commit: &Commit,
        view: u64,
        signer: u64,
        signature: &Signature,
    ) -> (r: AccumulateResult)
        requires
            old(self).wf(),
            membership@.len() <= usize::MAX / 2,
        ensures
            final(self).wf(),
            final(self).spec_view_number() == old(self).spec_view_number(),
            final(self).spec_tag() == old(self).spec_tag(),
            r is WrongView <==> view != old(self).spec_view_number(),
            r is NotInCommittee <==> (view == old(self).spec_view_number()
                && !membership@.contains(signer)),
            r is Duplicate <==> (view == old(self).spec_view_number() && membership@.contains(
                signer,
            ) && old(self).spec_signers().contains(signer)),
            (r is WrongView || r is NotInCommittee || r is Duplicate || r is InvalidSignature)
                ==> final(self).spec_signers() == old(self).spec_signers() && forall|c: Commit|
                final(self).spec_share_count(c) == old(self).spec_share_count(c),
            (r is Accepted || r is Formed || r is CombineFailed) ==> {
                &&& view == old(self).spec_view_number()
                &&& membership@.contains(signer)
                &&& !old(self).spec_signers().contains(signer)
                &&& final(self).spec_signers() == old(self).spec_signers().push(signer)
                &&& final(self).spec_share_count(*commit) == old(self).spec_share_count(*commit)
                    + 1
                &&& forall|c: Commit|
                    c != *commit ==> final(self).spec_share_count(c) == old(
                        self,
                    ).spec_share_count(c)
            },
            r is Accepted ==> final(self).spec_share_count(*commit) < spec_success_threshold(
                membership@.len(),
            ),
            (r is Formed || r is CombineFailed) ==> final(self).spec_share_count(*commit)
                >= spec_success_threshold(membership@.len()),
    {
        if view != self.view {
            return AccumulateResult::WrongView;
        }
        if !membership.has_stake(signer) {
            return AccumulateResult::NotInCommittee;
        }
        if self.signer_recorded(signer) {
            return AccumulateResult::Duplicate;
        }
        if !membership.check_vote_signature(signer, self.tag, commit, view, signature) {
            return AccumulateResult::InvalidSignature;
        }
        let share = match signature_share_from_bytes(signature) {
            Some(s) => s,
            None => {
                return AccumulateResult::InvalidSignature;
            },
        };
        let ghost signers0 = self.signers@;
        let ghost shares0 = *self;
        self.signers.push(signer);
        let mut list: Vec<(u64, threshold_crypto::SignatureShare)> = match self.shares.get(
            commit,
        ) {
            Some(existing) => dup_share_list(existing),
            None => Vec::new(),
        };
        list.push((signer, share));
        let count = list.len();
        self.shares.insert(*commit, list);
        proof {
            assert(self.spec_share_count(*commit) == shares0.spec_share_count(*commit) + 1);
            assert(forall|c: Commit|
                c != *commit ==> self.spec_share_count(c) == shares0.spec_share_count(c));
        }
        let threshold = membership.success_threshold();
        if count >= threshold {
            match combine_signature_shares(membership.key_set(), self.shares.get(commit).unwrap())
            {
                Some(sig) => AccumulateResult::Formed(sig),
                None => AccumulateResult::CombineFailed,
            }
        } else {
            AccumulateResult::Accepted
        }
    }
}

/// Copy a share list: plain pairs of a signer index and an opaque outside
/// share value.
fn dup_share_list(list: &Vec<(u64, threshold_crypto::SignatureShare)>) -> (r: Vec<
    (u64, threshold_crypto::SignatureShare),
>)
    ensures
        r@.len() == list@.len(),
{
    let n = list.len();
    let mut r: Vec<(u64, threshold_crypto::SignatureShare)> = Vec::new();
    let mut i: usize = 0;
    while i < n
        invariant
            n == list@.len(),
            0 <= i <= n,
            r@.len() == i,
        decreases n - i,
    {
        let (id, share) = &list[i];
        r.push((*id, crate::crypto::dup_signature_share(share)));
        i += 1;
    }
    r
}

} // verus!
