//! The data-availability task: validates DA proposals, signs DA votes,
//! accumulates them into DA certificates at the leader, and builds DA
//! proposals from received blocks.

use vstd::prelude::*;

use crate::accumulator::{AccumulateResult, VoteAccumulator};
use crate::consensus::{Consensus, ViewEntry};
use crate::crypto::{sha256, sign_share};
use crate::data::{commit_of, DaCertificate, DaProposal, DaVote, Proposal, TAG_DA};
use crate::membership::{spec_success_threshold, Membership};
use crate::storage::MemoryStorage;

verus! {

/// What receiving a DA proposal decides.
#[derive(Debug, PartialEq, Eq)]
pub enum DaProposalRecvOutcome {
    /// More than one view older than the current view: dropped.
    TooOld,
    /// A payload is already recorded for that view: dropped.
    DuplicatePayload,
    /// The sender is not the view's DA leader: dropped.
    WrongLeader,
    /// The leader's signature over the payload digest did not verify.
    InvalidSignature,
    /// The proposal is validated and may be acted on.
    Validated,
}

/// What acting on a validated DA proposal decides.
#[derive(Debug, PartialEq, Eq)]
pub enum DaValidatedOutcome {
    /// The current view has advanced two or more views past it: dropped.
    TooOld,
    /// This node is not on the DA committee: observed, not voted on.
    NotInCommittee,
    /// The persist step failed, so the vote is withheld.
    StorageFailed,
    /// The signed vote to send, with the payload commitment voted for.
    Vote(DaVote),
}

/// The DA task's own state.
pub struct DaTaskState {
    /// Current view of this node.
    pub cur_view: u64,
    /// This node's committee index.
    pub public_key: u64,
    /// This node's secret key share.
    pub private_key: threshold_crypto::SecretKeyShare,
    /// The vote accumulator of the view this node leads, if any.
    pub vote_collector: Option<VoteAccumulator>,
}

/// The view a vote collector tracks after seeing a vote: a strictly
/// newer vote starts a fresh collector at its view; otherwise the held
/// collector and its view stay.
pub open spec fn spec_collector_view(c: Option<VoteAccumulator>, vote_view: u64) -> u64 {
    match c {
        Some(a) => if vote_view > a.spec_view_number() {
            vote_view
        } else {
            a.spec_view_number()
        },
        None => vote_view,
    }
}

impl DaTaskState {
    pub open spec fn wf(self) -> bool {
        match self.vote_collector {
            Some(acc) => acc.wf() && acc.spec_tag() == TAG_DA,
            None => true,
        }
    }

    /// Validate a received DA proposal: not more than one view old, no
    /// payload recorded for its view yet, sent by the view's DA leader, and
    /// carrying the leader's signature over the payload digest.
    pub fn handle_da_proposal_recv(
        &self,
        consensus: &Consensus,
        da_membership: &Membership,
        proposal: &Proposal<DaProposal>,
        sender: u64,
    ) -> (r: DaProposalRecvOutcome)
        requires
            consensus.wf(),
            da_membership.wf(),
        ensures
            r == DaProposalRecvOutcome::TooOld <==> (self.cur_view != 0
                && proposal.data.view_number < self.cur_view - 1),
            r == DaProposalRecvOutcome::DuplicatePayload <==> (!(self.cur_view != 0
                && proposal.data.view_number < self.cur_view - 1)
                && consensus@.saved_payloads.dom().contains(proposal.data.view_number)),
            r == DaProposalRecvOutcome::WrongLeader ==> sender != da_membership@[(
            proposal.data.view_number as int) % (da_membership@.len() as int)],
            r == DaProposalRecvOutcome::Validated || r == DaProposalRecvOutcome::InvalidSignature
                ==> sender == da_membership@[(proposal.data.view_number as int) % (
            da_membership@.len() as int)] && !consensus@.saved_payloads.dom().contains(
                proposal.data.view_number,
            ),
    {
        let view = proposal.data.view_number;
        if self.cur_view != 0 && view < self.cur_view - 1 {
            return DaProposalRecvOutcome::TooOld;
        }
        if consensus.has_payload(view) {
            return DaProposalRecvOutcome::DuplicatePayload;
        }
        let leader = da_membership.leader(view);
        if leader != sender {
            return DaProposalRecvOutcome::WrongLeader;
        }
        let digest = sha256(&proposal.data.encoded_transactions);
        if !da_membership.check_signature(sender, &digest, &proposal.signature) {
            return DaProposalRecvOutcome::InvalidSignature;
        }
        DaProposalRecvOutcome::Validated
    }

    /// Act on a validated DA proposal: unless it is stale or this node is
    /// off the DA committee, persist it, sign a DA vote over the payload
    /// commitment, and record the view entry and the payload.
    pub fn handle_da_proposal_validated(
        &self,
        consensus: &mut Consensus,
        storage: &mut MemoryStorage,
        da_membership: &Membership,
        quorum_membership: &Membership,
        proposal: &Proposal<DaProposal>,
    ) -> (r: DaValidatedOutcome)
        requires
            old(consensus).wf(),
        ensures
            final(consensus).wf(),
            r == DaValidatedOutcome::TooOld <==> old(consensus)@.cur_view
                > proposal.data.view_number + 1,
            r == DaValidatedOutcome::NotInCommittee <==> (old(consensus)@.cur_view
                <= proposal.data.view_number + 1 && !da_membership@.contains(self.public_key)),
            r != DaValidatedOutcome::StorageFailed,
            (r == DaValidatedOutcome::TooOld || r == DaValidatedOutcome::NotInCommittee)
                ==> final(consensus)@ == old(consensus)@,
            r matches DaValidatedOutcome::Vote(vote) ==> {
                &&& vote.view_number == proposal.data.view_number
                &&& vote.payload_commit == commit_of(proposal.data.encoded_transactions@)
                &&& vote.signer == self.public_key
                &&& (!old(consensus)@.saved_payloads.dom().contains(proposal.data.view_number)
                    ==> final(consensus)@.saved_payloads
                    == old(consensus)@.saved_payloads.insert(
                    proposal.data.view_number,
                    proposal.data.encoded_transactions@,
                ))
                &&& (old(consensus)@.saved_payloads.dom().contains(proposal.data.view_number)
                    ==> final(consensus)@.saved_payloads == old(consensus)@.saved_payloads)
                &&& ((old(consensus)@.validated_state_map.dom().contains(
                    proposal.data.view_number,
                ) && old(consensus)@.validated_state_map[proposal.data.view_number] is Leaf)
                    ==> final(consensus)@.validated_state_map
                    == old(consensus)@.validated_state_map)
                &&& (!(old(consensus)@.validated_state_map.dom().contains(
                    proposal.data.view_number,
                ) && old(consensus)@.validated_state_map[proposal.data.view_number] is Leaf)
                    ==> final(consensus)@.validated_state_map
                    == old(consensus)@.validated_state_map.insert(
                    proposal.data.view_number,
                    ViewEntry::Da {
                        payload_commitment: commit_of(proposal.data.encoded_transactions@),
                    },
                ))
                &&& final(consensus)@.cur_view == old(consensus)@.cur_view
                &&& final(consensus)@.high_qc == old(consensus)@.high_qc
                &&& final(consensus)@.locked_view == old(consensus)@.locked_view
            },
            r is Vote ==> !old(consensus)@.saved_payloads.dom().contains(
                proposal.data.view_number,
            ) ==> final(consensus)@.saved_payloads.dom().contains(proposal.data.view_number),
    {
        let view = proposal.data.view_number;
        let curr_view = consensus.cur_view();
        if view < u64::MAX && curr_view > view + 1 {
            return DaValidatedOutcome::TooOld;
        }
        if !da_membership.has_stake(self.public_key) {
            return DaValidatedOutcome::NotInCommittee;
        }
        let stored = storage.append_da(proposal.dup());
        if stored.is_err() {
            return DaValidatedOutcome::StorageFailed;
        }
        // the dispersal commitment over the quorum; with replication
        // dispersal it coincides with the payload's content commitment for
        // any committee size
        let _quorum_size = quorum_membership.total_nodes();
        let payload_commitment = crate::data::compute_commit(&proposal.data.encoded_transactions);
        let payload = crate::data::vote_payload(TAG_DA, &payload_commitment, view);
        let signature = sign_share(&self.private_key, &payload);
        let vote = DaVote {
            payload_commit: payload_commitment,
            view_number: view,
            signer: self.public_key,
            signature,
        };
        let _entry_outcome = consensus.update_validated_state_map(
            view,
            ViewEntry::Da { payload_commitment },
        );
        let _payload_outcome = consensus.update_saved_payloads(
            view,
            crate::bytes::bytes_dup(&proposal.data.encoded_transactions),
        );
        DaValidatedOutcome::Vote(vote)
    }

    /// Drive the vote accumulator at the DA leader. A vote for a view this
    /// node does not lead is ignored; a strictly newer vote starts a fresh
    /// accumulator; the DA certificate forms exactly through the
    /// accumulator, whose threshold of recorded shares backs it.
    pub fn handle_da_vote_recv(
        &mut self,
        da_membership: &Membership,
        vote: &DaVote,
    ) -> (r: Option<DaCertificate>)
        requires
            old(self).wf(),
            da_membership.wf(),
            da_membership@.len() <= usize::MAX / 2,
        ensures
            final(self).wf(),
            final(self).cur_view == old(self).cur_view,
            final(self).public_key == old(self).public_key,
            da_membership@[(vote.view_number as int) % (da_membership@.len() as int)] != old(
                self,
            ).public_key ==> r is None && final(self).vote_collector == old(self).vote_collector,
            r matches Some(cert) ==> {
                &&& cert.view_number == vote.view_number
                &&& cert.payload_commitment == vote.payload_commit
                &&& cert.signature is Some
                &&& final(self).vote_collector is None
                &&& exists|a: VoteAccumulator|
                    a.wf() && #[trigger] a.spec_share_count(vote.payload_commit)
                        >= spec_success_threshold(da_membership@.len()) && a.spec_view_number()
                        == vote.view_number && a.spec_tag() == TAG_DA
            },
            (da_membership@[(vote.view_number as int) % (da_membership@.len() as int)] == old(
                self,
            ).public_key && r is None) ==> (final(self).vote_collector matches Some(a) && (
            a.spec_tag() == TAG_DA && a.spec_view_number() == spec_collector_view(
                old(self).vote_collector,
                vote.view_number,
            ))),
    {
        let view = vote.view_number;
        if da_membership.leader(view) != self.public_key {
            return None;
        }
        let need_new = match &self.vote_collector {
            Some(acc) => view > acc.view_number(),
            None => true,
        };
        let mut acc: VoteAccumulator = if need_new {
            VoteAccumulator::new(TAG_DA, view)
        } else {
            match self.vote_collector.take() {
                Some(a) => a,
                None => VoteAccumulator::new(TAG_DA, view),
            }
        };
        let outcome = acc.accumulate(
            da_membership,
            &vote.payload_commit,
            view,
            vote.signer,
            &vote.signature,
        );
        match outcome {
            AccumulateResult::Formed(signature) => {
                proof {
                    assert(acc.spec_share_count(vote.payload_commit) >= spec_success_threshold(
                        da_membership@.len(),
                    ));
                }
                self.vote_collector = None;
                Some(
                    DaCertificate {
                        payload_commitment: vote.payload_commit,
                        view_number: view,
                        signature: Some(signature),
                    },
                )
            },
            _ => {
                self.vote_collector = Some(acc);
                None
            },
        }
    }

    /// Enter a new view: only a strictly increasing change is accepted,
    /// except that entering view zero at the start is allowed once.
    pub fn handle_view_change(&mut self, view: u64) -> (r: bool)
        ensures
            r <==> !((view != 0 || old(self).cur_view > 0) && old(self).cur_view >= view),
            r ==> final(self).cur_view == view,
            !r ==> final(self).cur_view == old(self).cur_view,
            final(self).public_key == old(self).public_key,
            final(self).vote_collector == old(self).vote_collector,
    {
        if (view != 0 || self.cur_view > 0) && self.cur_view >= view {
            return false;
        }
        self.cur_view = view;
        true
    }

    /// Build and sign the DA proposal for a received block, at the view's
    /// DA leader: the signature covers the digest of the encoded
    /// transactions.
    pub fn handle_block_recv(
        &self,
        encoded_transactions: &Vec<u8>,
        metadata: &Vec<u8>,
        view: u64,
    ) -> (r: Proposal<DaProposal>)
        ensures
            r.data.view_number == view,
            r.data.encoded_transactions@ == encoded_transactions@,
            r.data.metadata@ == metadata@,
    {
        let digest = sha256(encoded_transactions);
        let signature = sign_share(&self.private_key, &digest);
        Proposal {
            data: DaProposal {
                encoded_transactions: crate::bytes::bytes_dup(encoded_transactions),
                metadata: crate::bytes::bytes_dup(metadata),
                view_number: view,
            },
            signature,
        }
    }
}

} // verus!
