//! Receiving and validating quorum proposals: the view and certificate
//! checks, the HotStuff safety rule (the proposed leaf extends the locked
//! leaf), the liveness rule (the justifying certificate is newer than the
//! locked view), and the liveness-only path taken while the parent leaf is
//! still missing.

use vstd::prelude::*;

use crate::consensus::{Consensus, ConsensusV, ViewEntry};
use crate::data::{
    leaf_commit_of, leaf_from_quorum_proposal, spec_zero_commit, Commit, Leaf, LeafV, Proposal,
    QuorumCertificate, QuorumProposal, QuorumProposalV, ViewChangeEvidence, TAG_QUORUM, TAG_TIMEOUT,
    TAG_VIEW_SYNC_FINALIZE,
};
use crate::membership::Membership;
use crate::vmap::MapKey;
use crate::storage::MemoryStorage;

verus! {

/// Whether a received proposal was fully validated, or only its liveness
/// could be checked because its parent is missing.
#[derive(Clone, Copy, Debug, PartialEq, Eq, Structural)]
pub enum QuorumProposalValidity {
    /// Fully validated; the vote task may act on it.
    Fully,
    /// Not fully validated: the parent is missing from the saved leaves,
    /// but the liveness rule held and the state was recorded.
    Liveness,
}

/// Why a received proposal was rejected.
#[derive(Clone, Copy, Debug, PartialEq, Eq, Structural)]
pub enum ProposalRecvError {
    /// The sender is not the proposal's view leader.
    WrongLeader,
    /// The proposal's view lies behind the current view.
    StaleView,
    /// The justifying certificate is not for the preceding view and no
    /// view-change evidence for the right view is attached.
    BadJustifyView,
    /// The attached view-change evidence did not verify.
    InvalidEvidence,
    /// The justifying certificate's threshold signature did not verify.
    InvalidJustifyQc,
    /// Both the safety rule and the liveness rule failed.
    SafetyLivenessFailed,
    /// The parent is missing and the liveness rule failed.
    LivenessFailed,
}

/// Whether `target` is reached from `parent` by following parent links
/// through the saved leaves, within `fuel` steps; reaching the zero
/// commitment means the chain ran to genesis, which extends everything.
pub open spec fn spec_extends_from(
    m: Map<Commit, LeafV>,
    parent: Commit,
    target: Commit,
    fuel: nat,
) -> bool
    decreases fuel,
{
    if parent == target {
        true
    } else if parent == spec_zero_commit() {
        true
    } else if !m.dom().contains(parent) {
        false
    } else if fuel == 0 {
        false
    } else {
        spec_extends_from(m, m[parent].parent_commitment, target, (fuel - 1) as nat)
    }
}

/// The quorum-proposal-receive task's own state.
pub struct QuorumProposalRecvTaskState {
    /// Current view of this node.
    pub cur_view: u64,
    /// This node's committee index.
    pub public_key: u64,
}

/// Decide whether the proposed leaf extends the target commitment by
/// walking parent links through the saved leaves; `fuel` bounds the walk.
pub fn extends_from(consensus: &Consensus, leaf: &Leaf, target: &Commit, fuel: u64) -> (r: bool)
    requires
        consensus.wf(),
    ensures
        r == spec_extends_from(
            consensus@.saved_leaves,
            leaf.parent_commitment,
            *target,
            fuel as nat,
        ),
{
    let mut parent: Commit = leaf.parent_commitment;
    let zero = crate::data::zero_commit();
    let mut fuel_left: u64 = fuel;
    loop
        invariant
            consensus.wf(),
            spec_extends_from(consensus@.saved_leaves, leaf.parent_commitment, *target, fuel as nat)
                == spec_extends_from(consensus@.saved_leaves, parent, *target, fuel_left as nat),
            zero == spec_zero_commit(),
        decreases fuel_left,
    {
        if parent.key_eq(target) {
            return true;
        }
        if parent.key_eq(&zero) {
            return true;
        }
        let next = match consensus.saved_leaf(&parent) {
            Some(l) => l.parent_commitment,
            None => {
                return false;
            },
        };
        if fuel_left == 0 {
            return false;
        }
        parent = next;
        fuel_left = fuel_left - 1;
    }
}

/// Decide the safety rule for a proposed leaf against a justifying
/// certificate: a genesis certificate passes outright; otherwise the leaf
/// must extend the locked leaf or the certificate must be newer than the
/// locked view.
pub fn safe_node(consensus: &Consensus, leaf: &Leaf, qc: &QuorumCertificate) -> (r: bool)
    requires
        consensus.wf(),
    ensures
        qc.is_genesis ==> r,
        !qc.is_genesis ==> r == (spec_safety_check(consensus@, leaf@) || qc.view_number
            > consensus@.locked_view),
{
    if qc.is_genesis {
        return true;
    }
    if qc.view_number > consensus.locked_view() {
        return true;
    }
    locked_leaf_extended(consensus, leaf)
}

/// The safety rule: the proposed leaf extends the leaf entry recorded at
/// the locked view, within a walk bounded by the leaf's own view.
pub open spec fn spec_safety_check(s: ConsensusV, leaf: LeafV) -> bool {
    &&& s.validated_state_map.dom().contains(s.locked_view)
    &&& s.validated_state_map[s.locked_view] is Leaf
    &&& spec_extends_from(
        s.saved_leaves,
        leaf.parent_commitment,
        locked_commit(s),
        leaf.view_number as nat,
    )
}

/// The commitment of the leaf entry at the locked view.
pub open spec fn locked_commit(s: ConsensusV) -> Commit {
    match s.validated_state_map[s.locked_view] {
        ViewEntry::Leaf { leaf_commit } => leaf_commit,
        _ => spec_zero_commit(),
    }
}

/// Decide whether the proposed leaf extends the locked leaf.
fn locked_leaf_extended(consensus: &Consensus, leaf: &Leaf) -> (r: bool)
    requires
        consensus.wf(),
    ensures
        r == spec_safety_check(consensus@, leaf@),
{
    let locked_view = consensus.locked_view();
    let locked = match consensus.validated_state_entry(locked_view) {
        Some(entry) => match entry {
            ViewEntry::Leaf { leaf_commit } => *leaf_commit,
            _ => {
                return false;
            },
        },
        None => {
            return false;
        },
    };
    extends_from(consensus, leaf, &locked, leaf.view_number)
}

/// The structural checks of a received proposal that no outside call
/// decides: the sender leads the view, the view is not stale, and the
/// justifying certificate is for the view directly below.
pub open spec fn spec_structural_pass(
    cur_view: u64,
    membership: Seq<u64>,
    p: QuorumProposalV,
    sender: u64,
) -> bool
    recommends
        membership.len() > 0,
{
    &&& sender == membership[(p.view_number as int) % (membership.len() as int)]
    &&& p.view_number >= cur_view
    &&& p.justify_qc.view_number + 1 == p.view_number
}

/// A proposal on which no outside verdict is consulted at all: it passes
/// the structural checks and is justified by the genesis certificate, so
/// neither evidence nor a threshold signature is verified.
pub open spec fn spec_sig_free(
    cur_view: u64,
    membership: Seq<u64>,
    p: QuorumProposalV,
    sender: u64,
) -> bool
    recommends
        membership.len() > 0,
{
    &&& spec_structural_pass(cur_view, membership, p, sender)
    &&& p.justify_qc.is_genesis
}

/// What accepting a proposal records in the consensus state: the proposed
/// leaf under its commitment, its leaf entry at its view, the justifying
/// certificate adopted when strictly newer, the current view raised to the
/// proposal's (and to the adopted certificate's, where that lies ahead),
/// and everything else untouched.
pub open spec fn spec_recorded(pre: ConsensusV, post: ConsensusV, p: QuorumProposalV) -> bool {
    let leaf = leaf_from_quorum_proposal(p);
    let c = leaf_commit_of(leaf);
    let cur1 = if p.view_number > pre.cur_view {
        p.view_number
    } else {
        pre.cur_view
    };
    &&& post.saved_leaves == pre.saved_leaves.insert(c, leaf)
    &&& post.validated_state_map == pre.validated_state_map.insert(
        p.view_number,
        ViewEntry::Leaf { leaf_commit: c },
    )
    &&& post.high_qc == (if p.justify_qc.view_number > pre.high_qc.view_number {
        p.justify_qc
    } else {
        pre.high_qc
    })
    &&& post.cur_view == (if p.justify_qc.view_number > pre.high_qc.view_number
        && p.justify_qc.view_number > cur1 {
        p.justify_qc.view_number
    } else {
        cur1
    })
    &&& post.locked_view == pre.locked_view
    &&& post.last_decided_view == pre.last_decided_view
    &&& post.last_proposed_view == pre.last_proposed_view
    &&& post.saved_payloads == pre.saved_payloads
    &&& post.saved_da_certs == pre.saved_da_certs
    &&& post.vid_shares == pre.vid_shares
    &&& post.last_proposals == pre.last_proposals
}

impl QuorumProposalRecvTaskState {
    /// Validate a proposal's view and its attached certificates: the sender
    /// must lead the proposal's view, the view must not be stale, and the
    /// justifying certificate must be for the preceding view unless valid
    /// timeout or view-sync evidence for the right view is attached.
    pub fn validate_proposal_view_and_certs(
        &self,
        quorum_membership: &Membership,
        timeout_membership: &Membership,
        proposal: &Proposal<QuorumProposal>,
        sender: u64,
    ) -> (r: Result<(), ProposalRecvError>)
        requires
            quorum_membership.wf(),
        ensures
            r == Err::<(), ProposalRecvError>(ProposalRecvError::WrongLeader) <==> sender
                != quorum_membership@[(proposal.data.view_number as int) % (
            quorum_membership@.len() as int)],
            r == Err::<(), ProposalRecvError>(ProposalRecvError::StaleView) <==> (sender
                == quorum_membership@[(proposal.data.view_number as int) % (
            quorum_membership@.len() as int)] && proposal.data.view_number < self.cur_view),
            r == Err::<(), ProposalRecvError>(ProposalRecvError::BadJustifyView) ==> (
            proposal.data.justify_qc.view_number + 1 != proposal.data.view_number),
            r == Err::<(), ProposalRecvError>(ProposalRecvError::InvalidEvidence) ==> (
            proposal.data.justify_qc.view_number + 1 != proposal.data.view_number),
            r matches Err(e) ==> (e == ProposalRecvError::WrongLeader || e
                == ProposalRecvError::StaleView || e == ProposalRecvError::BadJustifyView || e
                == ProposalRecvError::InvalidEvidence),
            r is Ok ==> (proposal.data.justify_qc.view_number + 1 == proposal.data.view_number
                || proposal.data.proposal_certificate is Some),
    {
        let view = proposal.data.view_number;
        if quorum_membership.leader(view) != sender {
            return Err(ProposalRecvError::WrongLeader);
        }
        if view < self.cur_view {
            return Err(ProposalRecvError::StaleView);
        }
        let consecutive = proposal.data.justify_qc.view_number < u64::MAX
            && proposal.data.justify_qc.view_number + 1 == view;
        if !consecutive {
            match &proposal.data.proposal_certificate {
                None => {
                    return Err(ProposalRecvError::BadJustifyView);
                },
                Some(ViewChangeEvidence::Timeout(tc)) => {
                    if !(tc.view_number < u64::MAX && tc.view_number + 1 == view) {
                        return Err(ProposalRecvError::BadJustifyView);
                    }
                    let sig = match &tc.signature {
                        Some(s) => *s,
                        None => {
                            return Err(ProposalRecvError::InvalidEvidence);
                        },
                    };
                    let zero = crate::data::zero_commit();
                    if !timeout_membership.check_certificate_signature(
                        TAG_TIMEOUT,
                        &zero,
                        tc.view_number,
                        &sig,
                    ) {
                        return Err(ProposalRecvError::InvalidEvidence);
                    }
                },
                Some(ViewChangeEvidence::ViewSync(vs)) => {
                    if vs.view_number != view {
                        return Err(ProposalRecvError::BadJustifyView);
                    }
                    let sig = match &vs.signature {
                        Some(s) => *s,
                        None => {
                            return Err(ProposalRecvError::InvalidEvidence);
                        },
                    };
                    let zero = crate::data::zero_commit();
                    if !quorum_membership.check_certificate_signature(
                        TAG_VIEW_SYNC_FINALIZE,
                        &zero,
                        vs.view_number,
                        &sig,
                    ) {
                        return Err(ProposalRecvError::InvalidEvidence);
                    }
                },
            }
        }
        Ok(())
    }

    /// Handle a received quorum proposal: validate its view and
    /// certificates and the justifying certificate's signature, enter its
    /// view, adopt a strictly-higher justifying certificate (persisting it
    /// first), and then run the safety and liveness rules, or the
    /// liveness-only path when the parent leaf is missing. In every case
    /// that reaches past the certificate checks — the accepted grades and
    /// both rule failures — the proposed leaf and its view entry are
    /// recorded and the undecided state is checkpointed; on the checks'
    /// own errors nothing changes. On inputs where no outside verdict is
    /// consulted, the outcome is pinned exactly.
    pub fn handle_quorum_proposal_recv(
        &mut self,
        consensus: &mut Consensus,
        storage: &mut MemoryStorage,
        quorum_membership: &Membership,
        timeout_membership: &Membership,
        proposal: &Proposal<QuorumProposal>,
        sender: u64,
    ) -> (r: Result<QuorumProposalValidity, ProposalRecvError>)
        requires
            old(consensus).wf(),
            quorum_membership.wf(),
            old(storage).spec_checkpoints() < u64::MAX,
        ensures
            final(consensus).wf(),
            // the pre-recording checks, tied to their causes
            r == Err::<QuorumProposalValidity, ProposalRecvError>(ProposalRecvError::WrongLeader)
                <==> sender != quorum_membership@[(proposal.data.view_number as int) % (
            quorum_membership@.len() as int)],
            r == Err::<QuorumProposalValidity, ProposalRecvError>(ProposalRecvError::StaleView)
                <==> (sender == quorum_membership@[(proposal.data.view_number as int) % (
            quorum_membership@.len() as int)] && proposal.data.view_number < old(self).cur_view),
            r == Err::<QuorumProposalValidity, ProposalRecvError>(
                ProposalRecvError::BadJustifyView,
            ) ==> proposal.data.justify_qc.view_number + 1 != proposal.data.view_number,
            // nothing changes when a check fails
            (r == Err::<QuorumProposalValidity, ProposalRecvError>(ProposalRecvError::WrongLeader)
                || r == Err::<QuorumProposalValidity, ProposalRecvError>(
                ProposalRecvError::StaleView,
            ) || r == Err::<QuorumProposalValidity, ProposalRecvError>(
                ProposalRecvError::BadJustifyView,
            ) || r == Err::<QuorumProposalValidity, ProposalRecvError>(
                ProposalRecvError::InvalidEvidence,
            ) || r == Err::<QuorumProposalValidity, ProposalRecvError>(
                ProposalRecvError::InvalidJustifyQc,
            )) ==> final(consensus)@ == old(consensus)@ && final(self).cur_view == old(
                self,
            ).cur_view && final(storage).spec_checkpoints() == old(storage).spec_checkpoints()
                && final(storage).spec_high_qcs() == old(storage).spec_high_qcs(),
            // every path past the checks records the proposal
            (r is Ok || r == Err::<QuorumProposalValidity, ProposalRecvError>(
                ProposalRecvError::SafetyLivenessFailed,
            ) || r == Err::<QuorumProposalValidity, ProposalRecvError>(
                ProposalRecvError::LivenessFailed,
            )) ==> {
                &&& spec_recorded(old(consensus)@, final(consensus)@, proposal.data@)
                &&& final(self).cur_view == (if proposal.data.view_number > old(self).cur_view {
                    proposal.data.view_number
                } else {
                    old(self).cur_view
                })
                &&& final(storage).spec_checkpoints() == old(storage).spec_checkpoints() + 1
                &&& final(storage).spec_da_proposals() == old(storage).spec_da_proposals()
                &&& final(storage).spec_vid_shares() == old(storage).spec_vid_shares()
                &&& (proposal.data.justify_qc.view_number > old(consensus)@.high_qc.view_number
                    ==> final(storage).spec_high_qcs() == old(storage).spec_high_qcs().push(
                    proposal.data.justify_qc,
                ))
                &&& (proposal.data.justify_qc.view_number <= old(consensus)@.high_qc.view_number
                    ==> final(storage).spec_high_qcs() == old(storage).spec_high_qcs())
            },
            // the grades and rule failures, tied to the parent and the rules
            r == Ok::<QuorumProposalValidity, ProposalRecvError>(QuorumProposalValidity::Fully)
                ==> old(consensus)@.saved_leaves.dom().contains(
                proposal.data.justify_qc.leaf_commit,
            ) && (spec_safety_check(
                final(consensus)@,
                leaf_from_quorum_proposal(proposal.data@),
            ) || proposal.data.justify_qc.view_number > old(consensus)@.locked_view),
            r == Ok::<QuorumProposalValidity, ProposalRecvError>(QuorumProposalValidity::Liveness)
                ==> !old(consensus)@.saved_leaves.dom().contains(
                proposal.data.justify_qc.leaf_commit,
            ) && proposal.data.justify_qc.view_number > old(consensus)@.locked_view,
            r == Err::<QuorumProposalValidity, ProposalRecvError>(
                ProposalRecvError::SafetyLivenessFailed,
            ) ==> old(consensus)@.saved_leaves.dom().contains(proposal.data.justify_qc.leaf_commit)
                && !spec_safety_check(
                final(consensus)@,
                leaf_from_quorum_proposal(proposal.data@),
            ) && !(proposal.data.justify_qc.view_number > old(consensus)@.locked_view),
            r == Err::<QuorumProposalValidity, ProposalRecvError>(
                ProposalRecvError::LivenessFailed,
            ) ==> !old(consensus)@.saved_leaves.dom().contains(
                proposal.data.justify_qc.leaf_commit,
            ) && !(proposal.data.justify_qc.view_number > old(consensus)@.locked_view),
            // on inputs where no outside verdict is consulted, success is
            // owed exactly by the rules
            spec_sig_free(old(self).cur_view, quorum_membership@, proposal.data@, sender) ==> {
                let parent_present = old(consensus)@.saved_leaves.dom().contains(
                    proposal.data.justify_qc.leaf_commit,
                );
                let liveness = proposal.data.justify_qc.view_number > old(consensus)@.locked_view;
                &&& (r == Ok::<QuorumProposalValidity, ProposalRecvError>(
                    QuorumProposalValidity::Fully,
                ) <==> parent_present && (spec_safety_check(
                    final(consensus)@,
                    leaf_from_quorum_proposal(proposal.data@),
                ) || liveness))
                &&& (r == Ok::<QuorumProposalValidity, ProposalRecvError>(
                    QuorumProposalValidity::Liveness,
                ) <==> !parent_present && liveness)
            },
    {
        let outcome = self.validate_proposal_view_and_certs(
            quorum_membership,
            timeout_membership,
            proposal,
            sender,
        );
        if let Err(e) = outcome {
            return Err(e);
        }
        let view = proposal.data.view_number;
        let justify_qc = proposal.data.justify_qc;
        // verify the justifying certificate's threshold signature
        if !justify_qc.is_genesis {
            let sig = match &justify_qc.signature {
                Some(s) => *s,
                None => {
                    return Err(ProposalRecvError::InvalidJustifyQc);
                },
            };
            if !quorum_membership.check_certificate_signature(
                TAG_QUORUM,
                &justify_qc.leaf_commit,
                justify_qc.view_number,
                &sig,
            ) {
                return Err(ProposalRecvError::InvalidJustifyQc);
            }
        }
        // enter the proposal's view
        let _view_outcome = consensus.update_view(view);
        if view > self.cur_view {
            self.cur_view = view;
        }
        // adopt a strictly-higher justifying certificate, persisting first
        if justify_qc.view_number > consensus.high_qc().view_number {
            let _stored = storage.update_high_qc(justify_qc);
        }
        let _qc_outcome = consensus.update_high_qc(justify_qc);
        // record the proposed leaf and its entry
        let proposed_leaf = proposal.data.to_leaf();
        let leaf_commit = proposed_leaf.commit();
        let parent_present = consensus.saved_leaf(&justify_qc.leaf_commit).is_some();
        consensus.update_saved_leaves(proposed_leaf.dup());
        let _entry_outcome = consensus.update_validated_state_map(
            view,
            ViewEntry::Leaf { leaf_commit },
        );
        let _checkpointed = storage.update_undecided_state();
        if parent_present {
            // safety and liveness: at least one must hold
            let safety = locked_leaf_extended(consensus, &proposed_leaf);
            let liveness = justify_qc.view_number > consensus.locked_view();
            if !safety && !liveness {
                return Err(ProposalRecvError::SafetyLivenessFailed);
            }
            Ok(QuorumProposalValidity::Fully)
        } else {
            // liveness-only: the parent is missing; the state was recorded
            // so catch-up can proceed, but a vote demands liveness
            let liveness = justify_qc.view_number > consensus.locked_view();
            if !liveness {
                return Err(ProposalRecvError::LivenessFailed);
            }
            Ok(QuorumProposalValidity::Liveness)
        }
    }
}

impl Proposal<QuorumProposal> {
    /// Check that the proposal is signed by its view's leader over the
    /// proposed leaf's commitment; the verdict is the outside scheme's.
    pub fn validate_signature(&self, quorum_membership: &Membership) -> bool
        requires
            quorum_membership.wf(),
    {
        let leader = quorum_membership.leader(self.data.view_number);
        let proposed_leaf = self.data.to_leaf();
        let commit = proposed_leaf.commit();
        let mut msg: Vec<u8> = Vec::new();
        crate::data::push_commit(&mut msg, &commit);
        quorum_membership.check_signature(leader, &msg, &self.signature)
    }
}

} // verus!
