//! The quorum-proposal task: a per-view dependency engine. A proposal for a
//! view is published once the payload commitment and this leader's
//! dispersal share are both at hand, together with one of: a quorum
//! certificate for the previous view, a timeout certificate for the
//! previous view, or a view-sync finalize certificate for the view itself.

use vstd::prelude::*;

use crate::consensus::{Consensus, ConsensusV, UpdateOutcome};
use crate::crypto::sign_share;
use crate::data::{
    BlockHeader, Commit, Proposal, QuorumCertificate, QuorumProposal, TimeoutCertificate,
    ViewChangeEvidence, ViewSyncFinalizeCertificate,
};
use crate::membership::Membership;
use crate::vmap::KeyAtLeast;

verus! {

/// The payload commitment and metadata a leader proposes with.
pub struct CommitmentAndMetadata {
    pub commitment: Commit,
    pub builder_commitment: Commit,
    pub metadata: Vec<u8>,
    pub fee: u64,
    pub block_view: u64,
}

impl CommitmentAndMetadata {
    /// An exact copy.
    pub fn dup(&self) -> (r: Self)
        ensures
            r.commitment == self.commitment,
            r.builder_commitment == self.builder_commitment,
            r.metadata@ == self.metadata@,
            r.fee == self.fee,
            r.block_view == self.block_view,
    {
        CommitmentAndMetadata {
            commitment: self.commitment,
            builder_commitment: self.builder_commitment,
            metadata: crate::bytes::bytes_dup(&self.metadata),
            fee: self.fee,
            block_view: self.block_view,
        }
    }
}

/// The gathered dependencies of one view's proposal.
pub struct ProposalDependencyState {
    /// The payload commitment and metadata, once received.
    pub payload: Option<CommitmentAndMetadata>,
    /// Whether this leader's dispersal share for the view was sent.
    pub vid_share: bool,
    /// Whether a quorum certificate for the previous view was announced.
    pub qc: bool,
    /// A timeout certificate for the previous view, if one formed.
    pub timeout_cert: Option<TimeoutCertificate>,
    /// A view-sync finalize certificate for the view, if one was received.
    pub view_sync_cert: Option<ViewSyncFinalizeCertificate>,
    /// Whether a proposal for the previous view was received, witnessing
    /// that the chain reached it.
    pub proposal_recv: bool,
}

/// The dependency of a view's proposal is complete when both primary parts
/// are at hand and one secondary path holds: a timeout certificate, a
/// view-sync certificate, or a quorum certificate (witnessed by the
/// previous proposal for views past the first).
pub open spec fn spec_deps_complete(d: ProposalDependencyState, view: u64) -> bool {
    &&& d.payload is Some
    &&& d.vid_share
    &&& {
        ||| d.timeout_cert is Some
        ||| d.view_sync_cert is Some
        ||| (d.qc && (view <= 1 || d.proposal_recv))
    }
}

impl ProposalDependencyState {
    /// No dependency yet.
    pub fn new() -> (r: Self)
        ensures
            r == spec_empty_deps(),
    {
        ProposalDependencyState {
            payload: None,
            vid_share: false,
            qc: false,
            timeout_cert: None,
            view_sync_cert: None,
            proposal_recv: false,
        }
    }

    /// Whether every needed dependency is at hand.
    pub fn complete(&self, view: u64) -> (r: bool)
        ensures
            r == spec_deps_complete(*self, view),
    {
        self.payload.is_some() && self.vid_share && (self.timeout_cert.is_some()
            || self.view_sync_cert.is_some() || (self.qc && (view <= 1 || self.proposal_recv)))
    }

    /// The view-change evidence to attach, view-sync certificates first,
    /// then timeout certificates, else none.
    pub fn evidence(&self) -> (r: Option<ViewChangeEvidence>)
        ensures
            self.view_sync_cert matches Some(c) ==> r == Some(ViewChangeEvidence::ViewSync(c)),
            self.view_sync_cert is None ==> (self.timeout_cert matches Some(c) ==> r == Some(
                ViewChangeEvidence::Timeout(c),
            )),
            self.view_sync_cert is None && self.timeout_cert is None ==> r is None,
    {
        match &self.view_sync_cert {
            Some(c) => Some(ViewChangeEvidence::ViewSync(*c)),
            None => match &self.timeout_cert {
                Some(c) => Some(ViewChangeEvidence::Timeout(*c)),
                None => None,
            },
        }
    }
}

/// Why a proposal could not be published.
#[derive(Clone, Copy, Debug, PartialEq, Eq, Structural)]
pub enum PublishError {
    /// The payload commitment and metadata are for another view.
    StalePayload,
    /// The parent leaf named by the high certificate is not in the saved
    /// leaves; it must be fetched first.
    MissingParent,
    /// A proposal for this or a higher view was already published.
    AlreadyProposed,
}

/// The quorum-proposal task's own state.
pub struct QuorumProposalTaskState {
    /// Highest view this node created a proposal dependency or proposed
    /// for.
    pub latest_proposed_view: u64,
    /// The in-progress dependency of each view.
    pub deps: crate::vmap::AssocMap<u64, ProposalDependencyState>,
    /// This node's committee index.
    pub public_key: u64,
    /// This node's secret key share.
    pub private_key: threshold_crypto::SecretKeyShare,
    /// Proposer pacing delay in milliseconds, waited by the caller between
    /// recording and broadcasting a proposal.
    pub round_start_delay: u64,
}

/// A dependency state with nothing gathered yet.
pub open spec fn spec_empty_deps() -> ProposalDependencyState {
    ProposalDependencyState {
        payload: None,
        vid_share: false,
        qc: false,
        timeout_cert: None,
        view_sync_cert: None,
        proposal_recv: false,
    }
}

/// The dependency state gathered for a view so far: the stored one, or
/// nothing yet.
pub open spec fn spec_gathered(
    m: Map<u64, ProposalDependencyState>,
    view: u64,
) -> ProposalDependencyState {
    if m.dom().contains(view) {
        m[view]
    } else {
        spec_empty_deps()
    }
}

/// The gathered state with the payload slot filled.
pub open spec fn spec_with_payload(
    d: ProposalDependencyState,
    payload: CommitmentAndMetadata,
) -> ProposalDependencyState {
    ProposalDependencyState { payload: Some(payload), ..d }
}

/// The gathered state with the dispersal-share slot filled.
pub open spec fn spec_with_vid(d: ProposalDependencyState) -> ProposalDependencyState {
    ProposalDependencyState { vid_share: true, ..d }
}

/// The gathered state with the quorum-certificate slot filled.
pub open spec fn spec_with_qc(d: ProposalDependencyState) -> ProposalDependencyState {
    ProposalDependencyState { qc: true, ..d }
}

/// The gathered state with the timeout-certificate slot filled.
pub open spec fn spec_with_timeout(
    d: ProposalDependencyState,
    tc: TimeoutCertificate,
) -> ProposalDependencyState {
    ProposalDependencyState { timeout_cert: Some(tc), ..d }
}

/// The gathered state with the view-sync-certificate slot filled.
pub open spec fn spec_with_view_sync(
    d: ProposalDependencyState,
    cert: ViewSyncFinalizeCertificate,
) -> ProposalDependencyState {
    ProposalDependencyState { view_sync_cert: Some(cert), ..d }
}

/// The gathered state with the previous-proposal witness filled.
pub open spec fn spec_with_witness(d: ProposalDependencyState) -> ProposalDependencyState {
    ProposalDependencyState { proposal_recv: true, ..d }
}

impl QuorumProposalTaskState {
    pub open spec fn wf(self) -> bool {
        self.deps.wf()
    }

    /// Whether this node may create the dependency for a view: it must be
    /// the view's leader and must not have proposed for it already.
    pub open spec fn spec_may_create(self, membership: Seq<u64>, view: u64) -> bool
        recommends
            membership.len() > 0,
    {
        membership[(view as int) % (membership.len() as int)] == self.public_key && view
            > self.latest_proposed_view
    }

    /// Decide whether this node may create the dependency for a view.
    pub fn may_create_dependency(&self, quorum_membership: &Membership, view: u64) -> (r: bool)
        requires
            quorum_membership.wf(),
        ensures
            r == self.spec_may_create(quorum_membership@, view),
    {
        quorum_membership.leader(view) == self.public_key && view > self.latest_proposed_view
    }

    /// Store an updated dependency state for a view, or hand it back when
    /// it is complete.
    fn store_or_complete(&mut self, view: u64, d: ProposalDependencyState) -> (r: Option<
        ProposalDependencyState,
    >)
        requires
            old(self).wf(),
        ensures
            final(self).wf(),
            final(self).latest_proposed_view == old(self).latest_proposed_view,
            final(self).public_key == old(self).public_key,
            r is Some <==> spec_deps_complete(d, view),
            r matches Some(c) ==> c == d && final(self).deps@ == old(self).deps@.remove(view),
            r is None ==> final(self).deps@ == old(self).deps@.insert(view, d),
    {
        if d.complete(view) {
            self.deps.remove(&view);
            Some(d)
        } else {
            self.deps.insert(view, d);
            None
        }
    }

    /// Take the dependency state gathered for a view so far, or a fresh
    /// one.
    fn take_deps(&mut self, view: u64) -> (r: ProposalDependencyState)
        requires
            old(self).wf(),
        ensures
            final(self).wf(),
            final(self).latest_proposed_view == old(self).latest_proposed_view,
            final(self).public_key == old(self).public_key,
            r == spec_gathered(old(self).deps@, view),
            final(self).deps@ == old(self).deps@.remove(view),
    {
        match self.deps.take(&view) {
            Some(d) => d,
            None => ProposalDependencyState::new(),
        }
    }

    /// Note a payload commitment and metadata for its block view: under
    /// the leader-and-monotone gate the view's gathered state gains the
    /// payload slot, and is handed out exactly when it is then complete.
    pub fn on_payload_commitment(
        &mut self,
        quorum_membership: &Membership,
        payload: CommitmentAndMetadata,
    ) -> (r: Option<ProposalDependencyState>)
        requires
            old(self).wf(),
            quorum_membership.wf(),
        ensures
            final(self).wf(),
            final(self).latest_proposed_view == old(self).latest_proposed_view,
            final(self).public_key == old(self).public_key,
            !old(self).spec_may_create(quorum_membership@, payload.block_view) ==> r is None
                && final(self).deps@ == old(self).deps@,
            old(self).spec_may_create(quorum_membership@, payload.block_view) ==> {
                let d1 = spec_with_payload(
                    spec_gathered(old(self).deps@, payload.block_view),
                    payload,
                );
                &&& (r is Some <==> spec_deps_complete(d1, payload.block_view))
                &&& (r matches Some(c) ==> c == d1 && final(self).deps@ == old(self).deps@.remove(payload.block_view))
                &&& (r is None ==> final(self).deps@ == old(self).deps@.insert(
                    payload.block_view,
                    d1,
                ))
            },
    {
        let view = payload.block_view;
        if !self.may_create_dependency(quorum_membership, view) {
            return None;
        }
        let mut d = self.take_deps(view);
        d.payload = Some(payload);
        let r = self.store_or_complete(view, d);
        proof {
            lemma_note_composes(old(self).deps@, view);
        }
        r
    }

    /// Note that this leader's dispersal share for a view was sent.
    pub fn on_vid_share_send(&mut self, quorum_membership: &Membership, view: u64) -> (r: Option<
        ProposalDependencyState,
    >)
        requires
            old(self).wf(),
            quorum_membership.wf(),
        ensures
            final(self).wf(),
            final(self).latest_proposed_view == old(self).latest_proposed_view,
            final(self).public_key == old(self).public_key,
            !old(self).spec_may_create(quorum_membership@, view) ==> r is None && final(self).deps@ == old(self).deps@,
            old(self).spec_may_create(quorum_membership@, view) ==> {
                let d1 = spec_with_vid(spec_gathered(old(self).deps@, view));
                &&& (r is Some <==> spec_deps_complete(d1, view))
                &&& (r matches Some(c) ==> c == d1 && final(self).deps@ == old(self).deps@.remove(view))
                &&& (r is None ==> final(self).deps@ == old(self).deps@.insert(view, d1))
            },
    {
        if !self.may_create_dependency(quorum_membership, view) {
            return None;
        }
        let mut d = self.take_deps(view);
        d.vid_share = true;
        let r = self.store_or_complete(view, d);
        proof {
            lemma_note_composes(old(self).deps@, view);
        }
        r
    }

    /// Note an announced high quorum certificate: it seeds the
    /// quorum-certificate slot of the view after the certificate's.
    pub fn on_update_high_qc(
        &mut self,
        quorum_membership: &Membership,
        qc: &QuorumCertificate,
    ) -> (r: Option<(u64, ProposalDependencyState)>)
        requires
            old(self).wf(),
            quorum_membership.wf(),
        ensures
            final(self).wf(),
            final(self).latest_proposed_view == old(self).latest_proposed_view,
            final(self).public_key == old(self).public_key,
            qc.view_number == u64::MAX ==> r is None && final(self).deps@ == old(self).deps@,
            qc.view_number < u64::MAX && !old(self).spec_may_create(
                quorum_membership@,
                (qc.view_number + 1) as u64,
            ) ==> r is None && final(self).deps@ == old(self).deps@,
            qc.view_number < u64::MAX && old(self).spec_may_create(
                quorum_membership@,
                (qc.view_number + 1) as u64,
            ) ==> {
                let view = (qc.view_number + 1) as u64;
                let d1 = spec_with_qc(spec_gathered(old(self).deps@, view));
                &&& (r is Some <==> spec_deps_complete(d1, view))
                &&& (r matches Some(p) ==> p == (view, d1) && final(self).deps@ == old(self).deps@.remove(view))
                &&& (r is None ==> final(self).deps@ == old(self).deps@.insert(view, d1))
            },
    {
        if qc.view_number == u64::MAX {
            return None;
        }
        let view = qc.view_number + 1;
        if !self.may_create_dependency(quorum_membership, view) {
            return None;
        }
        let mut d = self.take_deps(view);
        d.qc = true;
        let r = match self.store_or_complete(view, d) {
            Some(c) => Some((view, c)),
            None => None,
        };
        proof {
            lemma_note_composes(old(self).deps@, view);
        }
        r
    }

    /// Note a formed timeout certificate: it seeds the timeout slot of the
    /// view after the timed-out one, so the next leader can propose
    /// without a quorum certificate for the suppressed view.
    pub fn on_timeout_cert(
        &mut self,
        quorum_membership: &Membership,
        tc: &TimeoutCertificate,
    ) -> (r: Option<(u64, ProposalDependencyState)>)
        requires
            old(self).wf(),
            quorum_membership.wf(),
        ensures
            final(self).wf(),
            final(self).latest_proposed_view == old(self).latest_proposed_view,
            final(self).public_key == old(self).public_key,
            tc.view_number == u64::MAX ==> r is None && final(self).deps@ == old(self).deps@,
            tc.view_number < u64::MAX && !old(self).spec_may_create(
                quorum_membership@,
                (tc.view_number + 1) as u64,
            ) ==> r is None && final(self).deps@ == old(self).deps@,
            tc.view_number < u64::MAX && old(self).spec_may_create(
                quorum_membership@,
                (tc.view_number + 1) as u64,
            ) ==> {
                let view = (tc.view_number + 1) as u64;
                let d1 = spec_with_timeout(spec_gathered(old(self).deps@, view), *tc);
                &&& (r is Some <==> spec_deps_complete(d1, view))
                &&& (r matches Some(p) ==> p == (view, d1) && final(self).deps@ == old(self).deps@.remove(view))
                &&& (r is None ==> final(self).deps@ == old(self).deps@.insert(view, d1))
            },
    {
        if tc.view_number == u64::MAX {
            return None;
        }
        let view = tc.view_number + 1;
        if !self.may_create_dependency(quorum_membership, view) {
            return None;
        }
        let mut d = self.take_deps(view);
        d.timeout_cert = Some(*tc);
        let r = match self.store_or_complete(view, d) {
            Some(c) => Some((view, c)),
            None => None,
        };
        proof {
            lemma_note_composes(old(self).deps@, view);
        }
        r
    }

    /// Note a received view-sync finalize certificate for its own view.
    pub fn on_view_sync_cert(
        &mut self,
        quorum_membership: &Membership,
        cert: &ViewSyncFinalizeCertificate,
    ) -> (r: Option<ProposalDependencyState>)
        requires
            old(self).wf(),
            quorum_membership.wf(),
        ensures
            final(self).wf(),
            final(self).latest_proposed_view == old(self).latest_proposed_view,
            final(self).public_key == old(self).public_key,
            !old(self).spec_may_create(quorum_membership@, cert.view_number) ==> r is None
                && final(self).deps@ == old(self).deps@,
            old(self).spec_may_create(quorum_membership@, cert.view_number) ==> {
                let d1 = spec_with_view_sync(
                    spec_gathered(old(self).deps@, cert.view_number),
                    *cert,
                );
                &&& (r is Some <==> spec_deps_complete(d1, cert.view_number))
                &&& (r matches Some(c) ==> c == d1 && final(self).deps@ == old(self).deps@.remove(cert.view_number))
                &&& (r is None ==> final(self).deps@ == old(self).deps@.insert(
                    cert.view_number,
                    d1,
                ))
            },
    {
        let view = cert.view_number;
        if !self.may_create_dependency(quorum_membership, view) {
            return None;
        }
        let mut d = self.take_deps(view);
        d.view_sync_cert = Some(*cert);
        let r = self.store_or_complete(view, d);
        proof {
            lemma_note_composes(old(self).deps@, view);
        }
        r
    }

    /// Note a received proposal for a view: it witnesses the chain and
    /// seeds the dependency of the next view.
    pub fn on_quorum_proposal_recv(
        &mut self,
        quorum_membership: &Membership,
        proposal_view: u64,
    ) -> (r: Option<(u64, ProposalDependencyState)>)
        requires
            old(self).wf(),
            quorum_membership.wf(),
        ensures
            final(self).wf(),
            final(self).latest_proposed_view == old(self).latest_proposed_view,
            final(self).public_key == old(self).public_key,
            proposal_view == u64::MAX ==> r is None && final(self).deps@ == old(self).deps@,
            proposal_view < u64::MAX && !old(self).spec_may_create(
                quorum_membership@,
                (proposal_view + 1) as u64,
            ) ==> r is None && final(self).deps@ == old(self).deps@,
            proposal_view < u64::MAX && old(self).spec_may_create(
                quorum_membership@,
                (proposal_view + 1) as u64,
            ) ==> {
                let view = (proposal_view + 1) as u64;
                let d1 = spec_with_witness(spec_gathered(old(self).deps@, view));
                &&& (r is Some <==> spec_deps_complete(d1, view))
                &&& (r matches Some(p) ==> p == (view, d1) && final(self).deps@ == old(self).deps@.remove(view))
                &&& (r is None ==> final(self).deps@ == old(self).deps@.insert(view, d1))
            },
    {
        if proposal_view == u64::MAX {
            return None;
        }
        let view = proposal_view + 1;
        if !self.may_create_dependency(quorum_membership, view) {
            return None;
        }
        let mut d = self.take_deps(view);
        d.proposal_recv = true;
        let r = match self.store_or_complete(view, d) {
            Some(c) => Some((view, c)),
            None => None,
        };
        proof {
            lemma_note_composes(old(self).deps@, view);
        }
        r
    }

    /// Publish the proposal for `view` from a completed dependency: find
    /// the parent leaf the high certificate names, build the block header
    /// and the proposal justified by the high certificate, sign the
    /// proposed leaf's commitment, and record the proposal monotonically.
    /// Success and each error are tied exactly to their causes.
    pub fn publish_proposal(
        &self,
        consensus: &mut Consensus,
        view: u64,
        deps: &ProposalDependencyState,
    ) -> (r: Result<Proposal<QuorumProposal>, PublishError>)
        requires
            old(consensus).wf(),
            deps.payload is Some,
        ensures
            final(consensus).wf(),
            r is Ok <==> deps.payload.unwrap().block_view == view && old(consensus)@.saved_leaves.dom().contains(old(consensus)@.high_qc.leaf_commit) && view > old(consensus)@.last_proposed_view,
            r == Err::<Proposal<QuorumProposal>, PublishError>(PublishError::StalePayload)
                <==> deps.payload.unwrap().block_view != view,
            r == Err::<Proposal<QuorumProposal>, PublishError>(PublishError::MissingParent)
                <==> deps.payload.unwrap().block_view == view && !old(consensus)@.saved_leaves.dom().contains(old(consensus)@.high_qc.leaf_commit),
            r == Err::<Proposal<QuorumProposal>, PublishError>(PublishError::AlreadyProposed)
                <==> deps.payload.unwrap().block_view == view && old(consensus)@.saved_leaves.dom().contains(old(consensus)@.high_qc.leaf_commit) && view <= old(consensus)@.last_proposed_view,
            r is Err ==> final(consensus)@ == old(consensus)@,
            r matches Ok(p) ==> {
                let parent = old(consensus)@.saved_leaves[old(consensus)@.high_qc.leaf_commit];
                &&& p.data.view_number == view
                &&& p.data.justify_qc == old(consensus)@.high_qc
                &&& p.data.block_header.payload_commitment == deps.payload.unwrap().commitment
                &&& p.data.block_header.builder_commitment
                    == deps.payload.unwrap().builder_commitment
                &&& p.data.block_header.metadata@ == deps.payload.unwrap().metadata@
                &&& p.data.block_header.block_number == (if parent.block_header.block_number
                    < u64::MAX {
                    (parent.block_header.block_number + 1) as u64
                } else {
                    parent.block_header.block_number
                })
                &&& p.data.upgrade_certificate is None
                &&& (deps.view_sync_cert matches Some(c) ==> p.data.proposal_certificate == Some(
                    ViewChangeEvidence::ViewSync(c),
                ))
                &&& (deps.view_sync_cert is None ==> (deps.timeout_cert matches Some(c)
                    ==> p.data.proposal_certificate == Some(ViewChangeEvidence::Timeout(c))))
                &&& (deps.view_sync_cert is None && deps.timeout_cert is None
                    ==> p.data.proposal_certificate is None)
                &&& final(consensus)@ == (ConsensusV {
                    last_proposals: old(consensus)@.last_proposals.insert(view, p@),
                    last_proposed_view: view,
                    ..old(consensus)@
                })
            },
    {
        let payload = match &deps.payload {
            Some(p) => p,
            None => {
                return Err(PublishError::StalePayload);
            },
        };
        if payload.block_view != view {
            return Err(PublishError::StalePayload);
        }
        let high_qc = consensus.high_qc();
        let block_number = match consensus.saved_leaf(&high_qc.leaf_commit) {
            Some(l) => l.block_header.block_number,
            None => {
                return Err(PublishError::MissingParent);
            },
        };
        let header = BlockHeader {
            block_number: if block_number < u64::MAX {
                block_number + 1
            } else {
                block_number
            },
            payload_commitment: payload.commitment,
            builder_commitment: payload.builder_commitment,
            metadata: crate::bytes::bytes_dup(&payload.metadata),
        };
        let proposal = QuorumProposal {
            block_header: header,
            view_number: view,
            justify_qc: high_qc,
            upgrade_certificate: None,
            proposal_certificate: deps.evidence(),
        };
        let proposed_leaf = proposal.to_leaf();
        let leaf_commit = proposed_leaf.commit();
        let mut msg: Vec<u8> = Vec::new();
        crate::data::push_commit(&mut msg, &leaf_commit);
        let signature = sign_share(&self.private_key, &msg);
        let signed = Proposal { data: proposal, signature };
        match consensus.update_last_proposed_view(signed.dup()) {
            UpdateOutcome::Applied => Ok(signed),
            _ => Err(PublishError::AlreadyProposed),
        }
    }

    /// Raise the latest proposed view, dropping the dependency states of
    /// every view up to it; a non-increasing view changes nothing.
    pub fn update_latest_proposed_view(&mut self, new_view: u64) -> (r: bool)
        requires
            old(self).wf(),
        ensures
            final(self).wf(),
            final(self).public_key == old(self).public_key,
            r <==> new_view > old(self).latest_proposed_view,
            r ==> final(self).latest_proposed_view == new_view && final(self).deps@ == old(self).deps@.restrict(
                Set::new(
                    |k: u64|
                        k >= (if new_view < u64::MAX {
                            (new_view + 1) as u64
                        } else {
                            new_view
                        }),
                ),
            ),
            !r ==> final(self).latest_proposed_view == old(self).latest_proposed_view && final(self).deps@ == old(self).deps@,
    {
        if new_view > self.latest_proposed_view {
            let bound = if new_view < u64::MAX {
                new_view + 1
            } else {
                new_view
            };
            let _removed = self.deps.retain_at_least(bound);
            self.latest_proposed_view = new_view;
            proof {
                assert(forall|k: u64| #[trigger] k.at_least_spec(bound) <==> k >= bound);
                assert(self.deps@ =~= old(self).deps@.restrict(Set::new(|k: u64| k >= bound)));
            }
            true
        } else {
            false
        }
    }
}

/// Taking a view's entry out and storing the updated state back is the
/// plain map insertion; taking it out and handing it back is the plain
/// removal.
proof fn lemma_note_composes(m: Map<u64, ProposalDependencyState>, view: u64)
    ensures
        forall|d: ProposalDependencyState| #[trigger]
            m.remove(view).insert(view, d) == m.insert(view, d),
        m.remove(view).remove(view) == m.remove(view),
{
    assert forall|d: ProposalDependencyState| #[trigger]
        m.remove(view).insert(view, d) == m.insert(view, d) by {
        assert(m.remove(view).insert(view, d) =~= m.insert(view, d));
    }
    assert(m.remove(view).remove(view) =~= m.remove(view));
}

/// The dependency engine never deadlocks on gathered inputs: as soon as
/// the payload commitment and this leader's dispersal share are noted
/// together with any secondary path — a timeout certificate, a view-sync
/// certificate, or an announced quorum certificate witnessed by the
/// previous proposal where one is demanded — the dependency is complete
/// and the proposal is handed out for publishing.
pub proof fn lemma_dependency_fires(d: ProposalDependencyState, view: u64)
    requires
        d.payload is Some,
        d.vid_share,
        d.timeout_cert is Some || d.view_sync_cert is Some || (d.qc && (view <= 1
            || d.proposal_recv)),
    ensures
        spec_deps_complete(d, view),
{
}

} // verus!
